//! Driver options for the connect-or-create step: the verified logic forms
//! the connection string for the resolved file path and has the driver parse
//! it, with the create-if-missing policy switched on. The connect call itself
//! is the host adapter's.

use vstd::prelude::*;

use crate::error::SetupError;
use crate::paths::connection_string;
use crate::paths::connection_string_of;

verus! {

/// Declares the driver's connection-options type so that values of it can
/// pass through verified signatures; the value is opaque here.
#[verifier::external_type_specification]
#[verifier::external_body]
pub struct ExSqliteConnectOptions(sqlx::sqlite::SqliteConnectOptions);

/// A sequence with every leading copy of a prefix removed, as the driver's
/// scheme stripping removes it.
pub open spec fn without_leading(t: Seq<char>, prefix: Seq<char>) -> Seq<char>
    decreases t.len(),
{
    if prefix.len() > 0 && t.len() >= prefix.len() && t.subrange(0, prefix.len() as int)
        == prefix {
        without_leading(t.subrange(prefix.len() as int, t.len() as int), prefix)
    } else {
        t
    }
}

/// The part of a sequence before its first `?`.
pub open spec fn before_query(t: Seq<char>) -> Seq<char>
    decreases t.len(),
{
    if t.len() == 0 || t[0] == '?' {
        Seq::empty()
    } else {
        seq![t[0]] + before_query(t.subrange(1, t.len() as int))
    }
}

/// The database part of a connection target, as the driver reads it: the
/// scheme — every leading `sqlite://`, then every leading `sqlite:` — is
/// stripped, and the query parameters after the first `?` are cut off.
pub open spec fn database_part(target: Seq<char>) -> Seq<char> {
    before_query(without_leading(without_leading(target, "sqlite://"@), "sqlite:"@))
}

/// Whether the driver treats a connection target as an in-memory database
/// rather than a file: its database part is `:memory:`. For such a target the
/// driver stamps a process-global counter into the filename, so only away
/// from this family is the parse a function of the target alone. Every target
/// this library forms for a real database file stays away from it.
pub open spec fn is_memory_target(target: Seq<char>) -> bool {
    database_part(target) == ":memory:"@
}

/// The options the driver parses an accepted connection target into, for a
/// target that does not name an in-memory database.
pub uninterp spec fn parsed_options(target: Seq<char>) -> sqlx::sqlite::SqliteConnectOptions;

/// The given driver options with the create-if-missing policy set as asked.
pub uninterp spec fn with_create_of(
    options: sqlx::sqlite::SqliteConnectOptions,
    create: bool,
) -> sqlx::sqlite::SqliteConnectOptions;

/// Relies on sqlx's `SqliteConnectOptions::from_str`: it strips the
/// `sqlite:` scheme, splits query parameters off at the first `?`, and
/// percent-decodes the remainder into the filename, so a connection string
/// without `?` and `%` always parses. Away from the in-memory family the
/// parse depends on the target alone and its result is `parsed_options`. On
/// failure the driver's diagnostic is handed back as text.
#[verifier::external_body]
fn parse_connect_target(target: &str) -> (r: Result<
    sqlx::sqlite::SqliteConnectOptions,
    String,
>)
    ensures
        (forall|i: int|
            0 <= i < target@.len() ==> target@[i] != '?' && target@[i] != '%') ==> r is Ok,
        r matches Ok(o) ==> !is_memory_target(target@) ==> o == parsed_options(target@),
{
    match <sqlx::sqlite::SqliteConnectOptions as core::str::FromStr>::from_str(target) {
        Ok(o) => Ok(o),
        Err(e) => Err(format!("{e}")),
    }
}

/// Relies on sqlx's `SqliteConnectOptions::create_if_missing`: it returns the
/// given options with the create-if-missing policy set as asked, and that is
/// `with_create_of`.
#[verifier::external_body]
fn set_create_if_missing(
    options: sqlx::sqlite::SqliteConnectOptions,
    create: bool,
) -> (r: sqlx::sqlite::SqliteConnectOptions)
    ensures
        r == with_create_of(options, create),
{
    options.create_if_missing(create)
}

/// Builds the driver options for the resolved database file path: the
/// connection string addresses the file, and the policy is to create the
/// database file if it does not already exist — away from the driver's
/// in-memory family, the returned options are exactly the parse of that
/// connection string with the policy switched on. A path without `?` and `%`
/// is always accepted; a path the driver cannot parse as a connection target
/// is a configuration error carrying the driver's diagnostic.
pub fn prepare_connect_options(path: &str) -> (r: Result<
    sqlx::sqlite::SqliteConnectOptions,
    SetupError,
>)
    ensures
        (forall|i: int| 0 <= i < path@.len() ==> path@[i] != '?' && path@[i] != '%') ==> r is Ok,
        r matches Err(e) ==> e@ is Configuration,
        r matches Ok(o) ==> !is_memory_target(connection_string_of(path@)) ==> o
            == with_create_of(parsed_options(connection_string_of(path@)), true),
{
    let conn = connection_string(path);
    proof {
        reveal_strlit("sqlite:");
        assert("sqlite:"@ =~= seq!['s', 'q', 'l', 'i', 't', 'e', ':']);
        if forall|i: int| 0 <= i < path@.len() ==> #[trigger] path@[i] != '?' && path@[i] != '%' {
            assert(conn@ == connection_string_of(path@));
            assert forall|i: int| 0 <= i < conn@.len() implies conn@[i] != '?' && conn@[i]
                != '%' by {
                if i < 7 {
                    assert(conn@[i] == seq!['s', 'q', 'l', 'i', 't', 'e', ':'][i]);
                } else {
                    assert(conn@[i] == path@[i - 7]);
                }
            }
        }
    }
    match parse_connect_target(conn.as_str()) {
        Ok(o) => Ok(set_create_if_missing(o, true)),
        Err(m) => Err(SetupError::Configuration(m)),
    }
}

} // verus!
