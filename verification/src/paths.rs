//! Path composition: joining the application data directory with the
//! configured relative file name, and forming the textual connection string
//! that addresses the resolved file.

use vstd::prelude::*;
use vstd::string::StrSliceExecFns;
use vstd::string::StringExecFns;

verus! {

/// The joined path of a directory and a relative name, as the POSIX textual
/// join forms it: a name that is itself absolute — it starts with the
/// separator — replaces the directory; an empty directory contributes
/// nothing; otherwise the name is appended, with one separator added only
/// where the directory does not already end with one.
pub open spec fn joined_path(dir: Seq<char>, rel: Seq<char>) -> Seq<char> {
    if rel.len() > 0 && rel[0] == '/' {
        rel
    } else if dir.len() == 0 {
        rel
    } else if dir[dir.len() - 1] == '/' {
        dir + rel
    } else {
        dir + seq!['/'] + rel
    }
}

/// Joins the data directory with the configured relative name.
pub fn join_path(dir: &str, rel: &str) -> (r: String)
    ensures
        r@ == joined_path(dir@, rel@),
{
    let rel_len = rel.unicode_len();
    if rel_len > 0 && rel.get_char(0) == '/' {
        return rel.to_owned();
    }
    let dir_len = dir.unicode_len();
    if dir_len == 0 {
        return rel.to_owned();
    }
    let mut out = dir.to_owned();
    if dir.get_char(dir_len - 1) != '/' {
        proof {
            reveal_strlit("/");
            assert("/"@ =~= seq!['/']);
        }
        out.append("/");
    }
    out.append(rel);
    out
}

/// The textual connection string addressing a database file path.
pub open spec fn connection_string_of(path: Seq<char>) -> Seq<char> {
    "sqlite:"@ + path
}

/// Forms the connection string for the resolved database file path.
pub fn connection_string(path: &str) -> (r: String)
    ensures
        r@ == connection_string_of(path@),
{
    let mut out = "sqlite:".to_owned();
    out.append(path);
    out
}

/// Path composition is exact: where the data directory does not already end
/// with the separator and the relative name does not start with one, the
/// resolved target is the directory, one separator, and the name — the
/// directory as prefix, the name as suffix, no extra separators and no
/// renaming.
pub proof fn lemma_path_composition(dir: Seq<char>, rel: Seq<char>)
    requires
        dir.len() > 0,
        dir[dir.len() - 1] != '/',
        rel.len() > 0 ==> rel[0] != '/',
    ensures
        joined_path(dir, rel) == dir + seq!['/'] + rel,
        joined_path(dir, rel).len() == dir.len() + 1 + rel.len(),
        joined_path(dir, rel).subrange(0, dir.len() as int) == dir,
        joined_path(dir, rel)[dir.len() as int] == '/',
        joined_path(dir, rel).subrange(
            dir.len() as int + 1,
            joined_path(dir, rel).len() as int,
        ) == rel,
{
    let j = joined_path(dir, rel);
    assert(j == dir + seq!['/'] + rel);
    assert(j.subrange(0, dir.len() as int) =~= dir);
    assert(j.subrange(dir.len() as int + 1, j.len() as int) =~= rel);
}

} // verus!
