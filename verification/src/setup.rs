//! The pool initializer's decision logic, as a state machine: one setup run
//! starts unconfigured, moves to connecting once the database path is
//! resolved and the data directory ensured, and ends registered on a
//! successful connect-or-create, or failed with the error surfaced to the
//! host. The host-facing adapter performs the filesystem and driver calls and
//! reports their outcomes here as plain values.

use vstd::prelude::*;
use vstd::string::StringExecFns;

use crate::error::ErrorModel;
use crate::error::SetupError;
use crate::paths::join_path;
use crate::paths::joined_path;

verus! {

/// Builder configuration: the relative path of the database file inside the
/// application data directory. Immutable once constructed; consumed when the
/// host plugin is built.
pub struct SqlitePluginBuilder {
    path: String,
}

impl View for SqlitePluginBuilder {
    type V = Seq<char>;

    closed spec fn view(&self) -> Seq<char> {
        self.path@
    }
}

/// What the host reports of the data directory step, reduced to plain values:
/// resolving the application data directory and creating it with any missing
/// parents.
pub enum DirOutcome {
    /// The host cannot supply an application data directory.
    Unavailable,
    /// Creating the directory failed, with the host's diagnostic. A directory
    /// that already exists is not a failure and is reported `Ready`.
    CreateFailed(String),
    /// The directory exists, but the attempted database file path is not
    /// representable as text; the host's lossy rendering of that path is
    /// carried, for the error message.
    Unreadable(String),
    /// The directory exists, created now or earlier, under the carried
    /// textual path.
    Ready(String),
}

/// The ghost model of a directory outcome.
pub enum DirOutcomeModel {
    Unavailable,
    CreateFailed(Seq<char>),
    Unreadable(Seq<char>),
    Ready(Seq<char>),
}

impl View for DirOutcome {
    type V = DirOutcomeModel;

    open spec fn view(&self) -> DirOutcomeModel {
        match self {
            DirOutcome::Unavailable => DirOutcomeModel::Unavailable,
            DirOutcome::CreateFailed(m) => DirOutcomeModel::CreateFailed(m@),
            DirOutcome::Unreadable(p) => DirOutcomeModel::Unreadable(p@),
            DirOutcome::Ready(d) => DirOutcomeModel::Ready(d@),
        }
    }
}

/// The state of one setup run.
pub enum SetupState {
    /// Nothing resolved yet; the builder holds only the relative path.
    Unconfigured,
    /// Path resolved and directory ensured; the connect-or-create call is in
    /// flight against the carried database file path.
    Connecting(String),
    /// Terminal: the pool is ready and registered.
    Registered,
    /// Terminal: the carried error is surfaced to the host.
    Failed(SetupError),
}

/// The ghost model of a setup state.
pub enum StateModel {
    Unconfigured,
    Connecting(Seq<char>),
    Registered,
    Failed(ErrorModel),
}

impl View for SetupState {
    type V = StateModel;

    open spec fn view(&self) -> StateModel {
        match self {
            SetupState::Unconfigured => StateModel::Unconfigured,
            SetupState::Connecting(p) => StateModel::Connecting(p@),
            SetupState::Registered => StateModel::Registered,
            SetupState::Failed(e) => StateModel::Failed(e@),
        }
    }
}

/// The message reported when the host cannot supply a data directory.
pub open spec fn dir_unavailable_message() -> Seq<char> {
    "App can not read/write SQLite files."@
}

/// The message reported when the resolved path is not representable as text:
/// it carries the host's rendering of the attempted path.
pub open spec fn invalid_path_message(rendering: Seq<char>) -> Seq<char> {
    "Invalid SQLite path: "@ + rendering
}

/// The message reported when the connect-or-create step fails: the attempted
/// path and the driver's diagnostic.
pub open spec fn connect_failure_message(path: Seq<char>, diagnostic: Seq<char>) -> Seq<char> {
    "Failed to open or create "@ + path + ": "@ + diagnostic
}

/// The preparation step of the machine: what one setup run moves to, out of
/// the unconfigured state, for a given directory outcome.
pub open spec fn prepare_model(rel: Seq<char>, outcome: DirOutcomeModel) -> StateModel {
    match outcome {
        DirOutcomeModel::Unavailable => StateModel::Failed(
            ErrorModel::Configuration(dir_unavailable_message()),
        ),
        DirOutcomeModel::CreateFailed(m) => StateModel::Failed(ErrorModel::Io(m)),
        DirOutcomeModel::Unreadable(p) => StateModel::Failed(
            ErrorModel::Configuration(invalid_path_message(p)),
        ),
        DirOutcomeModel::Ready(dir) => StateModel::Connecting(joined_path(dir, rel)),
    }
}

/// The completion step of the machine: what a connecting run moves to once
/// the connect-or-create call comes back, successfully or with a diagnostic.
pub open spec fn complete_model(state: StateModel, connect_error: Option<Seq<char>>) -> StateModel
    recommends
        state is Connecting,
{
    match connect_error {
        Option::None => StateModel::Registered,
        Option::Some(m) => StateModel::Failed(
            ErrorModel::Connection(connect_failure_message(state->Connecting_0, m)),
        ),
    }
}

impl SqlitePluginBuilder {
    /// Configures the initializer with the relative database file name.
    pub fn new(path: String) -> (r: Self)
        ensures
            r@ == path@,
    {
        SqlitePluginBuilder { path }
    }

    /// The configured relative path.
    pub fn relative_path(&self) -> (r: &String)
        ensures
            r@ == self@,
    {
        &self.path
    }

    /// The fixed name the plugin registers itself under with the host.
    pub fn plugin_name(&self) -> (r: &'static str)
        ensures
            r@ == "sqlite"@,
    {
        "sqlite"
    }

    /// The state a setup run starts in, before any outcome is reported.
    pub fn start(&self) -> (r: SetupState)
        ensures
            r@ == StateModel::Unconfigured,
    {
        SetupState::Unconfigured
    }

    /// The preparation step: takes the host's report of the data directory
    /// and either fails — no data directory, creation failure, or a path not
    /// representable as text — or resolves the database file path and moves
    /// to connecting.
    pub fn prepare(&self, outcome: DirOutcome) -> (r: SetupState)
        ensures
            r@ == prepare_model(self@, outcome@),
    {
        match outcome {
            DirOutcome::Unavailable => SetupState::Failed(
                SetupError::Configuration("App can not read/write SQLite files.".to_owned()),
            ),
            DirOutcome::CreateFailed(m) => SetupState::Failed(SetupError::Io(m)),
            DirOutcome::Unreadable(p) => SetupState::Failed(
                SetupError::Configuration(invalid_path_failure(p)),
            ),
            DirOutcome::Ready(dir) => SetupState::Connecting(
                join_path(dir.as_str(), self.path.as_str()),
            ),
        }
    }
}

/// The completion step: takes the outcome of the connect-or-create call made
/// for a connecting run, and either registers the pool or fails with a
/// connection error carrying the attempted path and the driver's diagnostic.
pub fn complete(state: SetupState, connect_error: Option<String>) -> (r: SetupState)
    requires
        state@ is Connecting,
    ensures
        r@ == complete_model(
            state@,
            match connect_error {
                Option::None => Option::None,
                Option::Some(m) => Option::Some(m@),
            },
        ),
{
    match state {
        SetupState::Connecting(path) => {
            match connect_error {
                Option::None => SetupState::Registered,
                Option::Some(m) => SetupState::Failed(
                    SetupError::Connection(connect_failure(path, m)),
                ),
            }
        },
        _ => vstd::pervasive::unreached(),
    }
}

/// Builds the invalid-path message from the host's rendering of the attempted
/// path.
fn invalid_path_failure(rendering: String) -> (r: String)
    ensures
        r@ == invalid_path_message(rendering@),
{
    let mut out = "Invalid SQLite path: ".to_owned();
    out.append(rendering.as_str());
    out
}

/// Builds the connect-failure message from the attempted path and the
/// driver's diagnostic.
fn connect_failure(path: String, diagnostic: String) -> (r: String)
    ensures
        r@ == connect_failure_message(path@, diagnostic@),
{
    let mut out = "Failed to open or create ".to_owned();
    out.append(path.as_str());
    out.append(": ");
    out.append(diagnostic.as_str());
    out
}

/// Directory creation is idempotent in the machine: a data directory that
/// already exists arrives as `Ready` — creating an existing directory is not
/// a failure — and preparation against a ready directory never fails; it
/// moves to connecting against the resolved path. As the step is a function
/// of its inputs, a second setup run against the same ready directory moves
/// to the same state, so neither run fails on directory creation.
pub proof fn lemma_prepare_ready_never_fails(rel: Seq<char>, dir: Seq<char>)
    ensures
        prepare_model(rel, DirOutcomeModel::Ready(dir)) == StateModel::Connecting(
            joined_path(dir, rel),
        ),
        !(prepare_model(rel, DirOutcomeModel::Ready(dir)) is Failed),
{
}

/// An input/output failure is reported only for a directory-creation failure:
/// whenever preparation fails with an input/output error, the host reported
/// that creating the directory failed, and the error carries that diagnostic.
pub proof fn lemma_io_failure_only_from_creation(rel: Seq<char>, outcome: DirOutcomeModel)
    ensures
        (prepare_model(rel, outcome) matches StateModel::Failed(e) && e is Io) <==> outcome
            is CreateFailed,
        outcome matches DirOutcomeModel::CreateFailed(m) ==> prepare_model(rel, outcome)
            == StateModel::Failed(ErrorModel::Io(m)),
{
}

/// When the host reports no usable application data directory, setup fails
/// with a configuration error, and with nothing else: the run never reaches
/// the connecting state, so no connect-or-create is attempted and no database
/// file path is ever formed.
pub proof fn lemma_unavailable_fails_configuration(rel: Seq<char>)
    ensures
        prepare_model(rel, DirOutcomeModel::Unavailable) == StateModel::Failed(
            ErrorModel::Configuration(dir_unavailable_message()),
        ),
        !(prepare_model(rel, DirOutcomeModel::Unavailable) is Connecting),
{
}

/// Failure of the connect-or-create step leaves no partial state: completion
/// registers exactly when the driver reported success, and any driver
/// diagnostic yields a failed state carrying a connection error with the
/// attempted path — never the registered state, so nothing is ever stored in
/// the shared-state registry for a failed run.
pub proof fn lemma_no_partial_registration(state: StateModel, connect_error: Option<Seq<char>>)
    requires
        state is Connecting,
    ensures
        complete_model(state, connect_error) is Registered <==> connect_error is None,
        connect_error matches Some(m) ==> complete_model(state, connect_error) == StateModel::Failed(
            ErrorModel::Connection(connect_failure_message(state->Connecting_0, m)),
        ),
{
}

} // verus!
