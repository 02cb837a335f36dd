use tauri_sqlite::error::SetupError;
use tauri_sqlite::paths::connection_string;
use tauri_sqlite::paths::join_path;
use tauri_sqlite::registry::StateRegistry;
use tauri_sqlite::setup::complete;
use tauri_sqlite::setup::DirOutcome;
use tauri_sqlite::setup::SetupState;
use tauri_sqlite::setup::SqlitePluginBuilder;

#[test]
fn builder_keeps_relative_path() {
    let builder = SqlitePluginBuilder::new(String::from("app.db"));
    assert_eq!(builder.relative_path().as_str(), "app.db");
}

#[test]
fn plugin_registers_under_fixed_name() {
    let builder = SqlitePluginBuilder::new(String::from("app.db"));
    assert_eq!(builder.plugin_name(), "sqlite");
}

#[test]
fn setup_starts_unconfigured() {
    let builder = SqlitePluginBuilder::new(String::from("app.db"));
    assert!(matches!(builder.start(), SetupState::Unconfigured));
}

#[test]
fn path_composition_is_exact() {
    let joined = join_path("/home/user/.local/share/app", "app.db");
    assert_eq!(joined.as_str(), "/home/user/.local/share/app/app.db");
}

#[test]
fn path_composition_adds_no_extra_separator() {
    let joined = join_path("/data/", "app.db");
    assert_eq!(joined.as_str(), "/data/app.db");
}

#[test]
fn path_composition_keeps_absolute_name() {
    let joined = join_path("/data", "/tmp/app.db");
    assert_eq!(joined.as_str(), "/tmp/app.db");
}

#[test]
fn path_composition_with_empty_directory() {
    let joined = join_path("", "app.db");
    assert_eq!(joined.as_str(), "app.db");
}

#[test]
fn connection_string_prefixes_scheme() {
    let conn = connection_string("/data/app.db");
    assert_eq!(conn.as_str(), "sqlite:/data/app.db");
}

#[test]
fn prepare_against_existing_directory_never_fails() {
    let builder = SqlitePluginBuilder::new(String::from("app.db"));
    let mut runs: usize = 0;
    while runs < 2 {
        let state = builder.prepare(DirOutcome::Ready(String::from("/data/dir")));
        match state {
            SetupState::Connecting(path) => assert_eq!(path.as_str(), "/data/dir/app.db"),
            _ => panic!("preparation failed against a directory that already exists"),
        }
        runs += 1;
    }
}

#[test]
fn successful_connect_registers() {
    let builder = SqlitePluginBuilder::new(String::from("app.db"));
    let state = builder.prepare(DirOutcome::Ready(String::from("/data/dir")));
    let done = complete(state, None);
    assert!(matches!(done, SetupState::Registered));
}

#[test]
fn unavailable_directory_is_configuration_error() {
    let builder = SqlitePluginBuilder::new(String::from("app.db"));
    let state = builder.prepare(DirOutcome::Unavailable);
    match state {
        SetupState::Failed(SetupError::Configuration(message)) => {
            assert_eq!(message.as_str(), "App can not read/write SQLite files.");
        }
        _ => panic!("a missing data directory must fail with a configuration error"),
    }
}

#[test]
fn creation_failure_is_io_error() {
    let builder = SqlitePluginBuilder::new(String::from("app.db"));
    let state = builder.prepare(DirOutcome::CreateFailed(String::from("permission denied")));
    match state {
        SetupState::Failed(SetupError::Io(message)) => {
            assert_eq!(message.as_str(), "permission denied");
        }
        _ => panic!("a directory creation failure must fail with an input/output error"),
    }
}

#[test]
fn unreadable_path_is_configuration_error() {
    let builder = SqlitePluginBuilder::new(String::from("app.db"));
    let rendering = String::from("\"/data/\\xFFdir/app.db\"");
    let state = builder.prepare(DirOutcome::Unreadable(rendering));
    match state {
        SetupState::Failed(SetupError::Configuration(message)) => {
            assert_eq!(
                message.as_str(),
                "Invalid SQLite path: \"/data/\\xFFdir/app.db\""
            );
        }
        _ => panic!("an unreadable path must fail with a configuration error"),
    }
}

#[test]
fn connect_failure_leaves_no_partial_state() {
    let builder = SqlitePluginBuilder::new(String::from("app.db"));
    let registry: StateRegistry<u8> = StateRegistry::new();
    let state = builder.prepare(DirOutcome::Ready(String::from("/data/dir")));
    let done = complete(state, Some(String::from("database is locked")));
    match done {
        SetupState::Failed(SetupError::Connection(message)) => {
            assert_eq!(
                message.as_str(),
                "Failed to open or create /data/dir/app.db: database is locked"
            );
        }
        _ => panic!("a connect failure must surface a connection error"),
    }
    assert!(registry.try_state().is_none());
}

#[test]
fn registry_registers_once() {
    let mut registry: StateRegistry<u32> = StateRegistry::new();
    assert!(registry.try_state().is_none());
    assert!(registry.manage(7));
    assert_eq!(registry.try_state(), Some(&7));
    assert!(!registry.manage(9));
    assert_eq!(registry.try_state(), Some(&7));
}

#[test]
fn error_message_is_carried() {
    let error = SetupError::Io(String::from("disk full"));
    assert_eq!(error.message().as_str(), "disk full");
}
