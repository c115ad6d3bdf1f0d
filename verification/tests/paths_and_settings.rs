use botshell::paths::FsPath;
use botshell::settings::{
    create_dir_error, settings_from_read, write_settings_error, SettingsReadError,
};

fn path(parts: &[&str]) -> FsPath {
    FsPath { parts: parts.iter().map(|p| String::from(*p)).collect() }
}

fn parts_of(p: &FsPath) -> Vec<&str> {
    p.parts.iter().map(|s| s.as_str()).collect()
}

#[test]
fn build_dir_is_recognized() {
    assert!(path(&["home", "proj", "frontend", "src-tauri"]).in_build_dir());
    assert!(!path(&["home", "proj"]).in_build_dir());
    assert!(!path(&["home", "src-tauri", "deeper"]).in_build_dir());
    assert!(!path(&[]).in_build_dir());
}

#[test]
fn project_root_strips_the_nested_build_dir() {
    let cwd = path(&["home", "proj", "frontend", "src-tauri"]);
    assert_eq!(parts_of(&cwd.project_root()), ["home", "proj"]);

    let cwd = path(&["home", "proj"]);
    assert_eq!(parts_of(&cwd.project_root()), ["home", "proj"]);
}

#[test]
fn well_known_paths_from_the_build_dir() {
    let cwd = path(&["home", "proj", "frontend", "src-tauri"]);
    assert_eq!(parts_of(&cwd.env_file_path()), ["home", "proj", ".env"]);
    assert_eq!(
        parts_of(&cwd.monitoring_stats_path()),
        ["home", "proj", "logs", "monitoring_stats.json"]
    );
    assert_eq!(
        parts_of(&cwd.bot_script_path()),
        ["home", "proj", "scripts", "monitoring", "arbitrage_bot.py"]
    );
}

#[test]
fn well_known_paths_from_the_project_root() {
    let cwd = path(&["srv", "bot"]);
    assert_eq!(parts_of(&cwd.env_file_path()), ["srv", "bot", ".env"]);
    assert_eq!(
        parts_of(&cwd.monitoring_stats_path()),
        ["srv", "bot", "logs", "monitoring_stats.json"]
    );
    assert_eq!(
        parts_of(&cwd.bot_script_path()),
        ["srv", "bot", "scripts", "monitoring", "arbitrage_bot.py"]
    );
}

#[test]
fn settings_content_passes_through() {
    let written = String::from("API_KEY=SECRET-REDACTED\nMODE=paper\n");
    let reply = settings_from_read(Ok(written.clone()));
    assert_eq!(reply, Ok(written));
}

#[test]
fn absent_settings_file_reads_as_empty() {
    let reply = settings_from_read(Err(SettingsReadError::NotFound));
    assert_eq!(reply, Ok(String::new()));
}

#[test]
fn other_read_failures_are_reported() {
    let reply = settings_from_read(Err(SettingsReadError::Other(String::from(
        "permission denied",
    ))));
    assert_eq!(reply, Err(String::from("Failed to read settings file: permission denied")));
}

#[test]
fn write_error_messages() {
    assert_eq!(write_settings_error("disk full"), "Failed to write settings file: disk full");
    assert_eq!(create_dir_error("read-only"), "Failed to create directory: read-only");
}
