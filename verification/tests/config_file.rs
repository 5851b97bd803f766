use freighter::config::{raw_from_entries, ConfigEntry, ConfigError, ConfigValue};
use freighter::options::Command;

fn text(key: &str, value: &str) -> ConfigEntry {
    ConfigEntry { key: key.to_string(), value: ConfigValue::Text(value.to_string()) }
}

fn boolean(key: &str, value: bool) -> ConfigEntry {
    ConfigEntry { key: key.to_string(), value: ConfigValue::Boolean(value) }
}

fn other(key: &str) -> ConfigEntry {
    ConfigEntry { key: key.to_string(), value: ConfigValue::Other }
}

#[test]
fn no_entries_mean_no_opinions() {
    let rc = raw_from_entries(&Vec::new()).unwrap();
    assert_eq!(rc.command, None);
    assert_eq!(rc.module, None);
    assert_eq!(rc.binary_path, None);
    assert_eq!(rc.install_directory, None);
    assert_eq!(rc.build, None);
}

#[test]
fn command_install_is_recognized() {
    let rc = raw_from_entries(&vec![text("command", "INSTALL")]).unwrap();
    assert_eq!(rc.command, Some(Command::Install));
}

#[test]
fn command_help_is_recognized() {
    let rc = raw_from_entries(&vec![text("command", "HELP")]).unwrap();
    assert_eq!(rc.command, Some(Command::Help));
}

#[test]
fn unknown_command_value_is_rejected() {
    let r = raw_from_entries(&vec![text("command", "UPDATE")]);
    assert_eq!(r, Err(ConfigError::InvalidCommand));
}

#[test]
fn non_text_command_is_rejected() {
    let r = raw_from_entries(&vec![boolean("command", true)]);
    assert_eq!(r, Err(ConfigError::InvalidCommand));
}

#[test]
fn module_takes_a_text_value() {
    let rc = raw_from_entries(&vec![text("module", "rust")]).unwrap();
    assert_eq!(rc.module, Some("rust".to_string()));
}

#[test]
fn non_text_module_is_rejected() {
    let r = raw_from_entries(&vec![boolean("module", false)]);
    assert_eq!(r, Err(ConfigError::InvalidModule));
}

#[test]
fn binary_path_takes_a_text_value() {
    let rc = raw_from_entries(&vec![text("binary_path", "/tmp/a")]).unwrap();
    assert_eq!(rc.binary_path, Some("/tmp/a".to_string()));
}

#[test]
fn non_text_binary_path_is_rejected() {
    let r = raw_from_entries(&vec![other("binary_path")]);
    assert_eq!(r, Err(ConfigError::InvalidBinaryPath));
}

#[test]
fn install_directory_takes_a_text_value() {
    let rc = raw_from_entries(&vec![text("install_directory", "/tmp/out")]).unwrap();
    assert_eq!(rc.install_directory, Some("/tmp/out".to_string()));
}

#[test]
fn non_text_install_directory_is_rejected() {
    let r = raw_from_entries(&vec![other("install_directory")]);
    assert_eq!(r, Err(ConfigError::InvalidInstallDirectory));
}

#[test]
fn build_takes_a_truth_value() {
    let rc = raw_from_entries(&vec![boolean("build", false)]).unwrap();
    assert_eq!(rc.build, Some(false));
}

#[test]
fn non_boolean_build_is_rejected() {
    let r = raw_from_entries(&vec![text("build", "yes")]);
    assert_eq!(r, Err(ConfigError::InvalidBuild));
}

#[test]
fn unrecognized_keys_are_ignored() {
    let rc = raw_from_entries(&vec![other("color"), text("module", "rust")]).unwrap();
    assert_eq!(rc.module, Some("rust".to_string()));
    assert_eq!(rc.command, None);
}

#[test]
fn a_later_entry_overwrites_an_earlier_one() {
    let rc = raw_from_entries(&vec![text("module", "go"), text("module", "zig")]).unwrap();
    assert_eq!(rc.module, Some("zig".to_string()));
}

#[test]
fn the_first_malformed_entry_decides_the_error() {
    let r = raw_from_entries(&vec![boolean("module", true), text("build", "yes")]);
    assert_eq!(r, Err(ConfigError::InvalidModule));
}

#[test]
fn entries_before_a_malformed_one_do_not_leak() {
    let r = raw_from_entries(&vec![text("module", "go"), text("command", "nope")]);
    assert!(r.is_err());
}
