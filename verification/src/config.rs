//! Reading the project config file's key/value entries into a raw
//! configuration.
//!
//! The config file is a declarative key/value document. Whatever reads its
//! surface syntax hands the library one scalar entry per top-level key; this
//! module gives those entries their meaning: which keys are recognized, which
//! value shape each key demands, and which entries are malformed. A malformed
//! entry is a fatal error, never a best-effort parse; an unrecognized key is
//! ignored.

use vstd::prelude::*;

use crate::options::{str_eq, spec_empty_raw, Command, RawConfig, RawConfigV};

verus! {

/// One scalar value of the config file: a text value, a truth value, or
/// anything else (a number, a list, a table), which no recognized key
/// accepts.
#[derive(Clone, Debug, PartialEq, Eq)]
pub enum ConfigValue {
    Text(String),
    Boolean(bool),
    Other,
}

/// One top-level entry of the config file.
#[derive(Clone, Debug, PartialEq, Eq)]
pub struct ConfigEntry {
    pub key: String,
    pub value: ConfigValue,
}

/// Why a config file's content was rejected: the first entry whose value
/// does not fit its key.
#[derive(Clone, Copy, Debug, PartialEq, Eq, Structural)]
pub enum ConfigError {
    InvalidCommand,
    InvalidModule,
    InvalidBinaryPath,
    InvalidInstallDirectory,
    InvalidBuild,
}

/// What one entry does to the raw configuration read so far: overwrite one
/// field, reject the file, or (for an unrecognized key) nothing.
pub open spec fn spec_entry_step(rc: RawConfigV, e: ConfigEntry) -> Result<RawConfigV, ConfigError> {
    let k = e.key@;
    if k == "command"@ {
        match e.value {
            ConfigValue::Text(s) => if s@ == "INSTALL"@ {
                Ok(RawConfigV { command: Some(Command::Install), ..rc })
            } else if s@ == "HELP"@ {
                Ok(RawConfigV { command: Some(Command::Help), ..rc })
            } else {
                Err(ConfigError::InvalidCommand)
            },
            _ => Err(ConfigError::InvalidCommand),
        }
    } else if k == "module"@ {
        match e.value {
            ConfigValue::Text(s) => Ok(RawConfigV { module: Some(s@), ..rc }),
            _ => Err(ConfigError::InvalidModule),
        }
    } else if k == "binary_path"@ {
        match e.value {
            ConfigValue::Text(s) => Ok(RawConfigV { binary_path: Some(s@), ..rc }),
            _ => Err(ConfigError::InvalidBinaryPath),
        }
    } else if k == "install_directory"@ {
        match e.value {
            ConfigValue::Text(s) => Ok(RawConfigV { install_directory: Some(s@), ..rc }),
            _ => Err(ConfigError::InvalidInstallDirectory),
        }
    } else if k == "build"@ {
        match e.value {
            ConfigValue::Boolean(b) => Ok(RawConfigV { build: Some(b), ..rc }),
            _ => Err(ConfigError::InvalidBuild),
        }
    } else {
        Ok(rc)
    }
}

/// Folds the entries in order over a raw configuration, stopping at the
/// first malformed one.
pub open spec fn spec_entries_fold(rc: RawConfigV, es: Seq<ConfigEntry>) -> Result<
    RawConfigV,
    ConfigError,
>
    decreases es.len(),
{
    if es.len() == 0 {
        Ok(rc)
    } else {
        match spec_entry_step(rc, es[0]) {
            Ok(rc2) => spec_entries_fold(rc2, es.skip(1)),
            Err(err) => Err(err),
        }
    }
}

/// The raw configuration that a sequence of config file entries denotes,
/// starting from no opinion on any field.
pub open spec fn spec_raw_from_entries(es: Seq<ConfigEntry>) -> Result<RawConfigV, ConfigError> {
    spec_entries_fold(spec_empty_raw(), es)
}

/// The mathematical value of a raw-configuration result.
pub open spec fn raw_result_view(r: Result<RawConfig, ConfigError>) -> Result<
    RawConfigV,
    ConfigError,
> {
    match r {
        Ok(rc) => Ok(rc@),
        Err(err) => Err(err),
    }
}

/// Reads the config file's top-level entries into a raw configuration, in
/// order, later entries overwriting earlier ones; rejects the file at the
/// first entry whose value does not fit its key.
pub fn raw_from_entries(entries: &Vec<ConfigEntry>) -> (r: Result<RawConfig, ConfigError>)
    ensures
        raw_result_view(r) == spec_raw_from_entries(entries@),
{
    let mut rc = RawConfig::empty();
    let n: usize = entries.len();
    let mut i: usize = 0;
    proof {
        assert(entries@.skip(0) =~= entries@);
    }
    while i < n
        invariant
            n == entries@.len(),
            0 <= i <= n,
            spec_entries_fold(rc@, entries@.skip(i as int)) == spec_raw_from_entries(entries@),
        decreases n - i,
    {
        let e = &entries[i];
        let ghost rc0 = rc@;
        proof {
            assert(entries@.skip(i as int)[0] == entries@[i as int]);
            assert(entries@.skip(i as int).skip(1) =~= entries@.skip(i as int + 1));
        }
        if str_eq(e.key.as_str(), "command") {
            match &e.value {
                ConfigValue::Text(s) => {
                    if str_eq(s.as_str(), "INSTALL") {
                        rc.command = Some(Command::Install);
                    } else if str_eq(s.as_str(), "HELP") {
                        rc.command = Some(Command::Help);
                    } else {
                        return Err(ConfigError::InvalidCommand);
                    }
                },
                _ => {
                    return Err(ConfigError::InvalidCommand);
                },
            }
        } else if str_eq(e.key.as_str(), "module") {
            match &e.value {
                ConfigValue::Text(s) => {
                    rc.module = Some(s.clone());
                },
                _ => {
                    return Err(ConfigError::InvalidModule);
                },
            }
        } else if str_eq(e.key.as_str(), "binary_path") {
            match &e.value {
                ConfigValue::Text(s) => {
                    rc.binary_path = Some(s.clone());
                },
                _ => {
                    return Err(ConfigError::InvalidBinaryPath);
                },
            }
        } else if str_eq(e.key.as_str(), "install_directory") {
            match &e.value {
                ConfigValue::Text(s) => {
                    rc.install_directory = Some(s.clone());
                },
                _ => {
                    return Err(ConfigError::InvalidInstallDirectory);
                },
            }
        } else if str_eq(e.key.as_str(), "build") {
            match &e.value {
                ConfigValue::Boolean(b) => {
                    rc.build = Some(*b);
                },
                _ => {
                    return Err(ConfigError::InvalidBuild);
                },
            }
        }
        proof {
            assert(spec_entry_step(rc0, entries@[i as int]) == Ok::<RawConfigV, ConfigError>(rc@))
                by {
                assert(rc@ =~= (match spec_entry_step(rc0, entries@[i as int]) {
                    Ok(v) => v,
                    Err(_) => rc@,
                }));
            }
        }
        i = i + 1;
    }
    Ok(rc)
}

} // verus!
