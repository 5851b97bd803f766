//! The configuration data model: the command, the raw (all-optional)
//! configuration read from the project config file, and the fully resolved
//! configuration that the orchestrator consumes.

use vstd::prelude::*;

verus! {

/// The command the tool was asked to run. Anything that is not recognized
/// resolves to `Help`.
#[derive(Clone, Copy, Debug, PartialEq, Eq, Structural)]
pub enum Command {
    Help,
    Install,
}

/// The configuration as read from the project config file: every field is
/// optional, and an absent field means "no opinion", deferring to the
/// built-in defaults.
#[derive(Clone, Debug, PartialEq, Eq)]
pub struct RawConfig {
    pub command: Option<Command>,
    pub module: Option<String>,
    pub binary_path: Option<String>,
    pub install_directory: Option<String>,
    pub build: Option<bool>,
}

/// The fully resolved configuration: every field holds a concrete value,
/// except the artifact path, which may legitimately stay unset.
#[derive(Clone, Debug, PartialEq, Eq)]
pub struct Options {
    pub command: Command,
    pub module: String,
    pub binary_path: Option<String>,
    pub install_directory: String,
    pub build: bool,
}

/// The mathematical value of an `Option<String>`: the character sequence it
/// holds, if any.
pub open spec fn opt_view(o: Option<String>) -> Option<Seq<char>> {
    match o {
        Some(s) => Some(s@),
        None => None,
    }
}

/// The mathematical model of a `RawConfig`.
#[verifier::ext_equal]
pub struct RawConfigV {
    pub command: Option<Command>,
    pub module: Option<Seq<char>>,
    pub binary_path: Option<Seq<char>>,
    pub install_directory: Option<Seq<char>>,
    pub build: Option<bool>,
}

/// The mathematical model of an `Options`.
#[verifier::ext_equal]
pub struct OptionsV {
    pub command: Command,
    pub module: Seq<char>,
    pub binary_path: Option<Seq<char>>,
    pub install_directory: Seq<char>,
    pub build: bool,
}

impl View for RawConfig {
    type V = RawConfigV;

    open spec fn view(&self) -> RawConfigV {
        RawConfigV {
            command: self.command,
            module: opt_view(self.module),
            binary_path: opt_view(self.binary_path),
            install_directory: opt_view(self.install_directory),
            build: self.build,
        }
    }
}

impl View for Options {
    type V = OptionsV;

    open spec fn view(&self) -> OptionsV {
        OptionsV {
            command: self.command,
            module: self.module@,
            binary_path: opt_view(self.binary_path),
            install_directory: self.install_directory@,
            build: self.build,
        }
    }
}

/// The built-in defaults: show the help text, build with the Rust toolchain,
/// leave the artifact path unset, and install into the system bin directory.
pub open spec fn spec_default() -> OptionsV {
    OptionsV {
        command: Command::Help,
        module: "rust"@,
        binary_path: None,
        install_directory: "/usr/local/bin"@,
        build: true,
    }
}

/// Decides whether two strings hold the same characters.
pub fn str_eq(a: &str, b: &str) -> (r: bool)
    ensures
        r == (a@ == b@),
{
    let sa = String::from_str(a);
    let sb = String::from_str(b);
    sa == sb
}

/// A raw configuration with no opinion on any field.
pub open spec fn spec_empty_raw() -> RawConfigV {
    RawConfigV {
        command: None,
        module: None,
        binary_path: None,
        install_directory: None,
        build: None,
    }
}

impl RawConfig {
    /// A raw configuration with no opinion on any field.
    pub fn empty() -> (r: RawConfig)
        ensures
            r@ == spec_empty_raw(),
    {
        RawConfig {
            command: None,
            module: None,
            binary_path: None,
            install_directory: None,
            build: None,
        }
    }
}

impl Default for Options {
    /// The lowest-precedence layer of the resolution.
    fn default() -> (r: Options)
        ensures
            r@ == spec_default(),
    {
        Options {
            command: Command::Help,
            module: String::from_str("rust"),
            binary_path: None,
            install_directory: String::from_str("/usr/local/bin"),
            build: true,
        }
    }
}

} // verus!
