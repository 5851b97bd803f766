//! Three-layer resolution of the final configuration.
//!
//! The resolved configuration is a pure function of three ordered layers,
//! lowest to highest precedence: the built-in defaults, the raw config file
//! (where one was found), and the command-line overrides. The command line
//! acts in two passes, as the token pair at position one selects the command,
//! and then every recognized flag, scanned in order over all pairs,
//! overwrites its field; unrecognized flags are ignored.

use vstd::prelude::*;

use crate::args::ArgPair;
use crate::options::{
    opt_view, spec_default, str_eq, Command, Options, OptionsV, RawConfig,
};

verus! {

/// The help toggle, in short or long form.
pub open spec fn is_help_flag(t: Seq<char>) -> bool {
    t == "-h"@ || t == "--help"@
}

/// The module override, in short or long form.
pub open spec fn is_module_flag(t: Seq<char>) -> bool {
    t == "-m"@ || t == "--module"@
}

/// The artifact-path override, in short or long form.
pub open spec fn is_binary_path_flag(t: Seq<char>) -> bool {
    t == "-b"@ || t == "--binary-path"@
}

/// The install-directory override, in short or long form.
pub open spec fn is_install_dir_flag(t: Seq<char>) -> bool {
    t == "-i"@ || t == "--install-dir"@
}

/// The build-suppression flag, in short or long form.
pub open spec fn is_no_build_flag(t: Seq<char>) -> bool {
    t == "-n"@ || t == "--no-build"@
}

/// The value a flag hands its field: the token after it, or the empty
/// string when the flag is the last token.
pub open spec fn follow_value(f: Option<Seq<char>>) -> Seq<char> {
    match f {
        Some(s) => s,
        None => Seq::empty(),
    }
}

/// The config file layer: every field the file has an opinion on overwrites
/// the layer below; absent fields leave it untouched.
pub open spec fn spec_overlay(base: OptionsV, raw: RawConfig) -> OptionsV {
    OptionsV {
        command: match raw@.command {
            Some(c) => c,
            None => base.command,
        },
        module: match raw@.module {
            Some(m) => m,
            None => base.module,
        },
        binary_path: match raw@.binary_path {
            Some(p) => Some(p),
            None => base.binary_path,
        },
        install_directory: match raw@.install_directory {
            Some(d) => d,
            None => base.install_directory,
        },
        build: match raw@.build {
            Some(b) => b,
            None => base.build,
        },
    }
}

/// The config file layer over an optional raw config: with no config file,
/// the layer below stands as it is.
pub open spec fn spec_overlay_opt(base: OptionsV, raw: Option<RawConfig>) -> OptionsV {
    match raw {
        Some(rc) => spec_overlay(base, rc),
        None => base,
    }
}

/// The positional command: the token pair at position one (position zero
/// holds the program name) selects the command; `install` selects Install
/// and anything else, a typo included, falls back to Help. With at most one
/// token the layer below stands.
pub open spec fn spec_positional(base: OptionsV, args: Seq<ArgPair>) -> OptionsV {
    if args.len() > 1 {
        OptionsV {
            command: if args[1]@.token == "install"@ {
                Command::Install
            } else {
                Command::Help
            },
            ..base
        }
    } else {
        base
    }
}

/// What one token pair does to the configuration: a recognized flag
/// overwrites its field, anything else does nothing.
pub open spec fn spec_flag_step(o: OptionsV, a: ArgPair) -> OptionsV {
    let t = a@.token;
    if is_help_flag(t) {
        OptionsV { command: Command::Help, ..o }
    } else if is_module_flag(t) {
        OptionsV { module: follow_value(a@.follow), ..o }
    } else if is_binary_path_flag(t) {
        OptionsV { binary_path: a@.follow, ..o }
    } else if is_install_dir_flag(t) {
        OptionsV { install_directory: follow_value(a@.follow), ..o }
    } else if is_no_build_flag(t) {
        OptionsV { build: false, ..o }
    } else {
        o
    }
}

/// The flag layer: every token pair applied in order, left to right.
pub open spec fn spec_flags(o: OptionsV, args: Seq<ArgPair>) -> OptionsV
    decreases args.len(),
{
    if args.len() == 0 {
        o
    } else {
        spec_flags(spec_flag_step(o, args[0]), args.skip(1))
    }
}

/// The whole resolution: defaults, then the config file, then the
/// positional command, then the flags.
pub open spec fn spec_resolve(raw: Option<RawConfig>, args: Seq<ArgPair>) -> OptionsV {
    spec_flags(spec_positional(spec_overlay_opt(spec_default(), raw), args), args)
}

/// Merges the three layers into the final configuration.
pub fn generate_options(parsed_args: &Vec<ArgPair>, raw: &Option<RawConfig>) -> (r: Options)
    ensures
        r@ == spec_resolve(*raw, parsed_args@),
{
    let mut opts = Options::default();

    match raw {
        Some(rc) => {
            match &rc.command {
                Some(c) => {
                    opts.command = *c;
                },
                None => {},
            }
            match &rc.module {
                Some(m) => {
                    opts.module = m.clone();
                },
                None => {},
            }
            match &rc.binary_path {
                Some(p) => {
                    opts.binary_path = Some(p.clone());
                },
                None => {},
            }
            match &rc.install_directory {
                Some(d) => {
                    opts.install_directory = d.clone();
                },
                None => {},
            }
            match &rc.build {
                Some(b) => {
                    opts.build = *b;
                },
                None => {},
            }
        },
        None => {},
    }
    proof {
        assert(opts@ =~= spec_overlay_opt(spec_default(), *raw));
    }

    if parsed_args.len() > 1 {
        if str_eq(parsed_args[1].token.as_str(), "install") {
            opts.command = Command::Install;
        } else {
            opts.command = Command::Help;
        }
    }
    proof {
        assert(opts@ =~= spec_positional(spec_overlay_opt(spec_default(), *raw), parsed_args@));
    }

    let ghost base = opts@;
    let n: usize = parsed_args.len();
    let mut i: usize = 0;
    proof {
        assert(parsed_args@.skip(0) =~= parsed_args@);
    }
    while i < n
        invariant
            n == parsed_args@.len(),
            0 <= i <= n,
            spec_flags(opts@, parsed_args@.skip(i as int)) == spec_flags(base, parsed_args@),
        decreases n - i,
    {
        let a = &parsed_args[i];
        let ghost o0 = opts@;
        proof {
            assert(parsed_args@.skip(i as int)[0] == parsed_args@[i as int]);
            assert(parsed_args@.skip(i as int).skip(1) =~= parsed_args@.skip(i as int + 1));
        }
        if str_eq(a.token.as_str(), "-h") || str_eq(a.token.as_str(), "--help") {
            opts.command = Command::Help;
        } else if str_eq(a.token.as_str(), "-m") || str_eq(a.token.as_str(), "--module") {
            opts.module = follow_or_empty(&a.follow);
        } else if str_eq(a.token.as_str(), "-b") || str_eq(a.token.as_str(), "--binary-path") {
            opts.binary_path = clone_follow(&a.follow);
        } else if str_eq(a.token.as_str(), "-i") || str_eq(a.token.as_str(), "--install-dir") {
            opts.install_directory = follow_or_empty(&a.follow);
        } else if str_eq(a.token.as_str(), "-n") || str_eq(a.token.as_str(), "--no-build") {
            opts.build = false;
        }
        proof {
            assert(opts@ =~= spec_flag_step(o0, parsed_args@[i as int]));
        }
        i = i + 1;
    }
    opts
}

/// Whether some token of the command line is the help toggle.
pub open spec fn cli_sets_help(args: Seq<ArgPair>) -> bool
    decreases args.len(),
{
    if args.len() == 0 {
        false
    } else {
        is_help_flag(args.last()@.token) || cli_sets_help(args.drop_last())
    }
}

/// The module the command line asks for: the value of the last module
/// override on it, if any.
pub open spec fn cli_module(args: Seq<ArgPair>) -> Option<Seq<char>>
    decreases args.len(),
{
    if args.len() == 0 {
        None
    } else if is_module_flag(args.last()@.token) {
        Some(follow_value(args.last()@.follow))
    } else {
        cli_module(args.drop_last())
    }
}

/// The artifact path the command line asks for: the value of the last
/// artifact-path override on it, if any. The outer level says whether the
/// command line has an opinion at all; the inner one is the path itself,
/// unset when the flag stands last with nothing after it.
pub open spec fn cli_binary_path(args: Seq<ArgPair>) -> Option<Option<Seq<char>>>
    decreases args.len(),
{
    if args.len() == 0 {
        None
    } else if is_binary_path_flag(args.last()@.token) {
        Some(args.last()@.follow)
    } else {
        cli_binary_path(args.drop_last())
    }
}

/// The install directory the command line asks for: the value of the last
/// install-directory override on it, if any.
pub open spec fn cli_install_dir(args: Seq<ArgPair>) -> Option<Seq<char>>
    decreases args.len(),
{
    if args.len() == 0 {
        None
    } else if is_install_dir_flag(args.last()@.token) {
        Some(follow_value(args.last()@.follow))
    } else {
        cli_install_dir(args.drop_last())
    }
}

/// Whether some token of the command line is the build-suppression flag.
pub open spec fn cli_no_build(args: Seq<ArgPair>) -> bool
    decreases args.len(),
{
    if args.len() == 0 {
        false
    } else {
        is_no_build_flag(args.last()@.token) || cli_no_build(args.drop_last())
    }
}

/// The config file's opinion on the command, if a file was found and has
/// one.
pub open spec fn config_command(raw: Option<RawConfig>) -> Option<Command> {
    match raw {
        Some(rc) => rc@.command,
        None => None,
    }
}

/// The config file's opinion on the module, if any.
pub open spec fn config_module(raw: Option<RawConfig>) -> Option<Seq<char>> {
    match raw {
        Some(rc) => rc@.module,
        None => None,
    }
}

/// The config file's opinion on the artifact path, if any.
pub open spec fn config_binary_path(raw: Option<RawConfig>) -> Option<Seq<char>> {
    match raw {
        Some(rc) => rc@.binary_path,
        None => None,
    }
}

/// The config file's opinion on the install directory, if any.
pub open spec fn config_install_dir(raw: Option<RawConfig>) -> Option<Seq<char>> {
    match raw {
        Some(rc) => rc@.install_directory,
        None => None,
    }
}

/// The config file's opinion on whether to build, if any.
pub open spec fn config_build(raw: Option<RawConfig>) -> Option<bool> {
    match raw {
        Some(rc) => rc@.build,
        None => None,
    }
}

/// No token is two different flags at once: the ten recognized spellings
/// are pairwise distinct.
proof fn lemma_flag_classes_disjoint(t: Seq<char>)
    ensures
        !(is_help_flag(t) && is_module_flag(t)),
        !(is_help_flag(t) && is_binary_path_flag(t)),
        !(is_help_flag(t) && is_install_dir_flag(t)),
        !(is_help_flag(t) && is_no_build_flag(t)),
        !(is_module_flag(t) && is_binary_path_flag(t)),
        !(is_module_flag(t) && is_install_dir_flag(t)),
        !(is_module_flag(t) && is_no_build_flag(t)),
        !(is_binary_path_flag(t) && is_install_dir_flag(t)),
        !(is_binary_path_flag(t) && is_no_build_flag(t)),
        !(is_install_dir_flag(t) && is_no_build_flag(t)),
{
    reveal_strlit("-h");
    reveal_strlit("--help");
    reveal_strlit("-m");
    reveal_strlit("--module");
    reveal_strlit("-b");
    reveal_strlit("--binary-path");
    reveal_strlit("-i");
    reveal_strlit("--install-dir");
    reveal_strlit("-n");
    reveal_strlit("--no-build");
    assert("-h"@.len() == 2 && "-m"@.len() == 2 && "-b"@.len() == 2 && "-i"@.len() == 2
        && "-n"@.len() == 2);
    assert("--help"@.len() == 6 && "--module"@.len() == 8 && "--binary-path"@.len() == 13
        && "--install-dir"@.len() == 13 && "--no-build"@.len() == 10);
    assert("-h"@[1] == 'h' && "-m"@[1] == 'm' && "-b"@[1] == 'b' && "-i"@[1] == 'i' && "-n"@[1]
        == 'n');
    assert("--binary-path"@[2] == 'b' && "--install-dir"@[2] == 'i');
}

/// Applying the flags of `s.push(a)` is applying those of `s`, then `a`.
proof fn lemma_flags_snoc(o: OptionsV, s: Seq<ArgPair>, a: ArgPair)
    ensures
        spec_flags(o, s.push(a)) == spec_flag_step(spec_flags(o, s), a),
    decreases s.len(),
{
    if s.len() == 0 {
        assert(s.push(a)[0] == a);
        assert(s.push(a).skip(1) =~= Seq::<ArgPair>::empty());
        assert(spec_flags(o, s.push(a)) == spec_flags(
            spec_flag_step(o, a),
            Seq::<ArgPair>::empty(),
        ));
        assert(spec_flags(spec_flag_step(o, a), Seq::<ArgPair>::empty()) == spec_flag_step(o, a));
        assert(spec_flags(o, s) == o);
    } else {
        assert(s.push(a)[0] == s[0]);
        assert(s.push(a).skip(1) =~= s.skip(1).push(a));
        lemma_flags_snoc(spec_flag_step(o, s[0]), s.skip(1), a);
        assert(spec_flags(o, s.push(a)) == spec_flags(
            spec_flag_step(o, s[0]),
            s.skip(1).push(a),
        ));
        assert(spec_flags(o, s) == spec_flags(spec_flag_step(o, s[0]), s.skip(1)));
    }
}

/// What the flag layer does to each field: the last override of a field
/// wins, the build-suppression flag only ever turns building off, and a
/// field no flag mentions keeps the layer below.
proof fn lemma_flags_fields(o: OptionsV, args: Seq<ArgPair>)
    ensures
        spec_flags(o, args).command == (if cli_sets_help(args) {
            Command::Help
        } else {
            o.command
        }),
        spec_flags(o, args).module == (match cli_module(args) {
            Some(m) => m,
            None => o.module,
        }),
        spec_flags(o, args).binary_path == (match cli_binary_path(args) {
            Some(p) => p,
            None => o.binary_path,
        }),
        spec_flags(o, args).install_directory == (match cli_install_dir(args) {
            Some(d) => d,
            None => o.install_directory,
        }),
        spec_flags(o, args).build == (o.build && !cli_no_build(args)),
    decreases args.len(),
{
    if args.len() == 0 {
    } else {
        let s = args.drop_last();
        let a = args.last();
        assert(args =~= s.push(a));
        lemma_flags_fields(o, s);
        lemma_flags_snoc(o, s, a);
        lemma_flag_classes_disjoint(a@.token);
    }
}

/// The precedence law in one statement: each resolved field is the opinion
/// of the highest-precedence layer that has one — command line over config
/// file over built-in default.
pub proof fn lemma_resolution_precedence(raw: Option<RawConfig>, args: Seq<ArgPair>)
    ensures
        spec_resolve(raw, args).command == (if cli_sets_help(args) {
            Command::Help
        } else if args.len() > 1 {
            if args[1]@.token == "install"@ {
                Command::Install
            } else {
                Command::Help
            }
        } else {
            match config_command(raw) {
                Some(c) => c,
                None => Command::Help,
            }
        }),
        spec_resolve(raw, args).module == (match cli_module(args) {
            Some(m) => m,
            None => match config_module(raw) {
                Some(m) => m,
                None => "rust"@,
            },
        }),
        spec_resolve(raw, args).binary_path == (match cli_binary_path(args) {
            Some(p) => p,
            None => match config_binary_path(raw) {
                Some(p) => Some(p),
                None => None,
            },
        }),
        spec_resolve(raw, args).install_directory == (match cli_install_dir(args) {
            Some(d) => d,
            None => match config_install_dir(raw) {
                Some(d) => d,
                None => "/usr/local/bin"@,
            },
        }),
        spec_resolve(raw, args).build == ((match config_build(raw) {
            Some(b) => b,
            None => true,
        }) && !cli_no_build(args)),
{
    lemma_flags_fields(spec_positional(spec_overlay_opt(spec_default(), raw), args), args);
}

/// Precedence, top layer: a field the command line sets comes out of the
/// resolution with the command line's value, whatever the config file or
/// the defaults say.
pub proof fn lemma_cli_precedence(raw: Option<RawConfig>, args: Seq<ArgPair>)
    ensures
        cli_sets_help(args) ==> spec_resolve(raw, args).command == Command::Help,
        cli_module(args) matches Some(m) ==> spec_resolve(raw, args).module == m,
        cli_binary_path(args) matches Some(p) ==> spec_resolve(raw, args).binary_path == p,
        cli_install_dir(args) matches Some(d) ==> spec_resolve(raw, args).install_directory == d,
        cli_no_build(args) ==> spec_resolve(raw, args).build == false,
{
    lemma_resolution_precedence(raw, args);
}

/// Precedence, middle layer: a field the command line leaves alone but the
/// config file sets comes out with the config file's value, whatever the
/// default.
pub proof fn lemma_config_precedence(rc: RawConfig, args: Seq<ArgPair>)
    ensures
        rc@.command matches Some(c) ==> (args.len() <= 1 && !cli_sets_help(args) ==> spec_resolve(
            Some(rc),
            args,
        ).command == c),
        rc@.module matches Some(m) ==> (cli_module(args) is None ==> spec_resolve(
            Some(rc),
            args,
        ).module == m),
        rc@.binary_path matches Some(p) ==> (cli_binary_path(args) is None ==> spec_resolve(
            Some(rc),
            args,
        ).binary_path == Some(p)),
        rc@.install_directory matches Some(d) ==> (cli_install_dir(args) is None ==> spec_resolve(
            Some(rc),
            args,
        ).install_directory == d),
        rc@.build matches Some(b) ==> (!cli_no_build(args) ==> spec_resolve(Some(rc), args).build
            == b),
{
    lemma_resolution_precedence(Some(rc), args);
}

/// Precedence, bottom layer: a field no layer has an opinion on keeps its
/// built-in default.
pub proof fn lemma_default_precedence(raw: Option<RawConfig>, args: Seq<ArgPair>)
    ensures
        config_command(raw) is None && args.len() <= 1 && !cli_sets_help(args) ==> spec_resolve(
            raw,
            args,
        ).command == Command::Help,
        config_module(raw) is None && cli_module(args) is None ==> spec_resolve(raw, args).module
            == "rust"@,
        config_binary_path(raw) is None && cli_binary_path(args) is None ==> spec_resolve(
            raw,
            args,
        ).binary_path is None,
        config_install_dir(raw) is None && cli_install_dir(args) is None ==> spec_resolve(
            raw,
            args,
        ).install_directory == "/usr/local/bin"@,
        config_build(raw) is None && !cli_no_build(args) ==> spec_resolve(raw, args).build == true,
{
    lemma_resolution_precedence(raw, args);
}

/// One-way override: the build-suppression flag turns building off whatever
/// the config file or the default says, and no other flag within the same
/// resolution can turn it back on.
pub proof fn lemma_no_build_one_way(raw: Option<RawConfig>, args: Seq<ArgPair>)
    requires
        cli_no_build(args),
    ensures
        spec_resolve(raw, args).build == false,
{
    lemma_resolution_precedence(raw, args);
}

/// The concrete value a flag hands its field: a copy of the token after it,
/// or the empty string when there is none.
fn follow_or_empty(f: &Option<String>) -> (r: String)
    ensures
        r@ == follow_value(opt_view(*f)),
{
    match f {
        Some(s) => s.clone(),
        None => String::new(),
    }
}

/// A copy of the token after a flag, if any.
fn clone_follow(f: &Option<String>) -> (r: Option<String>)
    ensures
        opt_view(r) == opt_view(*f),
{
    match f {
        Some(s) => Some(s.clone()),
        None => None,
    }
}

} // verus!
