use freighter::args::parse_args;
use freighter::options::{Command, Options, RawConfig};
use freighter::orchestrate::{Event, Orchestrator, Phase};
use freighter::resolve::generate_options;

fn toks(xs: &[&str]) -> Vec<String> {
    xs.iter().map(|s| s.to_string()).collect()
}

fn resolve(raw: Option<RawConfig>, xs: &[&str]) -> Options {
    let pairs = parse_args(&toks(xs));
    generate_options(&pairs, &raw)
}

#[test]
fn no_config_and_no_args_show_help_and_exit_zero() {
    // No config file, a bare invocation: the command resolves to Help, the
    // run prints the help text and exits 0, and no stage is ever pending.
    let opts = resolve(None, &["prog"]);
    assert_eq!(opts.command, Command::Help);
    let mut o = Orchestrator::new(opts);
    assert_eq!(o.phase, Phase::ValidateDir);
    o.step(Event::DirChecked { exists: true });
    assert_eq!(o.phase, Phase::ShowHelp);
    o.step(Event::HelpShown);
    assert_eq!(o.phase, Phase::Halted { code: 0 });
}

#[test]
fn config_directory_with_no_build_installs_without_building() {
    // The config file names an existing install directory; the command line
    // says install and suppresses the build: the run goes straight to the
    // install stage with that directory, never to the build stage.
    let mut rc = RawConfig::empty();
    rc.install_directory = Some("/tmp/out".to_string());
    let opts = resolve(Some(rc), &["prog", "install", "-n"]);
    assert!(!opts.build);
    assert_eq!(opts.install_directory, "/tmp/out");
    let mut o = Orchestrator::new(opts);
    o.step(Event::DirChecked { exists: true });
    assert_eq!(o.phase, Phase::RunInstall);
    assert_eq!(o.opts.install_directory, "/tmp/out");
    o.step(Event::StageFinished { ok: true });
    assert_eq!(o.phase, Phase::Halted { code: 0 });
}

#[test]
fn a_missing_install_directory_halts_with_status_one() {
    let opts = resolve(None, &["prog", "install"]);
    let mut o = Orchestrator::new(opts);
    o.step(Event::DirChecked { exists: false });
    assert_eq!(o.phase, Phase::Halted { code: 1 });
    // Nothing moves a halted run, whatever is fed to it.
    o.step(Event::StageFinished { ok: true });
    assert_eq!(o.phase, Phase::Halted { code: 1 });
    o.step(Event::HelpShown);
    assert_eq!(o.phase, Phase::Halted { code: 1 });
}

#[test]
fn the_help_command_checks_the_directory_first() {
    // The precondition check is unconditional: it gates the help command
    // too.
    let opts = resolve(None, &["prog"]);
    assert_eq!(opts.command, Command::Help);
    let mut o = Orchestrator::new(opts);
    o.step(Event::DirChecked { exists: false });
    assert_eq!(o.phase, Phase::Halted { code: 1 });
}

#[test]
fn install_builds_before_installing() {
    let opts = resolve(None, &["prog", "install"]);
    assert!(opts.build);
    let mut o = Orchestrator::new(opts);
    o.step(Event::DirChecked { exists: true });
    assert_eq!(o.phase, Phase::RunBuild);
    o.step(Event::StageFinished { ok: true });
    assert_eq!(o.phase, Phase::RunInstall);
    o.step(Event::StageFinished { ok: true });
    assert_eq!(o.phase, Phase::Halted { code: 0 });
}

#[test]
fn a_failed_build_halts_before_the_install_stage() {
    let opts = resolve(None, &["prog", "install"]);
    let mut o = Orchestrator::new(opts);
    o.step(Event::DirChecked { exists: true });
    assert_eq!(o.phase, Phase::RunBuild);
    o.step(Event::StageFinished { ok: false });
    assert_eq!(o.phase, Phase::Halted { code: 1 });
    o.step(Event::StageFinished { ok: true });
    assert_eq!(o.phase, Phase::Halted { code: 1 });
}

#[test]
fn a_failed_install_halts_with_status_one() {
    let opts = resolve(None, &["prog", "install", "-n"]);
    let mut o = Orchestrator::new(opts);
    o.step(Event::DirChecked { exists: true });
    assert_eq!(o.phase, Phase::RunInstall);
    o.step(Event::StageFinished { ok: false });
    assert_eq!(o.phase, Phase::Halted { code: 1 });
}

#[test]
fn an_event_that_answers_nothing_moves_nothing() {
    let opts = resolve(None, &["prog", "install"]);
    let mut o = Orchestrator::new(opts);
    assert_eq!(o.phase, Phase::ValidateDir);
    o.step(Event::HelpShown);
    assert_eq!(o.phase, Phase::ValidateDir);
    o.step(Event::StageFinished { ok: true });
    assert_eq!(o.phase, Phase::ValidateDir);
}

#[test]
fn the_configuration_never_changes_during_a_run() {
    let opts = resolve(None, &["prog", "install", "-m", "zig"]);
    let mut o = Orchestrator::new(opts.clone());
    o.step(Event::DirChecked { exists: true });
    o.step(Event::StageFinished { ok: true });
    assert_eq!(o.opts, opts);
}
