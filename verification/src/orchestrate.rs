//! Sequencing of the run: precondition check, command dispatch, and the
//! build and install stages.
//!
//! The orchestrator is a state machine over the resolved configuration.
//! Each phase names the one outside action that is pending — checking that
//! the install directory exists, printing the help text, running the build
//! stage, running the install stage — and whoever performs actions feeds the
//! outcome back as an event. The machine decides everything; it performs
//! nothing itself. A run always starts with the directory check, stops with
//! exit status 1 when the directory is missing, skips both stages for the
//! help command, and for the install command runs the build stage (unless
//! building is switched off) strictly before the install stage, stopping at
//! the first failure.

use vstd::prelude::*;

use crate::options::{Command, Options};

verus! {

/// The pending outside action, or the finished run's exit status.
#[derive(Clone, Copy, Debug, PartialEq, Eq, Structural)]
pub enum Phase {
    /// Check that the install directory exists.
    ValidateDir,
    /// Print the help text.
    ShowHelp,
    /// Run the build stage.
    RunBuild,
    /// Run the install stage.
    RunInstall,
    /// The run is over; the process exits with this status.
    Halted { code: i32 },
}

/// The outcome of the pending action, reported back to the machine.
#[derive(Clone, Copy, Debug, PartialEq, Eq, Structural)]
pub enum Event {
    /// The directory check came back: the install directory exists, or not.
    DirChecked { exists: bool },
    /// The help text was printed.
    HelpShown,
    /// The pending stage finished, successfully or not.
    StageFinished { ok: bool },
}

/// One transition of the machine: what the phase becomes when the given
/// event arrives. An event that does not answer the pending phase moves
/// nothing, and a halted run stays halted.
pub open spec fn spec_step(opts: Options, ph: Phase, ev: Event) -> Phase {
    match (ph, ev) {
        (Phase::ValidateDir, Event::DirChecked { exists }) => if !exists {
            Phase::Halted { code: 1 }
        } else {
            match opts.command {
                Command::Help => Phase::ShowHelp,
                Command::Install => if opts.build {
                    Phase::RunBuild
                } else {
                    Phase::RunInstall
                },
            }
        },
        (Phase::ShowHelp, Event::HelpShown) => Phase::Halted { code: 0 },
        (Phase::RunBuild, Event::StageFinished { ok }) => if ok {
            Phase::RunInstall
        } else {
            Phase::Halted { code: 1 }
        },
        (Phase::RunInstall, Event::StageFinished { ok }) => Phase::Halted {
            code: if ok {
                0
            } else {
                1
            },
        },
        _ => ph,
    }
}

/// The phase a run is in after a sequence of events, starting from the
/// directory check.
pub open spec fn spec_run(opts: Options, evs: Seq<Event>) -> Phase
    decreases evs.len(),
{
    if evs.len() == 0 {
        Phase::ValidateDir
    } else {
        spec_step(opts, spec_run(opts, evs.drop_last()), evs.last())
    }
}

/// The orchestrator: the resolved configuration it runs under, and the
/// phase it is in.
pub struct Orchestrator {
    pub opts: Options,
    pub phase: Phase,
}

impl Orchestrator {
    /// A fresh run: the first pending action is the directory check.
    pub fn new(opts: Options) -> (r: Orchestrator)
        ensures
            r.phase == Phase::ValidateDir,
            r.opts == opts,
    {
        Orchestrator { opts, phase: Phase::ValidateDir }
    }

    /// Feeds one event to the machine. The configuration never changes;
    /// the phase moves exactly as `spec_step` says.
    pub fn step(&mut self, ev: Event)
        ensures
            final(self).phase == spec_step(old(self).opts, old(self).phase, ev),
            final(self).opts == old(self).opts,
    {
        let next = match (self.phase, ev) {
            (Phase::ValidateDir, Event::DirChecked { exists }) => {
                if !exists {
                    Phase::Halted { code: 1 }
                } else {
                    match self.opts.command {
                        Command::Help => Phase::ShowHelp,
                        Command::Install => {
                            if self.opts.build {
                                Phase::RunBuild
                            } else {
                                Phase::RunInstall
                            }
                        },
                    }
                }
            },
            (Phase::ShowHelp, Event::HelpShown) => Phase::Halted { code: 0 },
            (Phase::RunBuild, Event::StageFinished { ok }) => {
                if ok {
                    Phase::RunInstall
                } else {
                    Phase::Halted { code: 1 }
                }
            },
            (Phase::RunInstall, Event::StageFinished { ok }) => {
                Phase::Halted { code: if ok { 0 } else { 1 } }
            },
            _ => self.phase,
        };
        self.phase = next;
    }
}

/// A halted run is over for good: once a run is halted after some of its
/// events, it is halted with the same status after all of them.
pub proof fn lemma_halted_persists(opts: Options, evs: Seq<Event>, k: int, l: int, code: i32)
    requires
        0 <= k <= l <= evs.len(),
        spec_run(opts, evs.take(k)) == (Phase::Halted { code }),
    ensures
        spec_run(opts, evs.take(l)) == (Phase::Halted { code }),
    decreases l - k,
{
    if l > k {
        lemma_halted_persists(opts, evs, k, l - 1, code);
        assert(evs.take(l).drop_last() =~= evs.take(l - 1));
        assert(evs.take(l).last() == evs[l - 1]);
    }
}

/// Help short-circuit: under the help command, no run, whatever its events,
/// is ever in the build or the install phase — so neither stage is ever
/// pending, let alone performed. As every moment of a run is `spec_run` of
/// a prefix of its events, this covers every moment.
pub proof fn lemma_help_short_circuit(opts: Options, evs: Seq<Event>)
    requires
        opts.command == Command::Help,
    ensures
        spec_run(opts, evs) != Phase::RunBuild,
        spec_run(opts, evs) != Phase::RunInstall,
    decreases evs.len(),
{
    if evs.len() > 0 {
        lemma_help_short_circuit(opts, evs.drop_last());
    }
}

/// Precondition gate: when the directory check comes back negative, the run
/// is halted with exit status 1 from that first event on, through every
/// later event — so neither stage is ever reached, whatever the command.
pub proof fn lemma_missing_dir_gate(opts: Options, evs: Seq<Event>)
    requires
        evs.len() >= 1,
        evs[0] == (Event::DirChecked { exists: false }),
    ensures
        spec_run(opts, evs) == (Phase::Halted { code: 1 }),
    decreases evs.len(),
{
    if evs.len() == 1 {
        assert(evs.drop_last() =~= Seq::<Event>::empty());
        assert(evs.last() == evs[0]);
    } else {
        lemma_missing_dir_gate(opts, evs.drop_last());
    }
}

/// Stage ordering, first half: when building is requested, a run reaches
/// the install phase only by leaving the build phase on a successful build
/// — the build stage's completion is observed before the install stage
/// starts.
pub proof fn lemma_build_before_install(opts: Options, evs: Seq<Event>)
    requires
        opts.build,
        spec_run(opts, evs) == Phase::RunInstall,
    ensures
        exists|i: int|
            0 <= i < evs.len() && spec_run(opts, evs.take(i)) == Phase::RunBuild && evs[i]
                == (Event::StageFinished { ok: true }) && spec_run(opts, evs.take(i + 1))
                == Phase::RunInstall,
    decreases evs.len(),
{
    let prev = spec_run(opts, evs.drop_last());
    if prev == Phase::RunBuild {
        let i = evs.len() - 1;
        assert(evs.take(i) =~= evs.drop_last());
        assert(evs.take(i + 1) =~= evs);
        assert(evs.last() == evs[i]);
        assert(spec_run(opts, evs.take(i)) == Phase::RunBuild && evs[i] == (Event::StageFinished {
            ok: true,
        }) && spec_run(opts, evs.take(i + 1)) == Phase::RunInstall);
    } else {
        assert(prev == Phase::RunInstall);
        lemma_build_before_install(opts, evs.drop_last());
        let i = choose|i: int|
            0 <= i < evs.drop_last().len() && spec_run(opts, evs.drop_last().take(i))
                == Phase::RunBuild && evs.drop_last()[i] == (Event::StageFinished { ok: true })
                && spec_run(opts, evs.drop_last().take(i + 1)) == Phase::RunInstall;
        assert(evs.drop_last().take(i) =~= evs.take(i));
        assert(evs.drop_last().take(i + 1) =~= evs.take(i + 1));
        assert(spec_run(opts, evs.take(i)) == Phase::RunBuild && evs[i] == (Event::StageFinished {
            ok: true,
        }) && spec_run(opts, evs.take(i + 1)) == Phase::RunInstall);
    }
}

/// Stage ordering, second half: when the build stage fails, the run is
/// halted with exit status 1 from that event on — the install stage is
/// never reached afterwards.
pub proof fn lemma_build_failure_blocks_install(opts: Options, evs: Seq<Event>, i: int)
    requires
        0 <= i < evs.len(),
        spec_run(opts, evs.take(i)) == Phase::RunBuild,
        evs[i] == (Event::StageFinished { ok: false }),
    ensures
        forall|j: int|
            i < j <= evs.len() ==> spec_run(opts, evs.take(j)) == (Phase::Halted { code: 1 }),
{
    assert(evs.take(i + 1).drop_last() =~= evs.take(i));
    assert(evs.take(i + 1).last() == evs[i]);
    assert(spec_run(opts, evs.take(i + 1)) == (Phase::Halted { code: 1 }));
    assert forall|j: int|
        i < j <= evs.len() implies spec_run(opts, evs.take(j)) == (Phase::Halted { code: 1 }) by {
        lemma_halted_persists(opts, evs, i + 1, j, 1);
    }
}

} // verus!
