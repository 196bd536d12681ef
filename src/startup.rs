use vstd::prelude::*;

use crate::launch::{launch_matches, launch_spec, LaunchSpec};
use crate::path_model::SysPath;
use crate::reaper::{reap_commands, reap_plan_matches, KillCommand, Platform};
use crate::resolver::{
    packaged_backend_path, packaged_path_spec, select_backend, select_spec, venv_python_path,
    venv_python_spec,
};
use crate::SETTLE_DELAY_MS;

verus! {

/// Where a backend start stands. The root found for this attempt is carried
/// from the moment it is known until the spawn is decided.
pub enum StartPhase {
    Idle,
    Reaping,
    Settling,
    Locating,
    Probing(SysPath),
    Spawning(SysPath),
    Running,
    Failed,
}

/// What the caller reports back after carrying out an action.
pub enum StartEvent {
    /// Start the attempt.
    Begin,
    /// The kill commands have run (whatever they found).
    ReapDone,
    /// The settle delay has elapsed.
    Slept,
    /// The project root has been determined.
    RootFound(SysPath),
    /// Which of the candidate files exist under the root.
    Probed { packaged_exists: bool, venv_exists: bool },
    /// The spawn returned a process handle.
    SpawnSucceeded,
    /// The spawn failed.
    SpawnFailed,
}

/// What the caller must do next.
pub enum StartAction {
    /// Nothing: the event does not apply in this phase.
    Nothing,
    /// Run each of these kill commands, ignoring their outcome.
    Reap(Vec<KillCommand>),
    /// Sleep this many milliseconds.
    Sleep(u64),
    /// Determine the project root.
    LocateRoot,
    /// Check which of these two files exist.
    Probe { packaged: SysPath, venv: SysPath },
    /// Spawn this backend.
    Spawn(LaunchSpec),
    /// Store the spawned handle in the process slot.
    StoreHandle,
    /// Report that the spawn from this root failed; the application goes on.
    ReportFailure(SysPath),
}

/// The phase after `ev` in phase `p`; an event that does not apply changes nothing.
pub open spec fn next_phase(p: StartPhase, ev: StartEvent) -> StartPhase {
    match p {
        StartPhase::Idle => if ev is Begin { StartPhase::Reaping } else { p },
        StartPhase::Reaping => if ev is ReapDone { StartPhase::Settling } else { p },
        StartPhase::Settling => if ev is Slept { StartPhase::Locating } else { p },
        StartPhase::Locating => match ev {
            StartEvent::RootFound(root) => StartPhase::Probing(root),
            _ => p,
        },
        StartPhase::Probing(root) => if ev is Probed { StartPhase::Spawning(root) } else { p },
        StartPhase::Spawning(_) => match ev {
            StartEvent::SpawnSucceeded => StartPhase::Running,
            StartEvent::SpawnFailed => StartPhase::Failed,
            _ => p,
        },
        _ => p,
    }
}

/// Whether `ev` moves phase `p` on.
pub open spec fn applies(p: StartPhase, ev: StartEvent) -> bool {
    match p {
        StartPhase::Idle => ev is Begin,
        StartPhase::Reaping => ev is ReapDone,
        StartPhase::Settling => ev is Slept,
        StartPhase::Locating => ev is RootFound,
        StartPhase::Probing(_) => ev is Probed,
        StartPhase::Spawning(_) => ev is SpawnSucceeded || ev is SpawnFailed,
        _ => false,
    }
}

/// The action that goes with the step from `p` on `ev`, for a machine on `platform`.
pub open spec fn action_matches(
    r: StartAction,
    p: StartPhase,
    ev: StartEvent,
    platform: Platform,
) -> bool {
    if !applies(p, ev) {
        r is Nothing
    } else {
        match p {
            StartPhase::Idle => r matches StartAction::Reap(c) && reap_plan_matches(c@, platform),
            StartPhase::Reaping => r == StartAction::Sleep(SETTLE_DELAY_MS),
            StartPhase::Settling => r is LocateRoot,
            StartPhase::Locating => match ev {
                StartEvent::RootFound(root) => r matches StartAction::Probe { packaged, venv }
                    && packaged@ == packaged_path_spec(root@) && venv@ == venv_python_spec(
                    root@,
                ),
                _ => false,
            },
            StartPhase::Probing(root) => match ev {
                StartEvent::Probed { packaged_exists, venv_exists } => r matches StartAction::Spawn(
                    l,
                ) && launch_matches(l, root@, select_spec(packaged_exists, venv_exists)),
                _ => false,
            },
            StartPhase::Spawning(root) => if ev is SpawnSucceeded {
                r is StoreHandle
            } else {
                r matches StartAction::ReportFailure(at) && at@ == root@
            },
            _ => false,
        }
    }
}

/// How far along a start is.
pub open spec fn rank(p: StartPhase) -> int {
    match p {
        StartPhase::Idle => 0,
        StartPhase::Reaping => 1,
        StartPhase::Settling => 2,
        StartPhase::Locating => 3,
        StartPhase::Probing(_) => 4,
        StartPhase::Spawning(_) => 5,
        StartPhase::Running => 6,
        StartPhase::Failed => 6,
    }
}

/// The phase reached from `p` after the events `evs`, in order.
pub open spec fn run(p: StartPhase, evs: Seq<StartEvent>) -> StartPhase
    decreases evs.len(),
{
    if evs.len() == 0 {
        p
    } else {
        next_phase(run(p, evs.drop_last()), evs.last())
    }
}

/// One backend start, driven by the caller: each event reported yields the
/// next action to carry out.
pub struct Startup {
    platform: Platform,
    phase: StartPhase,
}

impl Startup {
    /// The current phase.
    pub closed spec fn phase(&self) -> StartPhase {
        self.phase
    }

    /// The platform the kill commands are made for.
    pub closed spec fn platform(&self) -> Platform {
        self.platform
    }

    /// A start that has not begun.
    pub fn new(platform: Platform) -> (r: Startup)
        ensures
            r.phase() is Idle,
            r.platform() == platform,
    {
        Startup { platform, phase: StartPhase::Idle }
    }

    /// Whether the start has ended, with a running backend or a failure.
    pub fn is_finished(&self) -> (r: bool)
        ensures
            r == (self.phase() is Running || self.phase() is Failed),
    {
        match self.phase {
            StartPhase::Running | StartPhase::Failed => true,
            _ => false,
        }
    }

    /// Takes in the outcome of the last action and says what to do next: reap
    /// stale backends, wait for the port to settle, locate the root, probe the
    /// candidates, spawn the chosen one, then store or report.
    pub fn step(&mut self, ev: StartEvent) -> (r: StartAction)
        ensures
            final(self).platform() == old(self).platform(),
            final(self).phase() == next_phase(old(self).phase(), ev),
            action_matches(r, old(self).phase(), ev, old(self).platform()),
    {
        let mut phase = StartPhase::Idle;
        std::mem::swap(&mut phase, &mut self.phase);
        match phase {
            StartPhase::Idle => {
                if let StartEvent::Begin = ev {
                    self.phase = StartPhase::Reaping;
                    StartAction::Reap(reap_commands(self.platform))
                } else {
                    self.phase = StartPhase::Idle;
                    StartAction::Nothing
                }
            },
            StartPhase::Reaping => {
                if let StartEvent::ReapDone = ev {
                    self.phase = StartPhase::Settling;
                    StartAction::Sleep(SETTLE_DELAY_MS)
                } else {
                    self.phase = StartPhase::Reaping;
                    StartAction::Nothing
                }
            },
            StartPhase::Settling => {
                if let StartEvent::Slept = ev {
                    self.phase = StartPhase::Locating;
                    StartAction::LocateRoot
                } else {
                    self.phase = StartPhase::Settling;
                    StartAction::Nothing
                }
            },
            StartPhase::Locating => {
                if let StartEvent::RootFound(root) = ev {
                    let packaged = packaged_backend_path(&root);
                    let venv = venv_python_path(&root);
                    self.phase = StartPhase::Probing(root);
                    StartAction::Probe { packaged, venv }
                } else {
                    self.phase = StartPhase::Locating;
                    StartAction::Nothing
                }
            },
            StartPhase::Probing(root) => {
                if let StartEvent::Probed { packaged_exists, venv_exists } = ev {
                    let kind = select_backend(packaged_exists, venv_exists);
                    let l = launch_spec(&root, kind);
                    self.phase = StartPhase::Spawning(root);
                    StartAction::Spawn(l)
                } else {
                    self.phase = StartPhase::Probing(root);
                    StartAction::Nothing
                }
            },
            StartPhase::Spawning(root) => {
                match ev {
                    StartEvent::SpawnSucceeded => {
                        self.phase = StartPhase::Running;
                        StartAction::StoreHandle
                    },
                    StartEvent::SpawnFailed => {
                        self.phase = StartPhase::Failed;
                        StartAction::ReportFailure(root)
                    },
                    _ => {
                        self.phase = StartPhase::Spawning(root);
                        StartAction::Nothing
                    },
                }
            },
            StartPhase::Running => {
                self.phase = StartPhase::Running;
                StartAction::Nothing
            },
            StartPhase::Failed => {
                self.phase = StartPhase::Failed;
                StartAction::Nothing
            },
        }
    }
}

/// A step moves a start on by at most one phase and never back.
pub proof fn lemma_step_rank(p: StartPhase, ev: StartEvent)
    ensures
        rank(p) <= rank(next_phase(p, ev)) <= rank(p) + 1,
        rank(p) < 2 <= rank(next_phase(p, ev)) ==> p is Reaping && ev is ReapDone,
        rank(p) < 3 <= rank(next_phase(p, ev)) ==> p is Settling && ev is Slept,
{
}

/// A start locates the root, and so probes and spawns, only after the stale
/// backends were reaped and, after that, the settle delay elapsed: from `Idle`,
/// any run of events that gets as far as `Locating` holds a `ReapDone` followed
/// later by a `Slept`.
pub proof fn lemma_spawn_after_reap_and_settle(evs: Seq<StartEvent>)
    ensures
        rank(run(StartPhase::Idle, evs)) >= 2 ==> exists|i: int|
            0 <= i < evs.len() && #[trigger] evs[i] is ReapDone,
        rank(run(StartPhase::Idle, evs)) >= 3 ==> exists|i: int, j: int|
            0 <= i < j < evs.len() && #[trigger] evs[i] is ReapDone && #[trigger] evs[j] is Slept,
    decreases evs.len(),
{
    if evs.len() > 0 {
        let prev = evs.drop_last();
        let last = (evs.len() - 1) as int;
        lemma_spawn_after_reap_and_settle(prev);
        lemma_step_rank(run(StartPhase::Idle, prev), evs.last());
        if rank(run(StartPhase::Idle, prev)) >= 2 {
            let i = choose|i: int| 0 <= i < prev.len() && #[trigger] prev[i] is ReapDone;
            assert(evs[i] is ReapDone);
        } else if rank(run(StartPhase::Idle, evs)) >= 2 {
            assert(evs[last] is ReapDone);
        }
        if rank(run(StartPhase::Idle, prev)) >= 3 {
            let (i, j) = choose|i: int, j: int|
                0 <= i < j < prev.len() && #[trigger] prev[i] is ReapDone
                    && #[trigger] prev[j] is Slept;
            assert(evs[i] is ReapDone && evs[j] is Slept);
        } else if rank(run(StartPhase::Idle, evs)) >= 3 {
            let i = choose|i: int| 0 <= i < prev.len() && #[trigger] prev[i] is ReapDone;
            assert(evs[i] is ReapDone && evs[last] is Slept);
        }
    }
}

} // verus!
