use talus_tally::path_model::SysPath;
use talus_tally::reaper::{reap_commands, Platform};
use talus_tally::resolver::BackendKind;
use talus_tally::shutdown::{
    exit_call, maximize_toggle, on_window_event, plan_exit, ExitCall, ExitMode, HostAction,
    HostEvent,
};
use talus_tally::startup::{StartAction, StartEvent, Startup};
use talus_tally::supervisor::ProcessSlot;
use talus_tally::{BACKEND_PORT, SETTLE_DELAY_MS};

fn path(absolute: bool, parts: &[&str]) -> SysPath {
    SysPath::new(absolute, parts.iter().map(|s| s.to_string()).collect())
}

fn names(p: &SysPath) -> Vec<&str> {
    p.parts.iter().map(|s| s.as_str()).collect()
}

#[test]
fn terminate_twice_kills_once() {
    let mut slot: ProcessSlot<u32> = ProcessSlot::new();
    assert_eq!(slot.store(41), None);
    assert!(slot.is_running());
    assert_eq!(slot.terminate(), Some(41));
    assert_eq!(slot.terminate(), None);
    assert!(!slot.is_running());
}

#[test]
fn terminate_without_start_is_noop() {
    let mut slot: ProcessSlot<u32> = ProcessSlot::new();
    assert!(!slot.is_running());
    assert_eq!(slot.terminate(), None);
    assert!(!slot.is_running());
}

#[test]
fn store_replaces_previous_handle() {
    let mut slot: ProcessSlot<u32> = ProcessSlot::new();
    slot.store(1);
    assert_eq!(slot.store(2), Some(1));
    assert_eq!(slot.terminate(), Some(2));
}

#[test]
fn close_request_is_suppressed_and_forwarded_once() {
    let acts = on_window_event(HostEvent::CloseRequested);
    assert_eq!(acts, vec![HostAction::PreventClose, HostAction::NotifyCloseRequested]);
    let notified = acts.iter().filter(|a| **a == HostAction::NotifyCloseRequested).count();
    assert_eq!(notified, 1);
    assert!(!acts.contains(&HostAction::Close));
    assert!(on_window_event(HostEvent::Other).is_empty());
}

#[test]
fn maximize_toggles() {
    assert_eq!(maximize_toggle(true), HostAction::Unmaximize);
    assert_eq!(maximize_toggle(false), HostAction::Maximize);
}

#[test]
fn forced_exit_empties_slot_first() {
    let mut slot: ProcessSlot<u32> = ProcessSlot::new();
    slot.store(7);
    let plan = plan_exit(&mut slot, ExitMode::Forced);
    assert_eq!(plan.victim, Some(7));
    assert_eq!(plan.exit, ExitCall::ProcessExit(0));
    assert!(!slot.is_running());
}

#[test]
fn graceful_exit_without_backend() {
    let mut slot: ProcessSlot<u32> = ProcessSlot::new();
    let plan = plan_exit(&mut slot, ExitMode::Graceful);
    assert_eq!(plan.victim, None);
    assert_eq!(plan.exit, ExitCall::HostExit(0));
    assert_eq!(exit_call(ExitMode::Forced), ExitCall::ProcessExit(0));
}

#[test]
fn reap_commands_unix() {
    let cmds = reap_commands(Platform::Linux);
    assert_eq!(cmds.len(), 2);
    assert_eq!(cmds[0].program, "pkill");
    assert_eq!(cmds[0].args, vec!["-f".to_string(), "python.*backend.app".to_string()]);
    assert_eq!(cmds[1].args, vec!["-f".to_string(), "talus-tally-backend".to_string()]);
    let mac = reap_commands(Platform::MacOs);
    assert_eq!(mac[1].program, "pkill");
}

#[test]
fn reap_commands_windows() {
    let cmds = reap_commands(Platform::Windows);
    assert_eq!(cmds.len(), 2);
    assert_eq!(cmds[0].program, "taskkill");
    assert_eq!(
        cmds[0].args,
        vec!["/F".to_string(), "/IM".to_string(), "python.exe".to_string()]
    );
    assert_eq!(cmds[1].args[2], "talus-tally-backend.exe");
}

fn drive_to_probe(s: &mut Startup, root: SysPath) {
    assert!(matches!(s.step(StartEvent::Begin), StartAction::Reap(c) if c.len() == 2));
    match s.step(StartEvent::ReapDone) {
        StartAction::Sleep(ms) => assert_eq!(ms, SETTLE_DELAY_MS),
        _ => panic!("expected the settle delay"),
    }
    assert!(matches!(s.step(StartEvent::Slept), StartAction::LocateRoot));
    match s.step(StartEvent::RootFound(root)) {
        StartAction::Probe { packaged, venv } => {
            assert_eq!(names(&packaged), vec!["proj", "talus-tally-backend"]);
            assert_eq!(names(&venv), vec!["proj", ".venv", "bin", "python3"]);
        }
        _ => panic!("expected a probe"),
    }
}

#[test]
fn packaged_binary_preferred_over_venv() {
    let mut s = Startup::new(Platform::Linux);
    drive_to_probe(&mut s, path(true, &["proj"]));
    match s.step(StartEvent::Probed { packaged_exists: true, venv_exists: true }) {
        StartAction::Spawn(l) => {
            assert_eq!(l.kind, BackendKind::Packaged);
            assert_eq!(names(&l.program), vec!["proj", "talus-tally-backend"]);
            assert_eq!(names(&l.cwd), vec!["proj"]);
        }
        _ => panic!("expected a spawn"),
    }
    assert!(matches!(s.step(StartEvent::SpawnSucceeded), StartAction::StoreHandle));
    assert!(s.is_finished());
}

#[test]
fn start_with_nothing_to_reap_proceeds_to_spawn() {
    let mut s = Startup::new(Platform::Linux);
    drive_to_probe(&mut s, path(true, &["proj"]));
    match s.step(StartEvent::Probed { packaged_exists: false, venv_exists: false }) {
        StartAction::Spawn(l) => {
            assert_eq!(l.kind, BackendKind::SystemPython);
            assert_eq!(names(&l.program), vec!["python3"]);
            assert_eq!(l.env_key, "TALUS_DAEMON");
        }
        _ => panic!("expected a spawn"),
    }
    match s.step(StartEvent::SpawnFailed) {
        StartAction::ReportFailure(root) => assert_eq!(names(&root), vec!["proj"]),
        _ => panic!("expected a failure report"),
    }
    assert!(s.is_finished());
}

#[test]
fn out_of_order_events_are_ignored() {
    let mut s = Startup::new(Platform::Windows);
    assert!(matches!(s.step(StartEvent::Slept), StartAction::Nothing));
    assert!(matches!(s.step(StartEvent::SpawnSucceeded), StartAction::Nothing));
    assert!(matches!(s.step(StartEvent::Begin), StartAction::Reap(_)));
    assert!(matches!(s.step(StartEvent::Slept), StartAction::Nothing));
    assert!(matches!(s.step(StartEvent::Begin), StartAction::Nothing));
    assert!(!s.is_finished());
}

#[test]
fn backend_port_is_fixed() {
    assert_eq!(BACKEND_PORT, 5000);
}
