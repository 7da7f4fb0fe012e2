use launcher_core::disk::{disk_space, DiskSpace};
use launcher_core::launch::{
    advance, assemble_args, begin, plan_from_words, plan_pre_launch, working_dir, LaunchAction, LaunchData,
    LaunchError, LaunchEvent, LaunchPhase, ShellEvent,
};
use launcher_core::locale::{language_of, locale_language};
use launcher_core::registry::ProcessRegistry;
use launcher_core::streams::{stop_reply, StreamError, StreamManager};
use launcher_core::tray::{click_restores_window, menu_command, visibility_step, MenuCommand, TrayAction};
use launcher_core::AppState;

fn s(x: &str) -> String {
    x.to_string()
}

fn strings(xs: &[&str]) -> Vec<String> {
    xs.iter().map(|x| x.to_string()).collect()
}

fn data(pre_launch: &str, wait: bool) -> LaunchData {
    LaunchData {
        game_id: s("game"),
        game_directory: s("/games/g"),
        game_executable: s("g.exe"),
        working_directory: s(""),
        game_parameters: strings(&["-g"]),
        user_parameters: strings(&["-u"]),
        egl_parameters: strings(&["-e"]),
        environment: vec![(s("K"), s("V"))],
        pre_launch_command: s(pre_launch),
        pre_launch_wait: wait,
    }
}

/// Runs a launch attempt against scripted outside results and returns the
/// final phase and every action asked for.
fn drive(d: &LaunchData, pre_code: Option<i32>, exists: bool, pid: u32) -> (LaunchPhase, Vec<String>) {
    let mut seen = Vec::new();
    let (mut phase, mut action) = begin(d);
    loop {
        seen.push(format!("{:?}", action).split(['(', ' ']).next().unwrap().to_string());
        let event = match action {
            LaunchAction::SpawnPreLaunch(_) => LaunchEvent::PreLaunchSpawned(Ok(())),
            LaunchAction::AwaitPreLaunch => LaunchEvent::PreLaunchOutput(ShellEvent::Terminated(pre_code)),
            LaunchAction::CheckExecutable => LaunchEvent::ExecutableChecked { path: s("/games/g/g.exe"), exists },
            LaunchAction::SpawnMain => LaunchEvent::MainSpawned(Ok(pid)),
            _ => return (phase, seen),
        };
        let next = advance(phase, event, d.pre_launch_wait);
        phase = next.0;
        action = next.1;
    }
}

#[test]
fn launch_tracks_exactly_one_entry_until_stopped() {
    let mut reg = ProcessRegistry::new();
    let (phase, _) = drive(&data("", true), None, true, 41);
    assert_eq!(phase, LaunchPhase::Running(41));
    let ev = reg.track(&s("game"), 41);
    assert_eq!(ev.state, AppState::Running);
    let list = reg.list();
    assert_eq!(list.iter().filter(|a| a.app_id == "game").count(), 1);
    assert_eq!(list[0].pid, 41);
    assert!(reg.stop_with(&s("game"), true));
    assert_eq!(reg.list().len(), 0);
}

#[test]
fn tracked_entry_survives_operations_on_other_ids() {
    let mut reg = ProcessRegistry::new();
    reg.track(&s("game"), 41);
    reg.track(&s("other"), 50);
    assert!(reg.stop_with(&s("other"), true));
    assert!(reg.on_exit(&s("game"), 99, true).is_none());
    assert!(!reg.stop_with(&s("game"), false));
    let list = reg.list();
    assert_eq!(list.iter().filter(|a| a.app_id == "game").count(), 1);
    assert_eq!(reg.lookup(&s("game")), Some(41));
}

#[test]
fn launch_entry_removed_when_process_exits() {
    let mut reg = ProcessRegistry::new();
    reg.track(&s("game"), 41);
    let ev = reg.on_exit(&s("game"), 41, true).unwrap();
    assert_eq!(ev.state, AppState::Stopped);
    assert_eq!(reg.len(), 0);
}

#[test]
fn relaunch_replaces_entry_and_stale_exit_is_ignored() {
    let mut reg = ProcessRegistry::new();
    reg.track(&s("game"), 1);
    reg.track(&s("game"), 2);
    assert_eq!(reg.len(), 1);
    assert!(reg.on_exit(&s("game"), 1, false).is_none());
    assert_eq!(reg.lookup(&s("game")), Some(2));
    let ev = reg.on_exit(&s("game"), 2, false).unwrap();
    assert_eq!(ev.state, AppState::Failed);
}

#[test]
fn stop_unknown_or_failed_termination_returns_false() {
    let mut reg = ProcessRegistry::new();
    assert!(!reg.stop_with(&s("nope"), true));
    reg.track(&s("game"), 9);
    assert!(!reg.stop_with(&s("game"), false));
    assert_eq!(reg.lookup(&s("game")), Some(9));
    assert!(reg.untrack(&s("nope")).is_none());
    let ev = reg.untrack(&s("game")).unwrap();
    assert_eq!((ev.pid, ev.state), (9, AppState::Stopped));
}

#[test]
fn pre_launch_exit_zero_in_wait_mode_spawns_main() {
    let (phase, seen) = drive(&data("setup.bat --quiet", true), Some(0), true, 77);
    assert_eq!(phase, LaunchPhase::Running(77));
    assert_eq!(seen, strings(&["CheckExecutable", "SpawnPreLaunch", "AwaitPreLaunch", "SpawnMain", "Track"]));
}

#[test]
fn pre_launch_exit_seven_in_wait_mode_aborts() {
    let (phase, seen) = drive(&data("setup.bat", true), Some(7), true, 77);
    assert_eq!(phase, LaunchPhase::PreLaunchFailed(LaunchError::PreLaunchExited(Some(7))));
    assert!(!seen.contains(&s("SpawnMain")));
    assert!(!seen.contains(&s("Track")));
}

#[test]
fn pre_launch_missing_code_or_error_event_fails() {
    let (phase, _) = drive(&data("setup.bat", true), None, true, 77);
    assert_eq!(phase, LaunchPhase::PreLaunchFailed(LaunchError::PreLaunchExited(None)));
    let (p, a) = advance(LaunchPhase::PreLaunchRunning, LaunchEvent::PreLaunchOutput(ShellEvent::Error(s("boom"))), true);
    assert_eq!(p, LaunchPhase::PreLaunchFailed(LaunchError::PreLaunchError(s("boom"))));
    assert!(matches!(a, LaunchAction::Abort));
    let (p, a) = advance(LaunchPhase::PreLaunchRunning, LaunchEvent::PreLaunchOutput(ShellEvent::Stdout(vec![1])), true);
    assert_eq!(p, LaunchPhase::PreLaunchRunning);
    assert!(matches!(a, LaunchAction::AwaitPreLaunch));
}

#[test]
fn pre_launch_fire_and_forget_proceeds() {
    let (phase, seen) = drive(&data("setup.bat", false), Some(7), true, 5);
    assert_eq!(phase, LaunchPhase::Running(5));
    assert!(!seen.contains(&s("AwaitPreLaunch")));
}

#[test]
fn pre_launch_spawn_refused_fails() {
    let (p, _) = advance(LaunchPhase::PreLaunchRunning, LaunchEvent::PreLaunchSpawned(Err(s("denied"))), true);
    assert_eq!(p, LaunchPhase::PreLaunchFailed(LaunchError::PreLaunchSpawn(s("denied"))));
}

#[test]
fn missing_executable_fails_before_spawn() {
    let (phase, seen) = drive(&data("", true), None, false, 5);
    assert_eq!(phase, LaunchPhase::LaunchFailed(LaunchError::ExecutableNotFound(s("/games/g/g.exe"))));
    assert_eq!(seen, strings(&["CheckExecutable", "Abort"]));
}

#[test]
fn missing_executable_fails_before_pre_launch_runs() {
    let (phase, seen) = drive(&data("setup.bat --quiet", true), Some(0), false, 5);
    assert_eq!(phase, LaunchPhase::LaunchFailed(LaunchError::ExecutableNotFound(s("/games/g/g.exe"))));
    assert_eq!(seen, strings(&["CheckExecutable", "Abort"]));
}

#[test]
fn pre_launch_channel_closed_in_wait_mode_fails() {
    let (p, a) = advance(LaunchPhase::PreLaunchRunning, LaunchEvent::PreLaunchClosed, true);
    assert_eq!(p, LaunchPhase::PreLaunchFailed(LaunchError::PreLaunchExited(None)));
    assert!(matches!(a, LaunchAction::Abort));
}

#[test]
fn main_spawn_refused_fails() {
    let (p, _) = advance(LaunchPhase::MainLaunching { checked: true }, LaunchEvent::MainSpawned(Err(s("no"))), true);
    assert_eq!(p, LaunchPhase::LaunchFailed(LaunchError::Spawn(s("no"))));
}

#[test]
fn events_out_of_phase_are_ignored() {
    let (p, a) = advance(LaunchPhase::Running(3), LaunchEvent::MainSpawned(Ok(4)), true);
    assert_eq!(p, LaunchPhase::Running(3));
    assert!(matches!(a, LaunchAction::Ignore));
    let (p, a) = advance(LaunchPhase::MainLaunching { checked: false }, LaunchEvent::MainSpawned(Ok(4)), true);
    assert_eq!(p, LaunchPhase::MainLaunching { checked: false });
    assert!(matches!(a, LaunchAction::Ignore));
}

#[test]
fn malformed_pre_launch_command_is_rejected() {
    let (phase, a) = begin(&data("run \"unclosed", true));
    assert_eq!(phase, LaunchPhase::PreLaunchFailed(LaunchError::InvalidCommand));
    assert!(matches!(a, LaunchAction::Abort));
}

#[test]
fn pre_launch_command_is_split_with_quotes() {
    let plan = plan_pre_launch(&s("tool.exe \"a b\" 'c d' e")).unwrap().unwrap();
    assert_eq!(plan.program, "tool.exe");
    assert_eq!(plan.args, strings(&["a b", "c d", "e"]));
    assert!(plan_pre_launch(&s("   ")).unwrap().is_none());
    assert_eq!(plan_pre_launch(&s("x\\")).unwrap_err(), LaunchError::InvalidCommand);
}

#[test]
fn plan_from_words_cases() {
    assert_eq!(plan_from_words(None).unwrap_err(), LaunchError::InvalidCommand);
    assert!(plan_from_words(Some(vec![])).unwrap().is_none());
    let p = plan_from_words(Some(strings(&["p"]))).unwrap().unwrap();
    assert_eq!(p.program, "p");
    assert!(p.args.is_empty());
}

#[test]
fn argument_order_is_game_user_engine() {
    let r = assemble_args(&strings(&["g1", "g2"]), &strings(&["u1"]), &strings(&["e1", "e2"]));
    assert_eq!(r, strings(&["g1", "g2", "u1", "e1", "e2"]));
    let r = assemble_args(&strings(&[]), &strings(&["u1"]), &strings(&[]));
    assert_eq!(r, strings(&["u1"]));
}

#[test]
fn working_directory_fallback() {
    assert_eq!(working_dir(&s("C:/w"), true), Some(s("C:/w")));
    assert_eq!(working_dir(&s("C:/w"), false), None);
    assert_eq!(working_dir(&s(""), true), None);
}

#[test]
fn concurrent_launches_of_distinct_ids_both_tracked() {
    for order in [["a", "b"], ["b", "a"]] {
        let mut reg = ProcessRegistry::new();
        for id in order {
            let pid = if id == "a" { 10 } else { 20 };
            reg.track(&s(id), pid);
        }
        assert_eq!(reg.lookup(&s("a")), Some(10));
        assert_eq!(reg.lookup(&s("b")), Some(20));
        assert_eq!(reg.len(), 2);
    }
}

#[test]
fn second_stream_start_with_same_id_collides() {
    let mut m = StreamManager::new();
    assert_eq!(m.start(&s("dl"), 100), Ok(()));
    assert_eq!(m.start(&s("dl"), 101), Err(StreamError::Collision));
    assert_eq!(m.lookup(&s("dl")), Some(100));
    assert!(m.is_active(&s("dl")));
    assert_eq!(m.len(), 1);
}

#[test]
fn force_kill_all_stops_every_stream() {
    let mut m = StreamManager::new();
    m.start(&s("a"), 1).unwrap();
    m.start(&s("b"), 2).unwrap();
    m.start(&s("c"), 3).unwrap();
    let plan = m.stop(&s("a"), true);
    assert!(plan.stopped);
    assert_eq!(plan.kill, vec![1, 2, 3]);
    assert_eq!(m.len(), 0);
}

#[test]
fn force_kill_all_with_unknown_id_still_succeeds() {
    let mut m = StreamManager::new();
    m.start(&s("a"), 1).unwrap();
    let plan = m.stop(&s("zzz"), true);
    assert!(plan.stopped);
    assert_eq!(plan.kill, vec![1]);
    assert_eq!(m.len(), 0);
}

#[test]
fn stop_single_stream() {
    let mut m = StreamManager::new();
    m.start(&s("a"), 1).unwrap();
    m.start(&s("b"), 2).unwrap();
    let plan = m.stop(&s("b"), false);
    assert!(plan.stopped);
    assert_eq!(plan.kill, vec![2]);
    assert!(m.is_active(&s("a")));
    let plan = m.stop(&s("b"), false);
    assert!(!plan.stopped);
    assert!(plan.kill.is_empty());
    assert_eq!(m.len(), 1);
}

#[test]
fn stream_exit_and_shutdown() {
    let mut m = StreamManager::new();
    m.start(&s("a"), 1).unwrap();
    m.start(&s("b"), 2).unwrap();
    assert!(!m.on_exit(&s("a"), 9));
    assert!(m.on_exit(&s("a"), 1));
    assert_eq!(m.start(&s("a"), 3), Ok(()));
    assert_eq!(m.kill_all(), vec![2, 3]);
    assert_eq!(m.len(), 0);
}

#[test]
fn locale_language_part() {
    assert_eq!(language_of("en-US"), "en");
    assert_eq!(language_of("pt_BR"), "pt");
    assert_eq!(language_of("de"), "de");
    assert_eq!(language_of(""), "");
    assert_eq!(locale_language(Some(s("fr_CA.UTF-8"))), "fr");
    assert_eq!(locale_language(None), "");
}

#[test]
fn disk_space_combines_results() {
    assert_eq!(disk_space(Ok(100), Ok(40)), Ok(DiskSpace { total: 100, available: 40 }));
    assert_eq!(disk_space(Err(s("t")), Err(s("a"))), Err(s("t")));
    assert_eq!(disk_space(Ok(1), Err(s("a"))), Err(s("a")));
}

#[test]
fn tray_visibility_and_menu() {
    assert_eq!(visibility_step(false, true), (TrayAction::Build, true));
    assert_eq!(visibility_step(true, true), (TrayAction::Show, true));
    assert_eq!(visibility_step(true, false), (TrayAction::Hide, false));
    assert_eq!(visibility_step(false, false), (TrayAction::Nothing, false));
    assert_eq!(menu_command("open"), MenuCommand::Open);
    assert_eq!(menu_command("quit"), MenuCommand::Quit);
    assert_eq!(menu_command("other"), MenuCommand::Nothing);
    assert!(click_restores_window(true, true));
    assert!(!click_restores_window(true, false));
}

#[test]
fn stop_reply_needs_found_and_all_terminated() {
    let mut m = StreamManager::new();
    m.start(&s("a"), 1).unwrap();
    m.start(&s("b"), 2).unwrap();
    let plan = m.stop(&s("a"), true);
    assert!(stop_reply(&plan, &vec![true, true]));
    assert!(!stop_reply(&plan, &vec![true, false]));
    let plan = m.stop(&s("a"), false);
    assert!(!stop_reply(&plan, &vec![]));
}
