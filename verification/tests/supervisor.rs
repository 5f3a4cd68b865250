use ragbase_supervisor::commands::{
    check_process_status, get_app_data_dir, get_app_info, open_file, restart,
    restart_background_tasks, restart_next_server, select_directories, start_background_tasks,
    start_next_server, ProcessStatus,
};
use ragbase_supervisor::kinds::{ProcessKind, RunMode};
use ragbase_supervisor::port::{
    decimal, navigation_script, probe_address, server_url, PortEvent, PortStep, POLL_MILLIS,
};
use ragbase_supervisor::process::{
    failure_text, Directive, Event, Phase, ProcessManager, SpawnVerdict, HEALTH_INTERVAL_SECONDS,
    READY_TIMEOUT_SECONDS, SERVER_PORT,
};
use ragbase_supervisor::slot::{
    escalate, is_alive, stop_steps, ChildProcessSlot, ProcessHandle, StopStep, SweepTarget, GRACE_MILLIS,
};

fn s(text: &str) -> String {
    text.to_string()
}

fn handle(pid: u32) -> ProcessHandle {
    ProcessHandle { pid }
}

fn sweep(mode: RunMode) -> Vec<StopStep> {
    vec![
        StopStep::Sweep { target: SweepTarget::Server { mode } },
        StopStep::Sweep { target: SweepTarget::Worker },
    ]
}

fn stop_of(pid: u32) -> Vec<StopStep> {
    vec![StopStep::Terminate { pid }, StopStep::Wait { millis: 500 }, StopStep::Reap { pid }]
}

/// A supervisor brought to the running phase with both processes installed.
fn running_manager(server: u32, worker: u32) -> ProcessManager {
    let mut manager = ProcessManager::new();
    manager.advance(Event::Setup);
    manager.advance(Event::MigrationResolved { success: true });
    manager.record_spawn(ProcessKind::Server, handle(server));
    manager.record_spawn(ProcessKind::Worker, handle(worker));
    manager.advance(Event::PortResolved { occupied: true });
    manager.advance(Event::WindowSettled);
    manager
}

#[test]
fn constants_have_their_values() {
    assert_eq!(GRACE_MILLIS, 500);
    assert_eq!(POLL_MILLIS, 100);
    assert_eq!(SERVER_PORT, 3000);
    assert_eq!(READY_TIMEOUT_SECONDS, 30);
    assert_eq!(HEALTH_INTERVAL_SECONDS, 30);
    assert_eq!(SweepTarget::Server { mode: RunMode::Development }.pattern(), "next dev");
    assert_eq!(SweepTarget::Server { mode: RunMode::Production }.pattern(), "next start");
    assert_eq!(SweepTarget::Worker.pattern(), "tasks.js");
}

#[test]
fn new_slot_is_empty() {
    let slot = ChildProcessSlot::new();
    assert_eq!(slot.handle(), None);
    assert!(!slot.is_running(&vec![1, 2, 3]));
}

#[test]
fn install_replaces_and_reports_displaced() {
    let mut slot = ChildProcessSlot::new();
    assert_eq!(slot.install(handle(7)), None);
    assert_eq!(slot.handle(), Some(handle(7)));
    assert_eq!(slot.install(handle(8)), Some(handle(7)));
    assert_eq!(slot.handle(), Some(handle(8)));
}

#[test]
fn slot_is_running_only_with_live_pid() {
    let mut slot = ChildProcessSlot::new();
    slot.install(handle(7));
    assert!(slot.is_running(&vec![3, 7]));
    assert!(!slot.is_running(&vec![3, 8]));
    assert!(!slot.is_running(&vec![]));
    assert!(is_alive(7, &vec![7]));
    assert!(!is_alive(7, &vec![70, 77]));
}

#[test]
fn stop_terminates_waits_and_reaps() {
    let mut slot = ChildProcessSlot::new();
    slot.install(handle(42));
    assert_eq!(slot.stop(), stop_of(42));
    assert_eq!(slot.handle(), None);
}

#[test]
fn stop_on_empty_slot_is_a_no_op() {
    let mut slot = ChildProcessSlot::new();
    assert_eq!(slot.stop(), vec![]);
    assert_eq!(slot.handle(), None);
    slot.install(handle(9));
    assert_eq!(slot.stop().len(), 3);
    assert_eq!(slot.stop(), vec![]);
    assert_eq!(slot.handle(), None);
}

#[test]
fn after_stop_slot_is_not_running() {
    let mut slot = ChildProcessSlot::new();
    slot.install(handle(42));
    assert!(slot.is_running(&vec![42]));
    slot.stop();
    assert!(!slot.is_running(&vec![42]));
}

#[test]
fn escalation_after_grace() {
    assert_eq!(escalate(5, true), vec![]);
    assert_eq!(
        escalate(5, false),
        vec![StopStep::KillDescendants { pid: 5 }, StopStep::ForceKill { pid: 5 }]
    );
}

#[test]
fn new_manager_is_uninitialized_and_empty() {
    let manager = ProcessManager::new();
    assert_eq!(manager.phase(), Phase::Uninitialized);
    assert_eq!(manager.handle(ProcessKind::Server), None);
    assert_eq!(manager.handle(ProcessKind::Worker), None);
    assert_eq!(manager.check_processes_health(&vec![1, 2]), (false, false));
}

#[test]
fn lifecycle_walks_through_its_phases() {
    let mut manager = ProcessManager::new();
    assert_eq!(manager.advance(Event::Setup), vec![Directive::RunMigration]);
    assert_eq!(manager.phase(), Phase::Migrating);
    assert_eq!(
        manager.advance(Event::MigrationResolved { success: true }),
        vec![
            Directive::Start { kind: ProcessKind::Server },
            Directive::Start { kind: ProcessKind::Worker },
            Directive::WaitForPort { port: 3000, timeout_seconds: 30 },
        ]
    );
    assert_eq!(manager.phase(), Phase::Starting);
    assert_eq!(manager.advance(Event::PortResolved { occupied: true }), vec![Directive::PointWindow]);
    assert_eq!(manager.phase(), Phase::Ready);
    assert_eq!(
        manager.advance(Event::WindowSettled),
        vec![Directive::ScheduleHealthChecks { interval_seconds: 30 }]
    );
    assert_eq!(manager.phase(), Phase::Running);
    assert_eq!(manager.advance(Event::HealthTick), vec![Directive::CheckHealth]);
    assert_eq!(manager.phase(), Phase::Running);
    manager.stop_all_processes(RunMode::Development);
    assert_eq!(manager.phase(), Phase::ShuttingDown);
    assert_eq!(manager.advance(Event::StopCompleted), vec![Directive::Exit]);
    assert_eq!(manager.phase(), Phase::Stopped);
}

#[test]
fn port_timeout_still_reaches_ready() {
    let mut manager = ProcessManager::new();
    manager.advance(Event::Setup);
    manager.advance(Event::MigrationResolved { success: true });
    assert_eq!(manager.advance(Event::PortResolved { occupied: false }), vec![]);
    assert_eq!(manager.phase(), Phase::Ready);
    assert_eq!(
        manager.advance(Event::WindowSettled),
        vec![Directive::ScheduleHealthChecks { interval_seconds: 30 }]
    );
    assert_eq!(manager.phase(), Phase::Running);
}

#[test]
fn events_out_of_place_change_nothing() {
    let mut manager = ProcessManager::new();
    assert_eq!(manager.advance(Event::HealthTick), vec![]);
    assert_eq!(manager.advance(Event::WindowSettled), vec![]);
    assert_eq!(manager.advance(Event::StopCompleted), vec![]);
    assert_eq!(manager.advance(Event::PortResolved { occupied: true }), vec![]);
    assert_eq!(manager.advance(Event::MigrationResolved { success: true }), vec![]);
    assert_eq!(manager.phase(), Phase::Uninitialized);
    let mut manager = running_manager(1, 2);
    assert_eq!(manager.advance(Event::Setup), vec![]);
    assert_eq!(manager.phase(), Phase::Running);
    assert_eq!(manager.handle(ProcessKind::Server), Some(handle(1)));
}

#[test]
fn failed_migration_does_not_block_start() {
    let mut manager = ProcessManager::new();
    manager.advance(Event::Setup);
    let todo = manager.advance(Event::MigrationResolved { success: false });
    assert!(todo.contains(&Directive::Start { kind: ProcessKind::Server }));
    assert!(todo.contains(&Directive::Start { kind: ProcessKind::Worker }));
    assert_eq!(
        manager.record_spawn(ProcessKind::Server, handle(10)),
        SpawnVerdict::Installed { displaced: None }
    );
    assert_eq!(
        manager.record_spawn(ProcessKind::Worker, handle(11)),
        SpawnVerdict::Installed { displaced: None }
    );
    manager.advance(Event::PortResolved { occupied: true });
    manager.advance(Event::WindowSettled);
    assert_eq!(manager.phase(), Phase::Running);
    assert_eq!(manager.check_processes_health(&vec![10, 11]), (true, true));
}

#[test]
fn restart_server_replaces_pid() {
    let mut manager = running_manager(100, 200);
    let plan = restart_next_server(&mut manager, RunMode::Production, "/p", "/d");
    assert_eq!(plan.stop, stop_of(100));
    assert_eq!(plan.launch.args, vec![s("/p/node_modules/next/dist/bin/next"), s("start")]);
    assert_eq!(manager.handle(ProcessKind::Server), None);
    assert_eq!(manager.handle(ProcessKind::Worker), Some(handle(200)));
    assert_eq!(
        manager.record_spawn(ProcessKind::Server, handle(101)),
        SpawnVerdict::Installed { displaced: None }
    );
    let held = manager.handle(ProcessKind::Server).unwrap();
    assert_ne!(held.pid, 100);
    assert_eq!(held.pid, 101);
    assert_eq!(manager.check_processes_health(&vec![101, 200]), (true, true));
}

#[test]
fn restart_worker_leaves_server_alone() {
    let mut manager = running_manager(100, 200);
    let plan = restart_background_tasks(&mut manager, RunMode::Development, "/p", "/d");
    assert_eq!(plan.stop, stop_of(200));
    assert_eq!(plan.launch.args, vec![s("/p/dist/app/tasks.js")]);
    assert_eq!(manager.handle(ProcessKind::Server), Some(handle(100)));
    assert_eq!(manager.handle(ProcessKind::Worker), None);
    let plan = restart(&mut manager, ProcessKind::Worker, RunMode::Development, "/p", "/d");
    assert_eq!(plan.stop, vec![]);
}

#[test]
fn start_commands_give_launch_recipes() {
    let manager = ProcessManager::new();
    let launch = start_next_server(&manager, RunMode::Development, "/p", "/d");
    assert_eq!(launch.args, vec![s("/p/node_modules/next/dist/bin/next"), s("dev"), s("--turbopack")]);
    let launch = start_background_tasks(&manager, RunMode::Development, "/p", "/d");
    assert_eq!(launch.args, vec![s("/p/dist/app/tasks.js")]);
    assert_eq!(launch.envs.len(), 3);
}

#[test]
fn shutdown_while_starting_leaves_nothing() {
    let mut manager = ProcessManager::new();
    manager.advance(Event::Setup);
    manager.advance(Event::MigrationResolved { success: true });
    assert_eq!(manager.phase(), Phase::Starting);
    manager.record_spawn(ProcessKind::Server, handle(50));
    let steps = manager.stop_all_processes(RunMode::Development);
    let mut expected = stop_of(50);
    expected.extend(sweep(RunMode::Development));
    assert_eq!(steps, expected);
    assert_eq!(manager.phase(), Phase::ShuttingDown);
    assert_eq!(manager.handle(ProcessKind::Server), None);
    assert_eq!(manager.handle(ProcessKind::Worker), None);
    assert_eq!(
        manager.record_spawn(ProcessKind::Worker, handle(51)),
        SpawnVerdict::Discarded { pid: 51 }
    );
    assert_eq!(manager.handle(ProcessKind::Worker), None);
    assert_eq!(manager.advance(Event::PortResolved { occupied: true }), vec![]);
    assert_eq!(manager.phase(), Phase::ShuttingDown);
    assert_eq!(manager.health_check(&vec![]), vec![]);
    assert_eq!(manager.advance(Event::StopCompleted), vec![Directive::Exit]);
    assert_eq!(manager.phase(), Phase::Stopped);
    assert_eq!(manager.check_processes_health(&vec![50, 51]), (false, false));
}

#[test]
fn full_stop_orders_server_before_worker() {
    let mut manager = running_manager(1, 2);
    let steps = manager.stop_all_processes(RunMode::Development);
    let mut expected = stop_of(1);
    expected.extend(stop_of(2));
    expected.extend(sweep(RunMode::Development));
    assert_eq!(steps, expected);
}

#[test]
fn full_stop_sweeps_for_the_launch_of_the_mode() {
    let mut manager = running_manager(1, 2);
    let steps = manager.stop_all_processes(RunMode::Production);
    assert_eq!(steps.len(), 8);
    assert_eq!(
        steps[6],
        StopStep::Sweep { target: SweepTarget::Server { mode: RunMode::Production } }
    );
    assert_eq!(steps[7], StopStep::Sweep { target: SweepTarget::Worker });
    // Each pattern occurs in the launch line that it is to find.
    for mode in [RunMode::Development, RunMode::Production] {
        let launch = manager.start_next_server(mode, "/p", "/d");
        let line = format!("{} {}", launch.program, launch.args.join(" "));
        assert!(line.contains(&SweepTarget::Server { mode }.pattern()));
        let other = match mode {
            RunMode::Development => RunMode::Production,
            RunMode::Production => RunMode::Development,
        };
        assert!(!line.contains(&SweepTarget::Server { mode: other }.pattern()));
        let launch = manager.start_background_tasks(mode, "/p", "/d");
        let line = format!("{} {}", launch.program, launch.args.join(" "));
        assert!(line.contains(&SweepTarget::Worker.pattern()));
    }
}

#[test]
fn stop_steps_for_a_process_outside_a_slot() {
    assert_eq!(stop_steps(Some(handle(77))), stop_of(77));
    assert_eq!(stop_steps(None), vec![]);
}

#[test]
fn full_stop_is_idempotent() {
    let mut manager = running_manager(1, 2);
    manager.stop_all_processes(RunMode::Production);
    assert_eq!(manager.stop_all_processes(RunMode::Production), sweep(RunMode::Production));
    assert_eq!(manager.phase(), Phase::ShuttingDown);
    manager.advance(Event::StopCompleted);
    assert_eq!(manager.stop_all_processes(RunMode::Production), sweep(RunMode::Production));
    assert_eq!(manager.phase(), Phase::Stopped);
    let mut fresh = ProcessManager::new();
    assert_eq!(fresh.stop_all_processes(RunMode::Development), sweep(RunMode::Development));
    assert_eq!(fresh.phase(), Phase::ShuttingDown);
}

#[test]
fn manager_stop_is_idempotent() {
    let mut manager = running_manager(1, 2);
    assert_eq!(manager.stop(ProcessKind::Server), stop_of(1));
    assert_eq!(manager.stop(ProcessKind::Server), vec![]);
    assert_eq!(manager.handle(ProcessKind::Server), None);
    assert_eq!(manager.handle(ProcessKind::Worker), Some(handle(2)));
    assert_eq!(manager.phase(), Phase::Running);
    assert_eq!(manager.check_processes_health(&vec![1, 2]), (false, true));
}

#[test]
fn health_check_restarts_what_died() {
    let mut manager = running_manager(1, 2);
    assert_eq!(manager.health_check(&vec![1, 2]), vec![]);
    assert_eq!(manager.health_check(&vec![2]), vec![ProcessKind::Server]);
    assert_eq!(manager.health_check(&vec![1]), vec![ProcessKind::Worker]);
    assert_eq!(manager.health_check(&vec![]), vec![ProcessKind::Server, ProcessKind::Worker]);
    assert_eq!(
        manager.record_spawn(ProcessKind::Server, handle(3)),
        SpawnVerdict::Installed { displaced: Some(handle(1)) }
    );
    assert_eq!(manager.check_processes_health(&vec![2, 3]), (true, true));
    assert_eq!(manager.health_check(&vec![2, 3]), vec![]);
}

#[test]
fn health_check_is_silent_outside_running() {
    let mut manager = ProcessManager::new();
    assert_eq!(manager.health_check(&vec![]), vec![]);
    manager.advance(Event::Setup);
    manager.advance(Event::MigrationResolved { success: true });
    assert_eq!(manager.health_check(&vec![]), vec![]);
}

#[test]
fn process_status_snapshot() {
    let manager = running_manager(1, 2);
    assert_eq!(
        check_process_status(&manager, &vec![2]),
        ProcessStatus { next_running: false, tasks_running: true }
    );
    assert_eq!(
        check_process_status(&manager, &vec![1, 2]),
        ProcessStatus { next_running: true, tasks_running: true }
    );
}

/// Runs a wait over recorded rounds, each a clock reading and what the probe
/// behind it finds, and gives the verdict and the number of probes made.
fn run_wait(timeout_seconds: u64, rounds: &[(u64, bool)]) -> (Option<bool>, usize) {
    let mut probes = 0;
    for (elapsed_seconds, free) in rounds.iter().copied() {
        let last = match ProcessManager::wait_for_port(
            9,
            timeout_seconds,
            PortEvent::Clock { elapsed_seconds },
        ) {
            PortStep::Probe { port, last } => {
                assert_eq!(port, 9);
                last
            }
            step => panic!("a clock reading asks for a probe, not {:?}", step),
        };
        probes += 1;
        match ProcessManager::wait_for_port(9, timeout_seconds, PortEvent::Probed { free, last }) {
            PortStep::Finished { occupied } => return (Some(occupied), probes),
            step => assert_eq!(step, PortStep::Sleep { millis: 100 }),
        }
    }
    (None, probes)
}

#[test]
fn wait_asks_for_probe_within_timeout() {
    let step = ProcessManager::wait_for_port(3000, 30, PortEvent::Clock { elapsed_seconds: 0 });
    assert_eq!(step, PortStep::Probe { port: 3000, last: false });
    let step = ProcessManager::wait_for_port(3000, 30, PortEvent::Clock { elapsed_seconds: 29 });
    assert_eq!(step, PortStep::Probe { port: 3000, last: false });
}

#[test]
fn wait_probes_once_more_at_timeout() {
    let step = ProcessManager::wait_for_port(3000, 30, PortEvent::Clock { elapsed_seconds: 30 });
    assert_eq!(step, PortStep::Probe { port: 3000, last: true });
    let step = ProcessManager::wait_for_port(3000, 30, PortEvent::Clock { elapsed_seconds: 31 });
    assert_eq!(step, PortStep::Probe { port: 3000, last: true });
    let step = ProcessManager::wait_for_port(3000, 0, PortEvent::Clock { elapsed_seconds: 0 });
    assert_eq!(step, PortStep::Probe { port: 3000, last: true });
}

#[test]
fn wait_gives_up_at_timeout() {
    let step =
        ProcessManager::wait_for_port(3000, 30, PortEvent::Probed { free: true, last: true });
    assert_eq!(step, PortStep::Finished { occupied: false });
    assert_eq!(run_wait(30, &[(0, true), (15, true), (30, true)]), (Some(false), 3));
    assert_eq!(run_wait(0, &[(0, true)]), (Some(false), 1));
}

#[test]
fn wait_ends_when_port_is_taken() {
    let step =
        ProcessManager::wait_for_port(8080, 5, PortEvent::Probed { free: false, last: false });
    assert_eq!(step, PortStep::Finished { occupied: true });
    let step =
        ProcessManager::wait_for_port(8080, 5, PortEvent::Probed { free: false, last: true });
    assert_eq!(step, PortStep::Finished { occupied: true });
    let step =
        ProcessManager::wait_for_port(8080, 5, PortEvent::Probed { free: true, last: false });
    assert_eq!(step, PortStep::Sleep { millis: 100 });
}

#[test]
fn wait_finds_listener_bound_just_before_timeout() {
    // The port is free at the probe before the timeout; a listener binds it
    // during the pause; the clock then reads the timeout.
    assert_eq!(run_wait(2, &[(0, true), (1, true), (2, false)]), (Some(true), 3));
    assert_eq!(run_wait(1, &[(0, true), (1, false)]), (Some(true), 2));
}

#[test]
fn wait_run_to_success_and_to_timeout() {
    assert_eq!(run_wait(2, &[(0, true), (0, true), (1, false), (1, true)]), (Some(true), 3));
    assert_eq!(run_wait(2, &[(0, true), (1, true), (2, true), (3, false)]), (Some(false), 3));
    assert_eq!(run_wait(2, &[(0, true), (1, true)]), (None, 2));
    assert_eq!(run_wait(2, &[(0, false)]), (Some(true), 1));
}

#[test]
fn select_directories_answers() {
    assert_eq!(
        select_directories(Ok(Some(vec![s("/a"), s("/b")]))),
        Ok(vec![s("/a"), s("/b")])
    );
    assert_eq!(select_directories(Ok(None)), Ok(vec![]));
    assert_eq!(
        select_directories(Err(s("channel closed"))),
        Err(s("Failed to receive directory selection result: channel closed"))
    );
}

#[test]
fn open_file_answers() {
    let answer = open_file(false, Ok(()));
    assert!(!answer.success);
    assert_eq!(answer.error, Some(s("File does not exist")));
    let answer = open_file(false, Err(s("ignored")));
    assert!(!answer.success);
    assert_eq!(answer.error, Some(s("File does not exist")));
    let answer = open_file(true, Ok(()));
    assert!(answer.success);
    assert_eq!(answer.error, None);
    let answer = open_file(true, Err(s("no handler")));
    assert!(!answer.success);
    assert_eq!(answer.error, Some(s("Failed to open file: no handler")));
}

#[test]
fn app_data_dir_answers() {
    assert_eq!(get_app_data_dir(s("/h/.ragbase"), Ok(())), Ok(s("/h/.ragbase")));
    assert_eq!(
        get_app_data_dir(s("/h/.ragbase"), Err(s("denied"))),
        Err(s("Failed to create data directory: denied"))
    );
}

#[test]
fn app_info_answers() {
    let info = get_app_info(RunMode::Development, Some(s("/p")), None, Some(s("/h")));
    assert_eq!(info.data_dir, "/p/data");
    assert!(info.is_dev);
    assert_eq!(info.project_root, "/p");
    let info = get_app_info(RunMode::Production, None, None, Some(s("/h")));
    assert_eq!(info.data_dir, "/h/.ragbase");
    assert!(!info.is_dev);
    assert_eq!(info.project_root, ".");
}

#[test]
fn app_info_gives_the_resolved_project_root() {
    // In development the shell's sub-directory is left for the one above.
    let info = get_app_info(
        RunMode::Development,
        Some(s("/work/app/src-tauri")),
        Some(s("/elsewhere/bin/app")),
        None,
    );
    assert_eq!(info.project_root, "/work/app");
    assert_eq!(info.data_dir, "/work/app/data");
    assert!(info.is_dev);
    // In production the root follows the executable, not the working directory.
    let info = get_app_info(
        RunMode::Production,
        Some(s("/work/app")),
        Some(s("/Applications/App.app/Contents/MacOS/app")),
        None,
    );
    assert_eq!(info.project_root, "/Applications/App.app/Contents/Resources");
    assert_eq!(info.data_dir, "./data");
    let info = get_app_info(
        RunMode::Production,
        Some(s("/work/app")),
        Some(s("/opt/app/bin/app")),
        Some(s("/home/u")),
    );
    assert_eq!(info.project_root, "/opt/app/bin");
    assert_eq!(info.data_dir, "/home/u/.ragbase");
    assert!(!info.is_dev);
}

#[test]
fn failure_texts() {
    assert_eq!(
        failure_text(ProcessKind::Server, false, "boom"),
        "Failed to start Next.js server: boom"
    );
    assert_eq!(
        failure_text(ProcessKind::Server, true, "boom"),
        "Failed to restart Next.js server: boom"
    );
    assert_eq!(
        failure_text(ProcessKind::Worker, false, "x"),
        "Failed to start background tasks: x"
    );
    assert_eq!(
        failure_text(ProcessKind::Worker, true, ""),
        "Failed to restart background tasks: "
    );
}

#[test]
fn phase_closing() {
    assert!(Phase::ShuttingDown.closing());
    assert!(Phase::Stopped.closing());
    assert!(!Phase::Running.closing());
    assert!(!Phase::Uninitialized.closing());
}

#[test]
fn finish_start_takes_in_a_spawned_process() {
    let mut manager = running_manager(1, 2);
    manager.stop(ProcessKind::Server);
    assert_eq!(
        manager.finish_start(ProcessKind::Server, true, Ok(handle(9))),
        Ok(SpawnVerdict::Installed { displaced: None })
    );
    assert_eq!(manager.handle(ProcessKind::Server), Some(handle(9)));
}

#[test]
fn finish_start_words_a_failure_and_changes_nothing() {
    let mut manager = running_manager(1, 2);
    assert_eq!(
        manager.finish_start(ProcessKind::Worker, false, Err(s("No such file or directory"))),
        Err(s("Failed to start background tasks: No such file or directory"))
    );
    assert_eq!(
        manager.finish_start(ProcessKind::Server, true, Err(s("denied"))),
        Err(s("Failed to restart Next.js server: denied"))
    );
    assert_eq!(manager.handle(ProcessKind::Server), Some(handle(1)));
    assert_eq!(manager.handle(ProcessKind::Worker), Some(handle(2)));
    assert_eq!(manager.phase(), Phase::Running);
}

#[test]
fn finish_start_discards_after_full_stop() {
    let mut manager = running_manager(1, 2);
    manager.stop_all_processes(RunMode::Development);
    assert_eq!(
        manager.finish_start(ProcessKind::Server, false, Ok(handle(9))),
        Ok(SpawnVerdict::Discarded { pid: 9 })
    );
    assert_eq!(manager.handle(ProcessKind::Server), None);
    assert!(manager.is_well_formed());
}

#[test]
fn numbers_in_decimal() {
    assert_eq!(decimal(0), "0");
    assert_eq!(decimal(7), "7");
    assert_eq!(decimal(10), "10");
    assert_eq!(decimal(3000), "3000");
    assert_eq!(decimal(65535), "65535");
    assert_eq!(decimal(1234), "1234");
    assert_eq!(decimal(56789), "56789");
}

#[test]
fn probe_binds_every_interface() {
    assert_eq!(probe_address(3000), "0.0.0.0:3000");
    assert_eq!(probe_address(0), "0.0.0.0:0");
    assert_eq!(probe_address(65535), "0.0.0.0:65535");
}

#[test]
fn window_is_pointed_at_local_server() {
    assert_eq!(server_url(SERVER_PORT), "http://localhost:3000");
    assert_eq!(server_url(8080), "http://localhost:8080");
    assert_eq!(
        navigation_script("http://localhost:3000"),
        "window.location.href = 'http://localhost:3000';"
    );
}
