use server_manager::error::ServerError;
use server_manager::launch::{LaunchPlan, Platform};
use server_manager::model::Teardown;
use server_manager::process::{ProcessSlot, Spawned};
use server_manager::service::{ServerService, Started, RESTART_COOLDOWN_SECS};
use server_manager::status::{ServerStatus, StatusEvent};
use server_manager::watcher::{PollOutcome, WatchStep, Watcher, WATCH_GRACE_SECS, WATCH_INTERVAL_SECS};

#[derive(Debug, PartialEq)]
struct FakeChild {
    tag: u32,
    polls: u32,
}

fn child(tag: u32) -> FakeChild {
    FakeChild { tag, polls: 0 }
}

fn spawned(tag: u32, pid: u32) -> Spawned<FakeChild> {
    Spawned { handle: child(tag), pid, stdin: true, stdout: true, stderr: true }
}

fn running(tag: u32, pid: u32) -> ServerService<FakeChild> {
    let mut service = ServerService::new();
    assert!(service.start_server(Ok(spawned(tag, pid))).is_ok());
    service
}

fn stopped_event() -> StatusEvent {
    StatusEvent { status: ServerStatus { running: false, pid: None } }
}

#[test]
fn new_service_is_stopped() {
    let mut service: ServerService<FakeChild> = ServerService::new();
    assert_eq!(service.get_status(), ServerStatus { running: false, pid: None });
    assert!(service.handle_mut().is_none());
}

#[test]
fn plan_start_without_path_is_refused() {
    let service: ServerService<FakeChild> = ServerService::new();
    assert_eq!(service.plan_start(None, Platform::Posix), Err(ServerError::PathNotConfigured));
}

#[test]
fn plan_start_names_the_script_of_the_platform() {
    let service: ServerService<FakeChild> = ServerService::new();
    assert_eq!(
        service.plan_start(Some("/srv/game".to_string()), Platform::Posix),
        Ok(LaunchPlan { working_dir: "/srv/game".to_string(), script: "start-server.sh".to_string() })
    );
    assert_eq!(
        service.plan_start(Some("C:\\game".to_string()), Platform::Windows),
        Ok(LaunchPlan { working_dir: "C:\\game".to_string(), script: "start-server.bat".to_string() })
    );
}

#[test]
fn plan_start_while_running_is_refused_whatever_the_path() {
    let service = running(1, 4242);
    assert_eq!(service.plan_start(Some("/srv/game".to_string()), Platform::Posix), Err(ServerError::AlreadyRunning));
    assert_eq!(service.plan_start(None, Platform::Posix), Err(ServerError::AlreadyRunning));
}

#[test]
fn start_takes_the_process_over() {
    let mut service = ServerService::new();
    let started = service.start_server(Ok(Spawned {
        handle: child(7),
        pid: 4242,
        stdin: true,
        stdout: true,
        stderr: false,
    }));
    assert_eq!(
        started.unwrap(),
        Started {
            event: StatusEvent { status: ServerStatus { running: true, pid: Some(4242) } },
            capture_stdout: true,
            capture_stderr: false,
            watcher: Watcher::Grace,
        }
    );
    assert_eq!(service.get_status(), ServerStatus { running: true, pid: Some(4242) });
    assert_eq!(service.handle_mut().map(|held| held.tag), Some(7));
}

#[test]
fn start_with_failed_launch_reports_the_reason() {
    let mut service: ServerService<FakeChild> = ServerService::new();
    let failure = service.start_server(Err("No such file or directory".to_string())).unwrap_err();
    assert_eq!(failure.error, ServerError::SpawnFailed("No such file or directory".to_string()));
    assert!(failure.rejected.is_none());
    assert_eq!(service.get_status(), ServerStatus { running: false, pid: None });
}

#[test]
fn start_while_running_is_refused_and_hands_the_handle_back() {
    let mut service = running(1, 100);
    let failure = service.start_server(Ok(spawned(2, 200))).unwrap_err();
    assert_eq!(failure.error, ServerError::AlreadyRunning);
    assert_eq!(failure.rejected, Some(child(2)));
    assert_eq!(service.get_status(), ServerStatus { running: true, pid: Some(100) });
    assert_eq!(service.handle_mut().map(|held| held.tag), Some(1));
}

#[test]
fn start_while_running_is_refused_even_when_the_launch_failed() {
    let mut service = running(1, 100);
    let failure = service.start_server(Err("boom".to_string())).unwrap_err();
    assert_eq!(failure.error, ServerError::AlreadyRunning);
    assert!(failure.rejected.is_none());
    assert_eq!(service.get_status(), ServerStatus { running: true, pid: Some(100) });
}

#[test]
fn stop_without_process_is_refused() {
    let mut service: ServerService<FakeChild> = ServerService::new();
    assert_eq!(service.stop_server().unwrap_err(), ServerError::NotRunning);
    assert_eq!(service.get_status(), ServerStatus { running: false, pid: None });
}

#[test]
fn stop_hands_out_the_handle_and_empties_the_slot() {
    let mut service = running(9, 555);
    assert_eq!(service.stop_server().unwrap(), child(9));
    assert_eq!(service.get_status(), ServerStatus { running: false, pid: None });
    assert!(service.handle_mut().is_none());
    assert_eq!(service.stop_server().unwrap_err(), ServerError::NotRunning);
}

#[test]
fn finish_stop_reports_each_teardown() {
    assert_eq!(ServerService::<FakeChild>::finish_stop(Teardown::Exited), Ok(stopped_event()));
    assert_eq!(
        ServerService::<FakeChild>::finish_stop(Teardown::KillFailed("denied".to_string())),
        Err(ServerError::KillFailed("denied".to_string()))
    );
    assert_eq!(
        ServerService::<FakeChild>::finish_stop(Teardown::WaitFailed("interrupted".to_string())),
        Err(ServerError::WaitFailed("interrupted".to_string()))
    );
}

#[test]
fn send_command_appends_a_line_feed() {
    let service = running(1, 10);
    assert_eq!(service.send_command("say hi"), Ok("say hi\n".to_string()));
    assert_eq!(service.send_command(""), Ok("\n".to_string()));
    assert_eq!(service.send_command("say héllo"), Ok("say héllo\n".to_string()));
}

#[test]
fn send_command_without_process_is_refused() {
    let service: ServerService<FakeChild> = ServerService::new();
    assert_eq!(service.send_command("say hi"), Err(ServerError::NotRunning));
}

#[test]
fn send_command_without_input_channel_is_refused() {
    let mut service = ServerService::new();
    let launch = Spawned { handle: child(1), pid: 10, stdin: false, stdout: true, stderr: true };
    assert!(service.start_server(Ok(launch)).is_ok());
    assert_eq!(service.send_command("say hi"), Err(ServerError::StdinUnavailable));
}

#[test]
fn send_command_after_stop_is_refused() {
    let mut service = running(1, 10);
    assert!(service.stop_server().is_ok());
    assert_eq!(service.send_command("say hi"), Err(ServerError::NotRunning));
}

#[test]
fn handle_mut_reaches_the_held_handle() {
    let mut service = running(3, 30);
    if let Some(held) = service.handle_mut() {
        held.polls += 1;
    }
    assert_eq!(service.get_status(), ServerStatus { running: true, pid: Some(30) });
    assert_eq!(service.stop_server().unwrap(), FakeChild { tag: 3, polls: 1 });
}

#[test]
fn watcher_goes_on_while_the_process_runs() {
    let mut service = running(1, 10);
    assert_eq!(service.watch(Some(PollOutcome::StillRunning)), WatchStep::Continue);
    assert_eq!(service.watch(None), WatchStep::Continue);
    assert_eq!(service.get_status(), ServerStatus { running: true, pid: Some(10) });
}

#[test]
fn watcher_clears_the_slot_when_the_process_exited() {
    let mut service = running(1, 10);
    assert_eq!(service.watch(Some(PollOutcome::Exited)), WatchStep::Exit(Some(stopped_event())));
    assert_eq!(service.get_status(), ServerStatus { running: false, pid: None });
    assert!(service.handle_mut().is_none());
}

#[test]
fn watcher_ends_in_silence_when_the_poll_failed() {
    let mut service = running(1, 10);
    assert_eq!(service.watch(Some(PollOutcome::Failed("EINTR".to_string()))), WatchStep::Exit(None));
    assert_eq!(service.get_status(), ServerStatus { running: true, pid: Some(10) });
}

#[test]
fn watcher_ends_in_silence_when_the_slot_is_empty() {
    let mut service: ServerService<FakeChild> = ServerService::new();
    assert_eq!(service.watch(None), WatchStep::Exit(None));
    assert_eq!(service.watch(Some(PollOutcome::Exited)), WatchStep::Exit(None));
    assert_eq!(service.watch(Some(PollOutcome::StillRunning)), WatchStep::Exit(None));
}

fn events_of_stop(service: &mut ServerService<FakeChild>) -> usize {
    match service.stop_server() {
        Ok(_) => ServerService::<FakeChild>::finish_stop(Teardown::Exited).iter().count(),
        Err(_) => 0,
    }
}

fn events_of_watch(service: &mut ServerService<FakeChild>, observed: Option<PollOutcome>) -> usize {
    match service.watch(observed) {
        WatchStep::Exit(Some(_)) => 1,
        _ => 0,
    }
}

#[test]
fn stop_before_watcher_publishes_one_stop_event() {
    let mut service = running(1, 10);
    let events = events_of_stop(&mut service) + events_of_watch(&mut service, None);
    assert_eq!(events, 1);
}

#[test]
fn watcher_before_stop_publishes_one_stop_event() {
    let mut service = running(1, 10);
    let events = events_of_watch(&mut service, Some(PollOutcome::Exited)) + events_of_stop(&mut service);
    assert_eq!(events, 1);
}

#[test]
fn watcher_that_saw_no_exit_leaves_the_event_to_stop() {
    let mut service = running(1, 10);
    let events = events_of_watch(&mut service, Some(PollOutcome::StillRunning))
        + events_of_stop(&mut service)
        + events_of_watch(&mut service, None);
    assert_eq!(events, 1);
}

#[test]
fn stop_whose_kill_failed_publishes_nothing() {
    let mut service = running(1, 10);
    assert!(service.stop_server().is_ok());
    assert!(ServerService::<FakeChild>::finish_stop(Teardown::KillFailed("denied".to_string())).is_err());
    assert_eq!(events_of_watch(&mut service, None), 0);
}

#[test]
fn status_follows_the_life_of_a_process() {
    let mut service = ServerService::new();
    assert_eq!(service.get_status(), ServerStatus { running: false, pid: None });
    assert!(service.start_server(Ok(spawned(1, 321))).is_ok());
    for _ in 0..3 {
        assert_eq!(service.get_status(), ServerStatus { running: true, pid: Some(321) });
        let _ = service.send_command("list");
        let _ = service.plan_start(Some("/srv/game".to_string()), Platform::Posix);
        let _ = service.watch(Some(PollOutcome::StillRunning));
        let _ = service.watch(Some(PollOutcome::Failed("EINTR".to_string())));
        let _ = service.watch(None);
        let _ = service.handle_mut();
        let _ = service.start_server(Ok(spawned(2, 999)));
        let _ = service.start_server(Err("boom".to_string()));
    }
    assert_eq!(service.get_status(), ServerStatus { running: true, pid: Some(321) });
    assert!(service.stop_server().is_ok());
    for _ in 0..3 {
        assert_eq!(service.get_status(), ServerStatus { running: false, pid: None });
        let _ = service.stop_server();
        let _ = service.restart_server();
        let _ = service.watch(Some(PollOutcome::Exited));
        let _ = service.start_server(Err("boom".to_string()));
        let _ = service.send_command("list");
    }
    assert_eq!(service.get_status(), ServerStatus { running: false, pid: None });
}

#[test]
fn restart_stops_then_starts_a_new_process() {
    let mut service = running(1, 100);
    let restart = service.restart_server().unwrap();
    assert_eq!(restart.handle, child(1));
    assert_eq!(restart.cooldown_secs, 2);
    assert_eq!(RESTART_COOLDOWN_SECS, 2);
    assert_eq!(service.get_status(), ServerStatus { running: false, pid: None });
    assert_eq!(ServerService::<FakeChild>::finish_stop(Teardown::Exited), Ok(stopped_event()));
    assert!(service.plan_start(Some("/srv/game".to_string()), Platform::Posix).is_ok());
    let started = service.start_server(Ok(spawned(2, 101))).unwrap();
    assert_eq!(started.event, StatusEvent { status: ServerStatus { running: true, pid: Some(101) } });
    assert_eq!(service.get_status(), ServerStatus { running: true, pid: Some(101) });
    assert_ne!(service.get_status().pid, Some(100));
}

#[test]
fn restart_without_process_is_refused() {
    let mut service: ServerService<FakeChild> = ServerService::new();
    assert_eq!(service.restart_server().unwrap_err(), ServerError::NotRunning);
}

#[test]
fn watcher_delays_are_one_and_two_seconds() {
    assert_eq!(WATCH_GRACE_SECS, 1);
    assert_eq!(WATCH_INTERVAL_SECS, 2);
    assert_eq!(Watcher::new(), Watcher::Grace);
    assert_eq!(Watcher::Grace.next_delay(), Some(3));
    assert_eq!(Watcher::Polling.next_delay(), Some(2));
    assert_eq!(Watcher::Done.next_delay(), None);
}

#[test]
fn watcher_rounds_until_the_process_exits() {
    let mut service = running(1, 10);
    let mut watcher = Watcher::new();
    assert_eq!(watcher.round(&mut service, Some(PollOutcome::StillRunning)), None);
    assert_eq!(watcher, Watcher::Polling);
    assert_eq!(watcher.round(&mut service, Some(PollOutcome::StillRunning)), None);
    assert_eq!(watcher, Watcher::Polling);
    assert_eq!(watcher.round(&mut service, Some(PollOutcome::Exited)), Some(stopped_event()));
    assert_eq!(watcher, Watcher::Done);
    assert_eq!(service.get_status(), ServerStatus { running: false, pid: None });
}

#[test]
fn ended_watcher_leaves_a_new_process_alone() {
    let mut service = running(1, 10);
    let mut watcher = Watcher::new();
    assert_eq!(watcher.round(&mut service, Some(PollOutcome::Exited)), Some(stopped_event()));
    assert!(service.start_server(Ok(spawned(2, 11))).is_ok());
    assert_eq!(watcher.round(&mut service, Some(PollOutcome::Exited)), None);
    assert_eq!(watcher.next_delay(), None);
    assert_eq!(service.get_status(), ServerStatus { running: true, pid: Some(11) });
}

#[test]
fn watcher_ends_when_it_finds_the_slot_empty_or_the_poll_failed() {
    let mut service = running(1, 10);
    let mut watcher = Watcher::new();
    assert_eq!(watcher.round(&mut service, Some(PollOutcome::Failed("EINTR".to_string()))), None);
    assert_eq!(watcher, Watcher::Done);
    assert!(service.stop_server().is_ok());
    let mut watcher = Watcher::new();
    assert_eq!(watcher.round(&mut service, None), None);
    assert_eq!(watcher, Watcher::Done);
}

#[test]
fn error_messages_are_the_sentences_shown_to_the_user() {
    assert_eq!(ServerError::PathNotConfigured.message(), "Server path not set");
    assert_eq!(ServerError::AlreadyRunning.message(), "Server is already running");
    assert_eq!(ServerError::NotRunning.message(), "Server is not running");
    assert_eq!(ServerError::SpawnFailed("x".to_string()).message(), "Failed to start server");
    assert_eq!(ServerError::StdinUnavailable.message(), "Server stdin not available");
    assert_eq!(ServerError::KillFailed("x".to_string()).message(), "Failed to kill server process");
    assert_eq!(ServerError::WaitFailed("x".to_string()).message(), "Failed to wait for server process");
}

#[test]
fn slot_take_gives_the_handle_to_the_first_caller_only() {
    let mut slot = ProcessSlot::new();
    assert!(slot.is_empty());
    assert!(slot.adopt(child(5), 50, true).is_none());
    assert_eq!(slot.pid(), Some(50));
    assert!(slot.has_stdin());
    assert_eq!(slot.adopt(child(6), 60, false), Some(child(6)));
    assert_eq!(slot.pid(), Some(50));
    assert_eq!(slot.take(), Some(child(5)));
    assert_eq!(slot.take(), None);
    assert!(slot.is_empty());
    assert_eq!(slot.pid(), None);
    assert!(!slot.has_stdin());
}

#[test]
fn status_constructors_are_well_formed() {
    assert_eq!(ServerStatus::running(7), ServerStatus { running: true, pid: Some(7) });
    assert_eq!(ServerStatus::stopped(), ServerStatus { running: false, pid: None });
}
