use sidecar_supervisor::environment::{
    child_env, DATA_DIR_VAR, MODE_VALUE, MODE_VAR, PORT_VALUE, PORT_VAR, SEARCH_PATH_VAR,
};
use sidecar_supervisor::outcome::{SidecarError, StartOutcome, StopOutcome};
use sidecar_supervisor::supervisor::{
    finish_stop, StartAction, StartEvent, StartSession, StopAction, Supervisor,
};

/// Drives one start attempt the way a host would, answering every action
/// with the given reports. Returns the final action and the environment the
/// child was spawned with, if it got that far.
fn run_start(
    sup: &mut Supervisor<u32>,
    spawn: Result<u32, String>,
) -> (StartAction, Option<Vec<(String, String)>>) {
    let (mut session, mut action) = StartSession::begin(sup);
    let mut spawn = Some(spawn);
    let mut env = None;
    loop {
        let event = match action {
            StartAction::Finish(_) => return (action, env),
            StartAction::ResolveDataDir => StartEvent::DataDirResolved(Ok(())),
            StartAction::CreateDataDir => StartEvent::DataDirCreated(Ok(())),
            StartAction::ConvertDataDir => {
                StartEvent::DataDirConverted(Some("/data/instance".to_string()))
            }
            StartAction::ReadSearchPath => {
                StartEvent::SearchPathRead(Some("/usr/bin:/bin".to_string()))
            }
            StartAction::LocateCommand => StartEvent::CommandLocated(Ok(())),
            StartAction::Spawn => {
                env = Some(session.child_env());
                StartEvent::Spawned(spawn.take().unwrap())
            }
        };
        action = session.step(sup, event);
    }
}

fn start_text(action: &StartAction) -> Result<String, String> {
    match action {
        StartAction::Finish(Ok(o)) => Ok(o.to_text()),
        StartAction::Finish(Err(e)) => Err(e.message()),
        other => panic!("start did not finish: {:?}", other),
    }
}

fn stop(sup: &mut Supervisor<u32>, kill: Result<(), String>, kills: &mut Vec<u32>) -> Result<String, String> {
    let result = match sup.begin_stop() {
        StopAction::Kill(h) => {
            kills.push(h);
            finish_stop(kill)
        }
        StopAction::Finish(r) => r,
    };
    match result {
        Ok(o) => Ok(o.to_text()),
        Err(e) => Err(e.message()),
    }
}

#[test]
fn start_twice_reports_already_running() {
    let mut sup = Supervisor::new();
    let (first, env1) = run_start(&mut sup, Ok(11));
    assert_eq!(start_text(&first), Ok("started".to_string()));
    assert!(env1.is_some());
    let (second, env2) = run_start(&mut sup, Ok(12));
    assert_eq!(start_text(&second), Ok("already_running".to_string()));
    assert!(env2.is_none());
    assert_eq!(sup.release(), Some(11));
}

#[test]
fn stop_when_idle_reports_not_running_without_kill() {
    let mut sup: Supervisor<u32> = Supervisor::new();
    let mut kills = Vec::new();
    assert_eq!(stop(&mut sup, Ok(()), &mut kills), Ok("not_running".to_string()));
    assert!(kills.is_empty());
}

#[test]
fn stop_after_start_kills_once() {
    let mut sup = Supervisor::new();
    run_start(&mut sup, Ok(5));
    let mut kills = Vec::new();
    assert_eq!(stop(&mut sup, Ok(()), &mut kills), Ok("stopped".to_string()));
    assert!(!sup.is_running());
    assert_eq!(stop(&mut sup, Ok(()), &mut kills), Ok("not_running".to_string()));
    assert_eq!(kills, vec![5]);
}

#[test]
fn failed_kill_still_clears_slot() {
    let mut sup = Supervisor::new();
    run_start(&mut sup, Ok(5));
    let mut kills = Vec::new();
    assert_eq!(
        stop(&mut sup, Err("no such process".to_string()), &mut kills),
        Err("Failed to kill sidecar: no such process".to_string())
    );
    assert!(!sup.is_running());
    assert_eq!(kills, vec![5]);
}

#[test]
fn status_follows_lifecycle() {
    let mut sup = Supervisor::new();
    assert!(!sup.is_running());
    run_start(&mut sup, Ok(1));
    assert!(sup.is_running());
    let mut kills = Vec::new();
    stop(&mut sup, Ok(()), &mut kills).unwrap();
    assert!(!sup.is_running());
}

#[test]
fn failed_spawn_leaves_slot_empty() {
    let mut sup = Supervisor::new();
    let (first, _) = run_start(&mut sup, Err("No such file or directory".to_string()));
    assert_eq!(
        start_text(&first),
        Err("Failed to spawn sidecar: No such file or directory".to_string())
    );
    assert!(!sup.is_running());
    let (second, _) = run_start(&mut sup, Ok(3));
    assert_eq!(start_text(&second), Ok("started".to_string()));
    assert_eq!(sup.release(), Some(3));
}

#[test]
fn serialized_starts_spawn_once() {
    let mut sup = Supervisor::new();
    let mut spawned = 0;
    for caller in 0..8u32 {
        let (action, env) = run_start(&mut sup, Ok(100 + caller));
        if env.is_some() {
            spawned += 1;
        }
        let expected = if caller == 0 { "started" } else { "already_running" };
        assert_eq!(start_text(&action), Ok(expected.to_string()));
    }
    assert_eq!(spawned, 1);
    assert_eq!(sup.release(), Some(100));
}

#[test]
fn spawned_child_gets_fixed_environment() {
    let mut sup = Supervisor::new();
    let (_, env) = run_start(&mut sup, Ok(9));
    let env = env.unwrap();
    assert_eq!(
        env,
        vec![
            ("SIDECAR_MODE".to_string(), "1".to_string()),
            ("OPENPROFIA_DATA_DIR".to_string(), "/data/instance".to_string()),
            ("PORT".to_string(), "3000".to_string()),
            ("PATH".to_string(), "/usr/bin:/bin".to_string()),
        ]
    );
}

#[test]
fn child_env_uses_constants() {
    let env = child_env("", "");
    assert_eq!(env.len(), 4);
    assert_eq!(env[0], (MODE_VAR.to_string(), MODE_VALUE.to_string()));
    assert_eq!(env[1], (DATA_DIR_VAR.to_string(), String::new()));
    assert_eq!(env[2], (PORT_VAR.to_string(), PORT_VALUE.to_string()));
    assert_eq!(env[3], (SEARCH_PATH_VAR.to_string(), String::new()));
}

#[test]
fn missing_search_path_is_empty() {
    let mut sup: Supervisor<u32> = Supervisor::new();
    let (mut session, _) = StartSession::begin(&sup);
    session.step(&mut sup, StartEvent::DataDirResolved(Ok(())));
    session.step(&mut sup, StartEvent::DataDirCreated(Ok(())));
    session.step(&mut sup, StartEvent::DataDirConverted(Some("/d".to_string())));
    let next = session.step(&mut sup, StartEvent::SearchPathRead(None));
    assert!(matches!(next, StartAction::LocateCommand));
    let env = session.child_env();
    assert_eq!(env[3], ("PATH".to_string(), String::new()));
    assert_eq!(env[1], ("OPENPROFIA_DATA_DIR".to_string(), "/d".to_string()));
}

fn start_failing_at(event_index: usize) -> (Supervisor<u32>, String) {
    let mut sup: Supervisor<u32> = Supervisor::new();
    let (mut session, _) = StartSession::begin(&sup);
    let events: Vec<StartEvent<u32>> = vec![
        StartEvent::DataDirResolved(Ok(())),
        StartEvent::DataDirCreated(Ok(())),
        StartEvent::DataDirConverted(Some("/d".to_string())),
        StartEvent::SearchPathRead(Some("/bin".to_string())),
        StartEvent::CommandLocated(Ok(())),
    ];
    let failing: StartEvent<u32> = match event_index {
        0 => StartEvent::DataDirResolved(Err("unknown home".to_string())),
        1 => StartEvent::DataDirCreated(Err("permission denied".to_string())),
        2 => StartEvent::DataDirConverted(None),
        _ => StartEvent::CommandLocated(Err("binary not bundled".to_string())),
    };
    let index = if event_index >= 3 { 4 } else { event_index };
    let mut action = None;
    for (i, event) in events.into_iter().enumerate() {
        if i == index {
            action = Some(session.step(&mut sup, failing));
            break;
        }
        session.step(&mut sup, event);
    }
    assert!(session.is_finished());
    let message = match action.unwrap() {
        StartAction::Finish(Err(e)) => e.message(),
        other => panic!("unexpected {:?}", other),
    };
    (sup, message)
}

#[test]
fn data_dir_resolution_failure() {
    let (sup, message) = start_failing_at(0);
    assert_eq!(message, "Failed to get app data dir: unknown home");
    assert!(!sup.is_running());
}

#[test]
fn data_dir_creation_failure() {
    let (sup, message) = start_failing_at(1);
    assert_eq!(message, "Failed to create app data dir: permission denied");
    assert!(!sup.is_running());
}

#[test]
fn data_dir_not_unicode() {
    let (sup, message) = start_failing_at(2);
    assert_eq!(message, "Invalid app data dir path");
    assert!(!sup.is_running());
}

#[test]
fn command_unavailable() {
    let (sup, message) = start_failing_at(4);
    assert_eq!(message, "Failed to get sidecar command: binary not bundled");
    assert!(!sup.is_running());
}

#[test]
fn lock_error_message_is_cause() {
    let e = SidecarError::StateLock("poisoned lock: another task failed inside".to_string());
    assert_eq!(e.message(), "poisoned lock: another task failed inside");
}

#[test]
fn outcome_texts() {
    assert_eq!(StartOutcome::Started.to_text(), "started");
    assert_eq!(StartOutcome::AlreadyRunning.to_text(), "already_running");
    assert_eq!(StopOutcome::Stopped.to_text(), "stopped");
    assert_eq!(StopOutcome::NotRunning.to_text(), "not_running");
}
