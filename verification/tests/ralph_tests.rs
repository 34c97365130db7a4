use ralphtown::ralph::{
    line_content_len, CancelPlan, Departure, Effect, OutputLine, RalphError, RalphManager, SpawnFailure,
    SpawnRequest, Spawned, StdioMode, CANCEL_GRACE_SECS,
};
use ralphtown::session::{OutputStream, SessionEvent, SessionStatus};

fn started(child: u32, pid: u32) -> Result<Spawned<u32>, SpawnFailure> {
    Ok(Spawned { child, pid: Some(pid) })
}

fn running_effects(session_id: u128) -> Vec<Effect> {
    vec![
        Effect::PersistStatus { session_id, status: SessionStatus::Running },
        Effect::BroadcastStatus { session_id, status: SessionStatus::Running },
    ]
}

#[test]
fn test_manager_creation() {
    let manager: RalphManager<u32> = RalphManager::new();
    assert!(manager.active_sessions().is_empty());
}

#[test]
fn test_repo_busy_detection() {
    let manager: RalphManager<u32> = RalphManager::new();
    let repo_id = uuid::Uuid::new_v4().as_u128();

    assert!(!manager.is_repo_busy(repo_id));
}

#[test]
fn test_session_running_detection() {
    let manager: RalphManager<u32> = RalphManager::new();
    let session_id = uuid::Uuid::new_v4().as_u128();

    assert!(!manager.is_session_running(session_id));
}

#[test]
fn run_spawns_with_the_fixed_invocation_and_registers() {
    let mut manager: RalphManager<u32> = RalphManager::new();
    let mut seen: Option<SpawnRequest> = None;
    let r = manager.run(1, 10, "/repos/a", "fix the bug", |req| {
        seen = Some(req);
        started(100, 4242)
    });
    assert_eq!(r, Ok(running_effects(1)));
    let req = seen.expect("spawn was called");
    assert_eq!(req.program, "ralph");
    assert_eq!(req.args, vec!["run", "--autonomous", "--prompt", "fix the bug"]);
    assert_eq!(req.working_dir, "/repos/a");
    assert_eq!(req.stdin, StdioMode::Null);
    assert_eq!(req.stdout, StdioMode::Piped);
    assert_eq!(req.stderr, StdioMode::Piped);
    assert!(req.new_process_group);
    assert_eq!(manager.begin_run(2, 11, "/repos/a", "fix the bug"), Ok(req));
    assert!(manager.is_session_running(1));
    assert!(manager.is_repo_busy(10));
    assert_eq!(manager.get_active_session_for_repo(10), Some(1));
    assert_eq!(manager.get_active_session_for_repo(11), None);
    assert_eq!(manager.active_sessions(), vec![1]);
}

#[test]
fn second_session_on_a_busy_repository_is_refused_before_spawning() {
    let mut manager: RalphManager<u32> = RalphManager::new();
    assert!(manager.run(1, 10, "/repos/a", "p", |_| started(100, 1)).is_ok());
    let mut spawned = false;
    let r = manager.run(2, 10, "/repos/a", "p", |_| {
        spawned = true;
        started(101, 2)
    });
    assert_eq!(r, Err(RalphError::RepoBusy(10)));
    assert!(!spawned);
    assert!(!manager.is_session_running(2));
    assert_eq!(manager.get_active_session_for_repo(10), Some(1));
    assert_eq!(manager.check_run(2, 10), Err(RalphError::RepoBusy(10)));
    assert_eq!(manager.check_run(2, 11), Ok(()));
}

#[test]
fn running_session_is_refused_without_touching_its_process() {
    let mut manager: RalphManager<u32> = RalphManager::new();
    assert!(manager.run(1, 10, "/repos/a", "p", |_| started(100, 77)).is_ok());
    let mut spawned = false;
    let r = manager.run(1, 10, "/repos/a", "again", |_| {
        spawned = true;
        started(101, 78)
    });
    assert_eq!(r, Err(RalphError::SessionAlreadyRunning(1)));
    assert!(!spawned);
    // also when another repository is named
    assert_eq!(
        manager.spawn_finished(1, 11, started(102, 79)),
        Err(RalphError::SessionAlreadyRunning(1))
    );
    assert!(!manager.is_repo_busy(11));
    let plan = manager.cancel(1).unwrap();
    assert_eq!(plan.pid, Some(77));
    let (handle, _) = manager.finish_cancel(&plan);
    assert_eq!(handle.unwrap().child, 100);
}

#[test]
fn failed_spawn_changes_nothing_and_names_the_cause() {
    let mut manager: RalphManager<u32> = RalphManager::new();
    let r = manager.run(1, 10, "/repos/a", "p", |_| Err(SpawnFailure::NotFound));
    assert_eq!(
        r,
        Err(RalphError::NotFound {
            message: "ralph CLI not found in PATH".to_string(),
            help_steps: vec![
                "Install ralph: cargo install ralph".to_string(),
                "Or download from release page".to_string(),
                "Ensure ~/.cargo/bin is in your PATH".to_string(),
                "Restart your terminal after installation".to_string(),
            ],
        })
    );
    assert!(manager.active_sessions().is_empty());
    assert!(!manager.is_repo_busy(10));
    let r = manager.run(1, 10, "/repos/a", "p", |_| {
        Err(SpawnFailure::Other("permission denied".to_string()))
    });
    assert_eq!(r, Err(RalphError::SpawnFailed("permission denied".to_string())));
    assert!(!manager.is_session_running(1));
    assert_eq!(
        RalphManager::<u32>::spawn_failed(SpawnFailure::Other("x".to_string())),
        RalphError::SpawnFailed("x".to_string())
    );
}

#[test]
fn cancel_of_a_session_without_process_is_refused() {
    let mut manager: RalphManager<u32> = RalphManager::new();
    assert_eq!(manager.cancel(5), Err(RalphError::NotRunning(5)));
    assert!(manager.run(1, 10, "/r", "p", |_| started(100, 9)).is_ok());
    assert_eq!(manager.cancel(5), Err(RalphError::NotRunning(5)));
    assert_eq!(manager.active_sessions(), vec![1]);
    assert!(manager.is_repo_busy(10));
}

#[test]
fn cancel_signals_waits_and_releases() {
    let mut manager: RalphManager<u32> = RalphManager::new();
    assert!(manager.run(1, 10, "/r", "p", |_| started(100, 4242)).is_ok());
    let plan = manager.cancel(1).unwrap();
    assert_eq!(
        plan,
        CancelPlan { session_id: 1, repo_id: 10, pid: Some(4242), grace_secs: 5 }
    );
    assert_eq!(CANCEL_GRACE_SECS, 5);
    // still registered after the grace period: force
    assert!(manager.needs_force_stop(&plan));
    let (handle, effects) = manager.finish_cancel(&plan);
    let handle = handle.unwrap();
    assert_eq!((handle.child, handle.pid, handle.repo_id), (100, Some(4242), 10));
    assert_eq!(
        effects,
        vec![
            Effect::PersistStatus { session_id: 1, status: SessionStatus::Cancelled },
            Effect::BroadcastStatus { session_id: 1, status: SessionStatus::Cancelled },
        ]
    );
    assert!(!manager.is_session_running(1));
    assert!(!manager.is_repo_busy(10));
    assert!(!manager.needs_force_stop(&plan));
    assert_eq!(manager.cancel(1), Err(RalphError::NotRunning(1)));
}

#[test]
fn cancel_without_process_id_sends_no_forced_signal() {
    let mut manager: RalphManager<u32> = RalphManager::new();
    assert!(manager.spawn_finished(1, 10, Ok(Spawned { child: 1, pid: None })).is_ok());
    let plan = manager.cancel(1).unwrap();
    assert_eq!(plan.pid, None);
    assert!(!manager.needs_force_stop(&plan));
}

#[test]
fn exit_during_the_grace_period_leaves_the_new_occupant_alone() {
    let mut manager: RalphManager<u32> = RalphManager::new();
    assert!(manager.run(1, 10, "/r", "p", |_| started(100, 1)).is_ok());
    let plan = manager.cancel(1).unwrap();
    // the process exits by itself, and another session takes the repository
    let exited = manager.handle_process_exit(1);
    assert!(exited.is_some());
    // the run ends as cancelled, whatever the exit status was
    let departure = RalphManager::<u32>::departure_from(&exited);
    assert_eq!(departure, Departure::Cancelled);
    assert_eq!(
        RalphManager::<u32>::exit_effects(1, departure, Some(false)),
        RalphManager::<u32>::record_status(1, SessionStatus::Cancelled)
    );
    assert!(manager.run(2, 10, "/r", "p", |_| started(200, 2)).is_ok());
    assert!(!manager.needs_force_stop(&plan));
    // the close of the cancellation finds the run recorded and adds nothing
    let (handle, effects) = manager.finish_cancel(&plan);
    assert!(handle.is_none());
    assert!(effects.is_empty());
    assert!(manager.is_repo_busy(10));
    assert_eq!(manager.get_active_session_for_repo(10), Some(2));
    assert_eq!(manager.run(3, 10, "/r", "p", |_| started(300, 3)), Err(RalphError::RepoBusy(10)));
}

#[test]
fn exit_releases_the_session_and_gives_the_final_status() {
    let mut manager: RalphManager<u32> = RalphManager::new();
    assert!(manager.run(1, 10, "/r", "p", |_| started(100, 1)).is_ok());
    assert!(manager.run(2, 20, "/s", "p", |_| started(200, 2)).is_ok());
    let handle = manager.handle_process_exit(1);
    assert_eq!(RalphManager::<u32>::departure_from(&handle), Departure::Exited);
    let handle = handle.unwrap();
    assert_eq!(handle.child, 100);
    assert_eq!(handle.repo_id, 10);
    assert!(!handle.cancelling);
    assert!(!manager.is_session_running(1));
    assert!(!manager.is_repo_busy(10));
    assert!(manager.is_session_running(2));
    assert!(manager.handle_process_exit(1).is_none());
    assert_eq!(RalphManager::<u32>::final_status(Some(true)), SessionStatus::Completed);
    assert_eq!(RalphManager::<u32>::final_status(Some(false)), SessionStatus::Error);
    assert_eq!(RalphManager::<u32>::final_status(None), SessionStatus::Error);
    assert_eq!(
        RalphManager::<u32>::exit_effects(1, Departure::Exited, Some(true)),
        vec![
            Effect::PersistStatus { session_id: 1, status: SessionStatus::Completed },
            Effect::BroadcastStatus { session_id: 1, status: SessionStatus::Completed },
        ]
    );
    assert_eq!(
        RalphManager::<u32>::exit_effects(1, Departure::Exited, Some(false)),
        RalphManager::<u32>::record_status(1, SessionStatus::Error)
    );
    assert_eq!(
        RalphManager::<u32>::exit_effects(1, Departure::Exited, None),
        RalphManager::<u32>::record_status(1, SessionStatus::Error)
    );
    // the repository can be used again
    assert!(manager.run(3, 10, "/r", "p", |_| started(300, 3)).is_ok());
}

#[test]
fn active_sessions_lists_each_running_session_once() {
    let mut manager: RalphManager<u32> = RalphManager::new();
    for s in 1..=4u128 {
        assert!(manager.run(s, s * 10, "/r", "p", |_| started(1, 1)).is_ok());
    }
    manager.handle_process_exit(3);
    let mut sessions = manager.active_sessions();
    sessions.sort();
    assert_eq!(sessions, vec![1, 2, 4]);
}

#[test]
fn each_line_is_stored_then_sent() {
    assert_eq!(
        RalphManager::<u32>::output_line(1, OutputStream::Stderr, "warning: x"),
        vec![
            Effect::PersistOutput {
                session_id: 1,
                stream: OutputStream::Stderr,
                content: "warning: x".to_string()
            },
            Effect::BroadcastOutput {
                session_id: 1,
                stream: OutputStream::Stderr,
                content: "warning: x".to_string()
            },
        ]
    );
}

#[test]
fn output_is_stored_per_stream_in_emission_order() {
    let lines = vec![
        OutputLine { stream: OutputStream::Stdout, content: "out 1".to_string() },
        OutputLine { stream: OutputStream::Stderr, content: "err 1".to_string() },
        OutputLine { stream: OutputStream::Stdout, content: "out 2".to_string() },
        OutputLine { stream: OutputStream::Stdout, content: "out 3".to_string() },
        OutputLine { stream: OutputStream::Stderr, content: "err 2".to_string() },
    ];
    let effects = RalphManager::<u32>::relay_output(9, &lines);
    assert_eq!(effects.len(), 10);
    let stored = |wanted: OutputStream| -> Vec<String> {
        effects
            .iter()
            .filter_map(|e| match e {
                Effect::PersistOutput { session_id: 9, stream, content } if *stream == wanted => {
                    Some(content.clone())
                }
                _ => None,
            })
            .collect()
    };
    let sent = |wanted: OutputStream| -> Vec<String> {
        effects
            .iter()
            .filter_map(|e| match e {
                Effect::BroadcastOutput { session_id: 9, stream, content } if *stream == wanted => {
                    Some(content.clone())
                }
                _ => None,
            })
            .collect()
    };
    assert_eq!(stored(OutputStream::Stdout), vec!["out 1", "out 2", "out 3"]);
    assert_eq!(stored(OutputStream::Stderr), vec!["err 1", "err 2"]);
    assert_eq!(sent(OutputStream::Stdout), vec!["out 1", "out 2", "out 3"]);
    assert_eq!(sent(OutputStream::Stderr), vec!["err 1", "err 2"]);
    for (i, line) in lines.iter().enumerate() {
        assert_eq!(
            effects[2 * i..2 * i + 2].to_vec(),
            RalphManager::<u32>::output_line(9, line.stream, &line.content)
        );
    }
    assert!(RalphManager::<u32>::relay_output(9, &Vec::new()).is_empty());
}

#[test]
fn errors_print_the_identifier_in_hyphenated_form() {
    let id: u128 = 0xa1a2a3a4b1b2c1c2d1d2d3d4d5d6d7d8;
    assert_eq!(
        RalphError::RepoBusy(id).to_string(),
        "Repository a1a2a3a4-b1b2-c1c2-d1d2-d3d4d5d6d7d8 already has a running ralph process"
    );
    assert_eq!(
        RalphError::SessionAlreadyRunning(1).to_string(),
        "Session 00000000-0000-0000-0000-000000000001 already has a running process"
    );
    assert_eq!(
        RalphError::NotRunning(0x0123456789abcdef0fedcba987654321).to_string(),
        "Session 01234567-89ab-cdef-0fed-cba987654321 has no running process"
    );
    assert_eq!(
        RalphError::SpawnFailed("boom".to_string()).to_string(),
        "Failed to spawn ralph process: boom"
    );
    assert_eq!(
        RalphError::NotFound { message: "ralph CLI not found in PATH".to_string(), help_steps: vec![] }
            .to_string(),
        "ralph CLI not found: ralph CLI not found in PATH"
    );
    let random = uuid::Uuid::new_v4();
    assert_eq!(
        RalphError::RepoBusy(random.as_u128()).to_string(),
        format!("Repository {} already has a running ralph process", random)
    );
}

#[test]
fn recorded_statuses_are_those_of_the_state_machine() {
    let mut manager: RalphManager<u32> = RalphManager::new();
    for before in [
        SessionStatus::Idle,
        SessionStatus::Completed,
        SessionStatus::Error,
        SessionStatus::Cancelled,
    ] {
        assert_eq!(before.on_event(SessionEvent::Run), Some(SessionStatus::Running));
    }
    assert_eq!(manager.run(1, 10, "/r", "p", |_| started(100, 1)), Ok(running_effects(1)));

    let exits = [
        (Some(true), SessionEvent::ExitSuccess),
        (Some(false), SessionEvent::ExitFailure),
        (None, SessionEvent::ExitFailure),
    ];
    for (exit_success, event) in exits {
        assert_eq!(
            SessionStatus::Running.on_event(event),
            Some(RalphManager::<u32>::final_status(exit_success))
        );
    }

    let plan = manager.cancel(1).unwrap();
    let (_, effects) = manager.finish_cancel(&plan);
    let cancelled = SessionStatus::Running.on_event(SessionEvent::Cancel).unwrap();
    assert_eq!(effects, RalphManager::<u32>::record_status(1, cancelled));
}

#[test]
fn exit_after_a_cancellation_records_nothing_more() {
    let mut manager: RalphManager<u32> = RalphManager::new();
    assert!(manager.run(1, 10, "/r", "p", |_| started(100, 1)).is_ok());
    let plan = manager.cancel(1).unwrap();
    assert!(manager.is_cancelling(1));
    assert!(manager.is_session_running(1));
    let (handle, effects) = manager.finish_cancel(&plan);
    assert!(handle.unwrap().cancelling);
    assert_eq!(effects, RalphManager::<u32>::record_status(1, SessionStatus::Cancelled));

    // the output of the killed process ends afterwards
    let late = manager.handle_process_exit(1);
    assert!(late.is_none());
    let departure = RalphManager::<u32>::departure_from(&late);
    assert_eq!(departure, Departure::Gone);
    for exit_success in [Some(true), Some(false), None] {
        assert!(RalphManager::<u32>::exit_effects(1, departure, exit_success).is_empty());
    }
    // a second close of the same cancellation adds nothing either
    let (handle, effects) = manager.finish_cancel(&plan);
    assert!(handle.is_none());
    assert!(effects.is_empty());
}

#[test]
fn a_refused_run_carries_no_command_to_spawn() {
    let mut manager: RalphManager<u32> = RalphManager::new();
    assert!(manager.begin_run(1, 10, "/r", "p").is_ok());
    assert!(manager.run(1, 10, "/r", "p", |_| started(100, 1)).is_ok());
    assert_eq!(manager.begin_run(1, 10, "/r", "p"), Err(RalphError::SessionAlreadyRunning(1)));
    assert_eq!(manager.begin_run(1, 11, "/r", "p"), Err(RalphError::SessionAlreadyRunning(1)));
    assert_eq!(manager.begin_run(2, 10, "/r", "p"), Err(RalphError::RepoBusy(10)));
    let request = manager.begin_run(2, 11, "/s", "q").unwrap();
    assert_eq!(request.working_dir, "/s");
    assert_eq!(request.args, vec!["run", "--autonomous", "--prompt", "q"]);
    // asking changes nothing
    assert_eq!(manager.active_sessions(), vec![1]);
    assert!(!manager.is_repo_busy(11));
}

#[test]
fn a_second_cancel_during_the_grace_period_is_taken() {
    let mut manager: RalphManager<u32> = RalphManager::new();
    assert!(manager.run(1, 10, "/r", "p", |_| started(100, 5)).is_ok());
    assert!(!manager.is_cancelling(1));
    let first = manager.cancel(1).unwrap();
    let second = manager.cancel(1).unwrap();
    assert_eq!(first, second);
    let (handle, effects) = manager.finish_cancel(&first);
    assert!(handle.is_some());
    assert_eq!(effects.len(), 2);
    let (handle, effects) = manager.finish_cancel(&second);
    assert!(handle.is_none());
    assert!(effects.is_empty());
    assert_eq!(manager.cancel(1), Err(RalphError::NotRunning(1)));
}

#[test]
fn a_line_is_its_bytes_without_the_line_ending() {
    let content = |line: &[u8]| {
        let bytes = line.to_vec();
        let n = line_content_len(&bytes);
        String::from_utf8_lossy(&bytes[..n]).to_string()
    };
    assert_eq!(content(b"hello\n"), "hello");
    assert_eq!(content(b"hello\r\n"), "hello");
    assert_eq!(content(b"last line"), "last line");
    assert_eq!(content(b"\n"), "");
    assert_eq!(content(b"\r\n"), "");
    assert_eq!(content(b""), "");
    assert_eq!(content(b"\r"), "\r");
    assert_eq!(content(b"a\rb\n"), "a\rb");
    assert_eq!(content(b"a\r\r\n"), "a\r");
    // bytes that are no UTF-8 do not end the line early
    assert_eq!(line_content_len(&vec![0xff, 0xfe, b'x', b'\n']), 3);
    for line in ["plain", "with\r", "", "x\ty"] {
        let with_ending = format!("{}\n", line);
        assert_eq!(with_ending.lines().next().unwrap_or(""), content(with_ending.as_bytes()));
    }
}
