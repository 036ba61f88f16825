use minigit_supervisor::coordinator::{
    Command, Coordinator, LaunchPhase, ProbePhase, PORT, PROBE_TIMEOUT_SECS,
};
use minigit_supervisor::launch::{plan_launch, LaunchError};
use minigit_supervisor::locate::Installation;
use minigit_supervisor::probe::{wait_port, ProbeStep};
use minigit_supervisor::status::{navigate_script, status_script};

/// Stands for the handle of a started process.
type Pid = u32;

/// Waits for a port that accepts connections from `opens_at_ms` on, or never.
fn wait_for(port: u16, timeout_secs: u64, opens_at_ms: Option<u128>) -> (bool, u128) {
    let mut step = wait_port(port, timeout_secs);
    loop {
        step = match step {
            ProbeStep::Connect(attempt) => {
                let connected = opens_at_ms.map_or(false, |at| attempt.elapsed_ms() >= at);
                attempt.finished(connected)
            }
            ProbeStep::Sleep(pause) => pause.finished(),
            ProbeStep::Done { ready, waited_ms } => return (ready, waited_ms),
        };
    }
}

/// The status lines among `commands`, in order.
fn status_lines(commands: &[Command]) -> Vec<String> {
    let mut lines = Vec::new();
    for command in commands {
        if let Command::ShowStatus(text) = command {
            lines.push(text.clone());
        }
    }
    lines
}

/// The addresses that `commands` send the page to, in order.
fn navigations(commands: &[Command]) -> Vec<String> {
    let mut urls = Vec::new();
    for command in commands {
        if let Command::Navigate(url) = command {
            urls.push(url.clone());
        }
    }
    urls
}

#[test]
fn fixed_configuration() {
    assert_eq!(PORT, 8082);
    assert_eq!(PROBE_TIMEOUT_SECS, 30);
}

#[test]
fn new_session_is_idle_and_holds_no_handle() {
    let coordinator: Coordinator<Pid> = Coordinator::new(PORT);
    assert_eq!(coordinator.port(), 8082);
    assert_eq!(coordinator.launch_phase(), LaunchPhase::Idle);
    assert_eq!(coordinator.probe_phase(), ProbePhase::Idle);
    assert!(!coordinator.holds_handle());
}

#[test]
fn ui_ready_starts_both_tasks() {
    let mut coordinator: Coordinator<Pid> = Coordinator::new(PORT);
    let commands = coordinator.ui_ready();
    assert_eq!(
        commands,
        vec![
            Command::Maximize,
            Command::ShowStatus("Starting Mini Git Server on port 8082 ...".to_string()),
            Command::StartLaunch { port: 8082 },
            Command::StartProbe { port: 8082, timeout_secs: 30 },
        ]
    );
    assert_eq!(coordinator.launch_phase(), LaunchPhase::Launching);
    assert_eq!(coordinator.probe_phase(), ProbePhase::Probing);
}

#[test]
fn ui_ready_starts_a_session_only_once() {
    let mut coordinator: Coordinator<Pid> = Coordinator::new(PORT);
    coordinator.ui_ready();
    assert_eq!(coordinator.ui_ready(), vec![]);
    assert_eq!(coordinator.launch_phase(), LaunchPhase::Launching);
    assert_eq!(coordinator.probe_phase(), ProbePhase::Probing);
    assert_eq!(coordinator.launch_succeeded(5), None);
    assert_eq!(coordinator.ui_ready(), vec![]);
    assert_eq!(coordinator.launch_phase(), LaunchPhase::Launched);
    assert!(coordinator.holds_handle());
}

#[test]
fn artifact_present_and_port_opens_after_two_seconds() {
    let machine =
        Installation { bundled_jar: true, portable_jar: false, bundled_java: true, windows: false };
    let mut coordinator: Coordinator<Pid> = Coordinator::new(PORT);
    let mut observed: Vec<Command> = Vec::new();

    observed.extend(coordinator.ui_ready());
    assert!(plan_launch(&machine, PORT).is_ok());
    assert_eq!(coordinator.launch_succeeded(4711), None);
    let (ready, waited_ms) = wait_for(PORT, PROBE_TIMEOUT_SECS, Some(2000));
    assert!(ready);
    assert_eq!(waited_ms, 2100);
    observed.extend(coordinator.probe_finished(ready));

    assert_eq!(
        status_lines(&observed),
        vec!["Starting Mini Git Server on port 8082 ...", "Backend is ready, opening..."]
    );
    assert_eq!(navigations(&observed), vec!["http://127.0.0.1:8082/"]);
    assert_eq!(
        observed.last(),
        Some(&Command::Navigate("http://127.0.0.1:8082/".to_string()))
    );
    assert_eq!(coordinator.launch_phase(), LaunchPhase::Launched);
    assert_eq!(coordinator.probe_phase(), ProbePhase::Ready);
    assert!(coordinator.holds_handle());
}

#[test]
fn no_artifact_at_either_path() {
    let machine =
        Installation { bundled_jar: false, portable_jar: false, bundled_java: true, windows: false };
    let mut coordinator: Coordinator<Pid> = Coordinator::new(PORT);
    coordinator.ui_ready();

    let error = plan_launch(&machine, PORT).unwrap_err();
    assert_eq!(error, LaunchError::NotFound);
    let on_failure = coordinator.launch_failed(&error);
    assert_eq!(
        on_failure,
        vec![Command::ShowStatus(
            "Failed to start backend: server.jar not found, please try again or open in external browser."
                .to_string()
        )]
    );
    assert_eq!(coordinator.launch_phase(), LaunchPhase::Failed);
    assert_eq!(coordinator.probe_phase(), ProbePhase::Probing);

    let (ready, waited_ms) = wait_for(PORT, PROBE_TIMEOUT_SECS, None);
    assert!(!ready);
    assert_eq!(waited_ms, 30_000);
    let on_timeout = coordinator.probe_finished(ready);
    assert_eq!(
        on_timeout,
        vec![Command::ShowStatus(
            "Backend did not respond, please try again or open in external browser.".to_string()
        )]
    );
    assert_eq!(coordinator.probe_phase(), ProbePhase::Failed);
    assert!(!coordinator.holds_handle());
}

#[test]
fn artifact_present_and_port_never_opens() {
    let machine =
        Installation { bundled_jar: true, portable_jar: false, bundled_java: false, windows: true };
    let mut coordinator: Coordinator<Pid> = Coordinator::new(PORT);
    let mut observed: Vec<Command> = Vec::new();
    observed.extend(coordinator.ui_ready());
    assert!(plan_launch(&machine, PORT).is_ok());
    assert_eq!(coordinator.launch_succeeded(1), None);

    let (ready, waited_ms) = wait_for(PORT, PROBE_TIMEOUT_SECS, None);
    assert!(!ready);
    assert_eq!(waited_ms, 30_000);
    observed.extend(coordinator.probe_finished(ready));

    assert_eq!(
        status_lines(&observed).last().map(String::as_str),
        Some("Backend did not respond, please try again or open in external browser.")
    );
    assert_eq!(navigations(&observed), Vec::<String>::new());
    assert_eq!(coordinator.probe_phase(), ProbePhase::Failed);
    assert_eq!(coordinator.launch_phase(), LaunchPhase::Launched);
}

#[test]
fn spawn_failure_is_reported_with_the_words_of_the_system() {
    let mut coordinator: Coordinator<Pid> = Coordinator::new(PORT);
    coordinator.ui_ready();
    let error = LaunchError::Spawn("No such file or directory (os error 2)".to_string());
    assert_eq!(
        coordinator.launch_failed(&error),
        vec![Command::ShowStatus(
            "Failed to start backend: No such file or directory (os error 2), please try again or open in external browser."
                .to_string()
        )]
    );
    assert_eq!(coordinator.launch_phase(), LaunchPhase::Failed);
    assert_eq!(coordinator.launch_failed(&error), vec![]);
}

#[test]
fn close_twice_ends_the_process_once() {
    let mut coordinator: Coordinator<Pid> = Coordinator::new(PORT);
    coordinator.ui_ready();
    assert_eq!(coordinator.launch_succeeded(4711), None);
    assert!(coordinator.holds_handle());
    assert_eq!(coordinator.close_requested(), Some(4711));
    assert!(!coordinator.holds_handle());
    assert_eq!(coordinator.close_requested(), None);
    assert_eq!(coordinator.close_requested(), None);
    assert!(!coordinator.holds_handle());
}

#[test]
fn close_without_a_launch_does_nothing() {
    let mut coordinator: Coordinator<Pid> = Coordinator::new(PORT);
    assert_eq!(coordinator.close_requested(), None);
    coordinator.ui_ready();
    assert_eq!(coordinator.close_requested(), None);
    assert_eq!(coordinator.launch_phase(), LaunchPhase::Launching);
    assert_eq!(coordinator.probe_phase(), ProbePhase::Probing);
}

#[test]
fn close_after_a_failed_launch_does_nothing() {
    let mut coordinator: Coordinator<Pid> = Coordinator::new(PORT);
    coordinator.ui_ready();
    coordinator.launch_failed(&LaunchError::NotFound);
    assert_eq!(coordinator.close_requested(), None);
    assert_eq!(coordinator.launch_phase(), LaunchPhase::Failed);
}

#[test]
fn close_leaves_the_tasks_under_way() {
    let mut coordinator: Coordinator<Pid> = Coordinator::new(PORT);
    coordinator.ui_ready();
    assert_eq!(coordinator.close_requested(), None);
    assert_eq!(coordinator.launch_succeeded(9), None);
    assert!(coordinator.holds_handle());
    assert_eq!(
        coordinator.probe_finished(true),
        vec![
            Command::ShowStatus("Backend is ready, opening...".to_string()),
            Command::Navigate("http://127.0.0.1:8082/".to_string()),
        ]
    );
}

#[test]
fn probe_reaches_ready_before_a_slow_launch_reports() {
    let mut coordinator: Coordinator<Pid> = Coordinator::new(PORT);
    coordinator.ui_ready();
    let commands = coordinator.probe_finished(true);
    assert_eq!(
        commands,
        vec![
            Command::ShowStatus("Backend is ready, opening...".to_string()),
            Command::Navigate("http://127.0.0.1:8082/".to_string()),
        ]
    );
    assert_eq!(coordinator.probe_phase(), ProbePhase::Ready);
    assert_eq!(coordinator.launch_phase(), LaunchPhase::Launching);
    assert_eq!(coordinator.launch_succeeded(3), None);
    assert_eq!(coordinator.launch_phase(), LaunchPhase::Launched);
    assert_eq!(coordinator.probe_phase(), ProbePhase::Ready);
    assert_eq!(coordinator.close_requested(), Some(3));
}

#[test]
fn order_of_the_reports_does_not_matter() {
    for ready in [false, true] {
        for launched in [false, true] {
            let mut launch_first: Coordinator<Pid> = Coordinator::new(PORT);
            launch_first.ui_ready();
            let mut probe_first: Coordinator<Pid> = Coordinator::new(PORT);
            probe_first.ui_ready();
            let error = LaunchError::Spawn("refused".to_string());

            let (a_launch, a_probe) = if launched {
                let refused = launch_first.launch_succeeded(1);
                assert_eq!(refused, None);
                (vec![], launch_first.probe_finished(ready))
            } else {
                (launch_first.launch_failed(&error), launch_first.probe_finished(ready))
            };
            let b_probe = probe_first.probe_finished(ready);
            let b_launch = if launched {
                assert_eq!(probe_first.launch_succeeded(1), None);
                vec![]
            } else {
                probe_first.launch_failed(&error)
            };

            assert_eq!(a_launch, b_launch);
            assert_eq!(a_probe, b_probe);
            assert_eq!(launch_first.launch_phase(), probe_first.launch_phase());
            assert_eq!(launch_first.probe_phase(), probe_first.probe_phase());
            assert_eq!(launch_first.holds_handle(), probe_first.holds_handle());
            assert_eq!(launch_first.close_requested(), probe_first.close_requested());
        }
    }
}

#[test]
fn reports_that_are_not_awaited_change_nothing() {
    let mut coordinator: Coordinator<Pid> = Coordinator::new(PORT);
    assert_eq!(coordinator.launch_succeeded(1), Some(1));
    assert_eq!(coordinator.launch_failed(&LaunchError::NotFound), vec![]);
    assert_eq!(coordinator.probe_finished(true), vec![]);
    assert_eq!(coordinator.launch_phase(), LaunchPhase::Idle);
    assert_eq!(coordinator.probe_phase(), ProbePhase::Idle);
    assert!(!coordinator.holds_handle());

    coordinator.ui_ready();
    assert_eq!(coordinator.launch_succeeded(1), None);
    assert_eq!(coordinator.launch_succeeded(2), Some(2));
    assert_eq!(coordinator.launch_failed(&LaunchError::NotFound), vec![]);
    assert_eq!(coordinator.launch_phase(), LaunchPhase::Launched);
    assert_eq!(coordinator.probe_finished(false).len(), 1);
    assert_eq!(coordinator.probe_finished(true), vec![]);
    assert_eq!(coordinator.probe_phase(), ProbePhase::Failed);
    assert_eq!(coordinator.close_requested(), Some(1));
}

#[test]
fn handle_is_any_type_the_caller_chooses() {
    let mut coordinator: Coordinator<String> = Coordinator::new(9000);
    let commands = coordinator.ui_ready();
    assert_eq!(commands[2], Command::StartLaunch { port: 9000 });
    assert_eq!(commands[3], Command::StartProbe { port: 9000, timeout_secs: 30 });
    assert_eq!(coordinator.launch_succeeded("child".to_string()), None);
    assert_eq!(coordinator.close_requested(), Some("child".to_string()));
}

#[test]
fn commands_of_a_session_become_scripts_for_the_page() {
    let mut coordinator: Coordinator<Pid> = Coordinator::new(PORT);
    coordinator.ui_ready();
    let mut scripts: Vec<String> = Vec::new();
    for command in coordinator.probe_finished(true) {
        match command {
            Command::ShowStatus(text) => scripts.push(status_script(&text)),
            Command::Navigate(url) => scripts.push(navigate_script(&url)),
            other => panic!("unexpected command {:?}", other),
        }
    }
    assert_eq!(
        scripts,
        vec![
            "var s=document.querySelector('#status'); if(s) s.innerText='Backend is ready, opening...';",
            "window.location.replace('http://127.0.0.1:8082/');",
        ]
    );
}

/// A page that is gone: it takes no script.
fn torn_down_page(_script: &str) -> Result<(), String> {
    Err("the window is closed".to_string())
}

#[test]
fn failed_delivery_does_not_disturb_the_session() {
    let mut coordinator: Coordinator<Pid> = Coordinator::new(PORT);
    let mut refused_scripts: usize = 0;
    let mut deliver = |commands: Vec<Command>| {
        for command in commands {
            if let Some(script) = command.script() {
                if torn_down_page(&script).is_err() {
                    refused_scripts += 1;
                }
            }
        }
    };

    deliver(coordinator.ui_ready());
    assert_eq!(coordinator.launch_phase(), LaunchPhase::Launching);
    assert_eq!(coordinator.probe_phase(), ProbePhase::Probing);
    assert_eq!(coordinator.launch_succeeded(4711), None);
    deliver(coordinator.probe_finished(true));
    assert_eq!(coordinator.probe_phase(), ProbePhase::Ready);
    assert_eq!(coordinator.launch_phase(), LaunchPhase::Launched);
    assert_eq!(coordinator.close_requested(), Some(4711));
    assert_eq!(refused_scripts, 3);
}

#[test]
fn only_status_and_navigation_have_a_script() {
    assert_eq!(Command::Maximize.script(), None);
    assert_eq!(Command::StartLaunch { port: 8082 }.script(), None);
    assert_eq!(Command::StartProbe { port: 8082, timeout_secs: 30 }.script(), None);
    assert_eq!(
        Command::ShowStatus("it's ready".to_string()).script(),
        Some("var s=document.querySelector('#status'); if(s) s.innerText='it\\'s ready';".to_string())
    );
    assert_eq!(
        Command::Navigate("http://127.0.0.1:8082/".to_string()).script(),
        Some("window.location.replace('http://127.0.0.1:8082/');".to_string())
    );
}

#[test]
fn each_failure_is_told_in_one_line_with_a_remedy() {
    let mut coordinator: Coordinator<Pid> = Coordinator::new(PORT);
    coordinator.ui_ready();
    let mut told: Vec<Command> = Vec::new();
    told.extend(coordinator.launch_failed(&LaunchError::Spawn("Access is denied. (os error 5)".to_string())));
    told.extend(coordinator.probe_finished(false));
    told.extend(coordinator.launch_failed(&LaunchError::NotFound));
    told.extend(coordinator.probe_finished(false));
    assert_eq!(
        status_lines(&told),
        vec![
            "Failed to start backend: Access is denied. (os error 5), please try again or open in external browser.",
            "Backend did not respond, please try again or open in external browser.",
        ]
    );
    assert_eq!(told.len(), 2);
    for line in status_lines(&told) {
        assert!(line.ends_with("please try again or open in external browser."));
    }
}
