use termsup::supervisor::{
    Action, ChildResult, ErrorKind, Event, LaunchOutcome, Phase, Supervisor, SupervisorError,
};

const OWN: i32 = 4200;

fn started(pid: u32) -> Event {
    Event::Launched(LaunchOutcome::Started { pid })
}

#[test]
fn shell_exiting_at_once_needs_no_correction() {
    let mut s = Supervisor::with_group(OWN);
    assert_eq!(s.start(false), Action::QueryForeground);
    assert_eq!(s.step(Event::Foreground(Ok(OWN))), Action::Launch { new_session: false });
    assert_eq!(s.step(started(77)), Action::WaitChild { pid: 77 });
    assert_eq!(s.step(Event::Exited(Ok(0))), Action::QueryForeground);
    let r = s.step(Event::Foreground(Ok(OWN)));
    assert_eq!(
        r,
        Action::Report(Ok(ChildResult { exit_status: 0, fg_before: OWN, fg_after: OWN, corrected: false }))
    );
    assert!(s.is_idle());
}

#[test]
fn shell_claiming_terminal_is_corrected() {
    let mut s = Supervisor::with_group(OWN);
    s.start(false);
    s.step(Event::Foreground(Ok(OWN)));
    s.step(started(77));
    s.step(Event::Exited(Ok(0)));
    let r = s.step(Event::Foreground(Ok(77)));
    assert_eq!(r, Action::SetForeground { pgid: OWN, current: 77 });
    let r = s.step(Event::ForegroundSet(Ok(())));
    assert_eq!(
        r,
        Action::Report(Ok(ChildResult { exit_status: 0, fg_before: OWN, fg_after: 77, corrected: true }))
    );
    assert!(s.is_idle());
}

#[test]
fn isolation_from_session_leader_fails_without_running_child() {
    let mut s = Supervisor::with_group(OWN);
    s.start(true);
    assert_eq!(s.step(Event::Foreground(Ok(OWN))), Action::Launch { new_session: true });
    assert_eq!(s.phase, Phase::Isolating { fg_before: OWN });
    let r = s.step(Event::Launched(LaunchOutcome::SessionFailed { errno: 1 }));
    assert_eq!(
        r,
        Action::Report(Err(SupervisorError { kind: ErrorKind::Session, errno: 1, exit_status: None }))
    );
    assert!(s.is_idle());
}

#[test]
fn isolated_spawn_hands_terminal_back_to_own_group() {
    let mut s = Supervisor::with_group(OWN);
    s.start(true);
    s.step(Event::Foreground(Ok(OWN)));
    assert_eq!(s.step(started(90)), Action::WaitChild { pid: 90 });
    s.step(Event::Exited(Ok(3)));
    assert_eq!(s.step(Event::Foreground(Ok(90))), Action::SetForeground { pgid: OWN, current: 90 });
    assert_eq!(
        s.step(Event::ForegroundSet(Ok(()))),
        Action::Report(Ok(ChildResult { exit_status: 3, fg_before: OWN, fg_after: 90, corrected: true }))
    );
}

#[test]
fn supervisor_out_of_foreground_takes_it_back() {
    let mut s = Supervisor::with_group(OWN);
    s.start(true);
    s.step(Event::Foreground(Ok(500)));
    s.step(started(91));
    s.step(Event::Exited(Ok(0)));
    assert_eq!(s.step(Event::Foreground(Ok(500))), Action::SetForeground { pgid: OWN, current: 500 });
}

#[test]
fn failed_restoration_keeps_exit_status() {
    let mut s = Supervisor::with_group(OWN);
    s.start(false);
    s.step(Event::Foreground(Ok(OWN)));
    s.step(started(12));
    s.step(Event::Exited(Ok(130)));
    s.step(Event::Foreground(Ok(12)));
    let r = s.step(Event::ForegroundSet(Err(25)));
    assert_eq!(
        r,
        Action::Report(Err(SupervisorError { kind: ErrorKind::TerminalSet, errno: 25, exit_status: Some(130) }))
    );
}

#[test]
fn failed_second_query_keeps_exit_status() {
    let mut s = Supervisor::with_group(OWN);
    s.start(false);
    s.step(Event::Foreground(Ok(OWN)));
    s.step(started(12));
    s.step(Event::Exited(Ok(7)));
    let r = s.step(Event::Foreground(Err(5)));
    assert_eq!(
        r,
        Action::Report(Err(SupervisorError { kind: ErrorKind::TerminalQuery, errno: 5, exit_status: Some(7) }))
    );
}

#[test]
fn failed_first_query_reports_terminal_error() {
    let mut s = Supervisor::with_group(OWN);
    s.start(true);
    let r = s.step(Event::Foreground(Err(25)));
    assert_eq!(
        r,
        Action::Report(Err(SupervisorError { kind: ErrorKind::TerminalQuery, errno: 25, exit_status: None }))
    );
    assert!(s.is_idle());
}

#[test]
fn exec_failure_reports_spawn_error() {
    let mut s = Supervisor::with_group(OWN);
    s.start(false);
    s.step(Event::Foreground(Ok(OWN)));
    let r = s.step(Event::Launched(LaunchOutcome::ExecFailed { errno: 2 }));
    assert_eq!(
        r,
        Action::Report(Err(SupervisorError { kind: ErrorKind::Spawn, errno: 2, exit_status: None }))
    );
}

#[test]
fn wait_failure_reports_wait_error() {
    let mut s = Supervisor::with_group(OWN);
    s.start(false);
    s.step(Event::Foreground(Ok(OWN)));
    s.step(started(5));
    let r = s.step(Event::Exited(Err(10)));
    assert_eq!(
        r,
        Action::Report(Err(SupervisorError { kind: ErrorKind::Wait, errno: 10, exit_status: None }))
    );
}

#[test]
fn accepts_only_the_awaited_answer() {
    let mut s = Supervisor::with_group(OWN);
    assert!(!s.accepts(&Event::Foreground(Ok(OWN))));
    s.start(false);
    assert!(s.accepts(&Event::Foreground(Ok(OWN))));
    assert!(!s.accepts(&started(3)));
    s.step(Event::Foreground(Ok(OWN)));
    assert!(s.accepts(&started(3)));
    assert!(!s.accepts(&Event::Launched(LaunchOutcome::SessionFailed { errno: 1 })));
    s.step(started(3));
    assert!(s.accepts(&Event::Exited(Ok(0))));
    assert!(!s.accepts(&Event::ForegroundSet(Ok(()))));
}

#[test]
fn supervisor_spans_several_spawns() {
    let mut s = Supervisor::with_group(OWN);
    for pid in [10u32, 11u32] {
        s.start(true);
        s.step(Event::Foreground(Ok(OWN)));
        s.step(started(pid));
        s.step(Event::Exited(Ok(0)));
        let r = s.step(Event::Foreground(Ok(OWN)));
        assert!(matches!(r, Action::Report(Ok(ChildResult { corrected: false, .. }))));
        assert!(s.is_idle());
    }
}
