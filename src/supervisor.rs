//! The per-spawn state machine of the terminal supervisor.
//!
//! The supervisor decides; its caller acts. Each call of `step` takes the
//! answer to the previous action and returns the next action, until an
//! action `Report` ends the spawn and the supervisor is idle again.
use vstd::prelude::*;

verus! {

/// The kinds of failure of a supervised spawn.
#[derive(Clone, Copy, Debug, PartialEq, Eq, Structural)]
pub enum ErrorKind {
    /// The interrupt handler could not be registered.
    OsSignal,
    /// The child could not be created or its program not executed.
    Spawn,
    /// Isolation was asked for and the new session could not be created.
    Session,
    /// The terminal's foreground group could not be read.
    TerminalQuery,
    /// The terminal's foreground group could not be set.
    TerminalSet,
    /// The child could not be reaped.
    Wait,
}

/// A failed spawn: its kind, the OS error number, and the child's exit
/// status where the child had already been reaped.
#[derive(Clone, Copy, Debug, PartialEq, Eq, Structural)]
pub struct SupervisorError {
    pub kind: ErrorKind,
    pub errno: i32,
    pub exit_status: Option<i32>,
}

/// A completed spawn.
#[derive(Clone, Copy, Debug, PartialEq, Eq, Structural)]
pub struct ChildResult {
    pub exit_status: i32,
    /// The foreground group just before the child was launched.
    pub fg_before: i32,
    /// The foreground group just after the child was reaped.
    pub fg_after: i32,
    /// Whether the foreground group had to be handed back to the supervisor.
    pub corrected: bool,
}

/// How the attempt to launch the child ended.
#[derive(Clone, Copy, Debug, PartialEq, Eq, Structural)]
pub enum LaunchOutcome {
    Started { pid: u32 },
    /// The child could not create its new session; its program never ran.
    SessionFailed { errno: i32 },
    ExecFailed { errno: i32 },
}

/// The answer to an action.
#[derive(Clone, Copy, Debug, PartialEq, Eq)]
pub enum Event {
    /// The terminal's foreground group, or the OS error of the query.
    Foreground(Result<i32, i32>),
    Launched(LaunchOutcome),
    /// The child's exit status, or the OS error of the wait.
    Exited(Result<i32, i32>),
    /// The outcome of setting the foreground group.
    ForegroundSet(Result<(), i32>),
}

/// What the caller must do next.
#[derive(Clone, Copy, Debug, PartialEq, Eq)]
pub enum Action {
    /// Read the terminal's foreground group; answer with `Foreground`.
    QueryForeground,
    /// Launch the child; with `new_session`, the child creates a new session
    /// before its program is loaded. Answer with `Launched`.
    Launch { new_session: bool },
    /// Wait for the child to exit; answer with `Exited`.
    WaitChild { pid: u32 },
    /// Make `pgid` the foreground group; `current` is the group last seen in
    /// that place. Answer with `ForegroundSet`.
    SetForeground { pgid: i32, current: i32 },
    /// The spawn is over.
    Report(Result<ChildResult, SupervisorError>),
}

/// Where a spawn stands, with what has been learnt so far.
#[derive(Clone, Copy, Debug, PartialEq, Eq, Structural)]
pub enum Phase {
    Idle,
    Snapshotting { isolate: bool },
    Isolating { fg_before: i32 },
    Executing { fg_before: i32, child: Option<u32> },
    Waited { fg_before: i32, exit_status: i32 },
    Restoring { fg_before: i32, exit_status: i32, fg_after: i32 },
}

/// The supervisor: its own process group and the phase of the spawn in flight.
#[derive(Clone, Copy, Debug)]
pub struct Supervisor {
    pub own_group: i32,
    pub phase: Phase,
}

/// The report of a failed spawn.
pub open spec fn failure(kind: ErrorKind, errno: i32, exit_status: Option<i32>) -> Action {
    Action::Report(Err(SupervisorError { kind, errno, exit_status }))
}

/// Whether the terminal must be handed back after the child: it moved while
/// the child ran, or it is not with the supervisor's own group.
pub open spec fn needs_restore(fg_before: i32, fg_after: i32, own_group: i32) -> bool {
    fg_after != fg_before || fg_after != own_group
}

/// Whether `e` is an answer that the phase waits for.
pub open spec fn accepts_spec(p: Phase, e: Event) -> bool {
    match p {
        Phase::Idle => false,
        Phase::Snapshotting { .. } => e is Foreground,
        Phase::Isolating { .. } => e is Launched,
        Phase::Executing { child, .. } => match child {
            None => e is Launched && !(e->Launched_0 is SessionFailed),
            Some(_) => e is Exited,
        },
        Phase::Waited { .. } => e is Foreground,
        Phase::Restoring { .. } => e is ForegroundSet,
    }
}

/// The transition table: the phase and the action that follow an event.
pub open spec fn next(own: i32, p: Phase, e: Event) -> (Phase, Action) {
    match (p, e) {
        (Phase::Snapshotting { isolate }, Event::Foreground(Ok(g))) => (
            if isolate {
                Phase::Isolating { fg_before: g }
            } else {
                Phase::Executing { fg_before: g, child: None }
            },
            Action::Launch { new_session: isolate },
        ),
        (Phase::Snapshotting { .. }, Event::Foreground(Err(n))) => (
            Phase::Idle,
            failure(ErrorKind::TerminalQuery, n, None),
        ),
        (Phase::Isolating { fg_before }, Event::Launched(LaunchOutcome::Started { pid }))
        | (
            Phase::Executing { fg_before, child: None },
            Event::Launched(LaunchOutcome::Started { pid }),
        ) => (Phase::Executing { fg_before, child: Some(pid) }, Action::WaitChild { pid }),
        (_, Event::Launched(LaunchOutcome::SessionFailed { errno })) => (
            Phase::Idle,
            failure(ErrorKind::Session, errno, None),
        ),
        (_, Event::Launched(LaunchOutcome::ExecFailed { errno })) => (
            Phase::Idle,
            failure(ErrorKind::Spawn, errno, None),
        ),
        (Phase::Executing { fg_before, .. }, Event::Exited(Ok(st))) => (
            Phase::Waited { fg_before, exit_status: st },
            Action::QueryForeground,
        ),
        (Phase::Executing { .. }, Event::Exited(Err(n))) => (
            Phase::Idle,
            failure(ErrorKind::Wait, n, None),
        ),
        (Phase::Waited { fg_before, exit_status }, Event::Foreground(Ok(a))) => if needs_restore(
            fg_before,
            a,
            own,
        ) {
            (
                Phase::Restoring { fg_before, exit_status, fg_after: a },
                Action::SetForeground { pgid: own, current: a },
            )
        } else {
            (
                Phase::Idle,
                Action::Report(
                    Ok(ChildResult { exit_status, fg_before, fg_after: a, corrected: false }),
                ),
            )
        },
        (Phase::Waited { exit_status, .. }, Event::Foreground(Err(n))) => (
            Phase::Idle,
            failure(ErrorKind::TerminalQuery, n, Some(exit_status)),
        ),
        (Phase::Restoring { fg_before, exit_status, fg_after }, Event::ForegroundSet(Ok(_))) => (
            Phase::Idle,
            Action::Report(Ok(ChildResult { exit_status, fg_before, fg_after, corrected: true })),
        ),
        (Phase::Restoring { exit_status, .. }, Event::ForegroundSet(Err(n))) => (
            Phase::Idle,
            failure(ErrorKind::TerminalSet, n, Some(exit_status)),
        ),
        _ => (p, Action::QueryForeground),
    }
}

impl Supervisor {
    pub open spec fn wf(&self) -> bool {
        self.own_group > 0
    }

    /// A supervisor for a process whose own process group is `own_group`.
    pub fn with_group(own_group: i32) -> (r: Supervisor)
        requires
            own_group > 0,
        ensures
            r.wf(),
            r.own_group == own_group,
            r.phase == Phase::Idle,
    {
        Supervisor { own_group, phase: Phase::Idle }
    }

    pub fn is_idle(&self) -> (r: bool)
        ensures
            r == (self.phase == Phase::Idle),
    {
        match self.phase {
            Phase::Idle => true,
            _ => false,
        }
    }

    /// Begins a spawn: the first thing to learn is the foreground group.
    pub fn start(&mut self, isolate: bool) -> (r: Action)
        requires
            old(self).phase == Phase::Idle,
        ensures
            final(self).own_group == old(self).own_group,
            final(self).phase == (Phase::Snapshotting { isolate }),
            r == Action::QueryForeground,
    {
        self.phase = Phase::Snapshotting { isolate };
        Action::QueryForeground
    }

    /// Whether `e` answers the action that the supervisor is waiting on.
    pub fn accepts(&self, e: &Event) -> (r: bool)
        ensures
            r == accepts_spec(self.phase, *e),
    {
        match (self.phase, *e) {
            (Phase::Snapshotting { .. }, Event::Foreground(_)) => true,
            (Phase::Isolating { .. }, Event::Launched(_)) => true,
            (Phase::Executing { child: None, .. }, Event::Launched(o)) => match o {
                LaunchOutcome::SessionFailed { .. } => false,
                _ => true,
            },
            (Phase::Executing { child: Some(_), .. }, Event::Exited(_)) => true,
            (Phase::Waited { .. }, Event::Foreground(_)) => true,
            (Phase::Restoring { .. }, Event::ForegroundSet(_)) => true,
            _ => false,
        }
    }

    /// Takes the answer to the last action and returns the next one.
    pub fn step(&mut self, e: Event) -> (r: Action)
        requires
            accepts_spec(old(self).phase, e),
        ensures
            final(self).own_group == old(self).own_group,
            (final(self).phase, r) == next(old(self).own_group, old(self).phase, e),
    {
        let own = self.own_group;
        let (p, a) = match (self.phase, e) {
            (Phase::Snapshotting { isolate }, Event::Foreground(Ok(g))) => (
                if isolate {
                    Phase::Isolating { fg_before: g }
                } else {
                    Phase::Executing { fg_before: g, child: None }
                },
                Action::Launch { new_session: isolate },
            ),
            (Phase::Snapshotting { .. }, Event::Foreground(Err(n))) => (
                Phase::Idle,
                fail(ErrorKind::TerminalQuery, n, None),
            ),
            (Phase::Isolating { fg_before }, Event::Launched(LaunchOutcome::Started { pid }))
            | (
                Phase::Executing { fg_before, child: None },
                Event::Launched(LaunchOutcome::Started { pid }),
            ) => (Phase::Executing { fg_before, child: Some(pid) }, Action::WaitChild { pid }),
            (_, Event::Launched(LaunchOutcome::SessionFailed { errno })) => (
                Phase::Idle,
                fail(ErrorKind::Session, errno, None),
            ),
            (_, Event::Launched(LaunchOutcome::ExecFailed { errno })) => (
                Phase::Idle,
                fail(ErrorKind::Spawn, errno, None),
            ),
            (Phase::Executing { fg_before, .. }, Event::Exited(Ok(st))) => (
                Phase::Waited { fg_before, exit_status: st },
                Action::QueryForeground,
            ),
            (Phase::Executing { .. }, Event::Exited(Err(n))) => (
                Phase::Idle,
                fail(ErrorKind::Wait, n, None),
            ),
            (Phase::Waited { fg_before, exit_status }, Event::Foreground(Ok(a))) => {
                if a != fg_before || a != own {
                    (
                        Phase::Restoring { fg_before, exit_status, fg_after: a },
                        Action::SetForeground { pgid: own, current: a },
                    )
                } else {
                    (
                        Phase::Idle,
                        Action::Report(
                            Ok(
                                ChildResult {
                                    exit_status,
                                    fg_before,
                                    fg_after: a,
                                    corrected: false,
                                },
                            ),
                        ),
                    )
                }
            },
            (Phase::Waited { exit_status, .. }, Event::Foreground(Err(n))) => (
                Phase::Idle,
                fail(ErrorKind::TerminalQuery, n, Some(exit_status)),
            ),
            (
                Phase::Restoring { fg_before, exit_status, fg_after },
                Event::ForegroundSet(Ok(_)),
            ) => (
                Phase::Idle,
                Action::Report(
                    Ok(ChildResult { exit_status, fg_before, fg_after, corrected: true }),
                ),
            ),
            (Phase::Restoring { exit_status, .. }, Event::ForegroundSet(Err(n))) => (
                Phase::Idle,
                fail(ErrorKind::TerminalSet, n, Some(exit_status)),
            ),
            (p, _) => (p, Action::QueryForeground),
        };
        self.phase = p;
        a
    }
}

/// The exit status that a report carries, where it carries one.
pub open spec fn reported_status(a: Action) -> Option<i32> {
    match a {
        Action::Report(Ok(r)) => Some(r.exit_status),
        Action::Report(Err(e)) => e.exit_status,
        _ => None,
    }
}

/// Every hand-over of the terminal that the supervisor asks for gives it to
/// the supervisor's own group.
pub proof fn lemma_handover_targets_own_group(own: i32, p: Phase, e: Event)
    ensures
        next(own, p, e).1 is SetForeground ==> next(own, p, e).1->pgid == own,
{
}

/// An isolated spawn that runs to its end leaves the terminal with the
/// supervisor's own group, whatever group the child left in the foreground:
/// either the terminal was found there, or it is handed back there and the
/// result says so.
pub proof fn lemma_isolated_spawn_restores(own: i32, fg_before: i32, pid: u32, status: i32, fg_after: i32)
    requires
        own > 0,
    ensures
        ({
            let (p1, a1) = next(own, Phase::Snapshotting { isolate: true }, Event::Foreground(Ok(fg_before)));
            let (p2, a2) = next(own, p1, Event::Launched(LaunchOutcome::Started { pid }));
            let (p3, a3) = next(own, p2, Event::Exited(Ok(status)));
            let (p4, a4) = next(own, p3, Event::Foreground(Ok(fg_after)));
            &&& a1 == Action::Launch { new_session: true }
            &&& a2 == Action::WaitChild { pid }
            &&& a3 == Action::QueryForeground
            &&& fg_after == own && fg_after == fg_before ==> a4 == Action::Report(
                Ok(ChildResult { exit_status: status, fg_before, fg_after, corrected: false }),
            )
            &&& !(fg_after == own && fg_after == fg_before) ==> {
                &&& a4 == Action::SetForeground { pgid: own, current: fg_after }
                &&& next(own, p4, Event::ForegroundSet(Ok(()))) == (
                    Phase::Idle,
                    Action::Report(
                        Ok(ChildResult { exit_status: status, fg_before, fg_after, corrected: true }),
                    ),
                )
            }
        }),
{
}

/// Without isolation, a child that moved the terminal's foreground away
/// from where it was before the spawn is caught after it exits: the
/// supervisor hands the terminal back to its own group and reports the
/// spawn as corrected; a failed hand-back is reported with the exit status.
pub proof fn lemma_plain_spawn_corrects(
    own: i32,
    fg_before: i32,
    pid: u32,
    status: i32,
    fg_after: i32,
    errno: i32,
)
    requires
        own > 0,
        fg_after != fg_before,
    ensures
        ({
            let (p1, a1) = next(own, Phase::Snapshotting { isolate: false }, Event::Foreground(Ok(fg_before)));
            let (p2, a2) = next(own, p1, Event::Launched(LaunchOutcome::Started { pid }));
            let (p3, a3) = next(own, p2, Event::Exited(Ok(status)));
            let (p4, a4) = next(own, p3, Event::Foreground(Ok(fg_after)));
            &&& a1 == Action::Launch { new_session: false }
            &&& a2 == Action::WaitChild { pid }
            &&& a4 == Action::SetForeground { pgid: own, current: fg_after }
            &&& next(own, p4, Event::ForegroundSet(Ok(()))).1 == Action::Report(
                Ok(ChildResult { exit_status: status, fg_before, fg_after, corrected: true }),
            )
            &&& next(own, p4, Event::ForegroundSet(Err(errno))).1 == failure(
                ErrorKind::TerminalSet,
                errno,
                Some(status),
            )
        }),
{
}

/// Once the child has been reaped, every report that ends the spawn, a
/// failure included, carries the child's exit status.
pub proof fn lemma_exit_status_reported(own: i32, p: Phase, e: Event)
    requires
        p is Waited || p is Restoring,
        accepts_spec(p, e),
        next(own, p, e).1 is Report,
    ensures
        p is Waited ==> reported_status(next(own, p, e).1) == Some(p->Waited_exit_status),
        p is Restoring ==> reported_status(next(own, p, e).1) == Some(p->Restoring_exit_status),
{
}

fn fail(kind: ErrorKind, errno: i32, exit_status: Option<i32>) -> (r: Action)
    ensures
        r == failure(kind, errno, exit_status),
{
    Action::Report(Err(SupervisorError { kind, errno, exit_status }))
}

} // verus!
