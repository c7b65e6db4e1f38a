//! The controlling terminal's foreground process group, reached through
//! standard input, and the terminal actions of the supervisor.
use vstd::prelude::*;
use crate::supervisor::{Action, Event};

verus! {

/// Relies on rustix::termios::tcgetpgrp on standard input: on success a
/// `Pid`, which holds a non-zero integer.
#[verifier::external_body]
fn tcgetpgrp_stdin() -> (r: Result<i32, i32>)
    ensures
        r is Ok ==> r->Ok_0 != 0,
{
    match rustix::termios::tcgetpgrp(rustix::stdio::stdin()) {
        Ok(pid) => Ok(pid.as_raw_nonzero().get()),
        Err(e) => Err(e.raw_os_error()),
    }
}

/// Relies on rustix::termios::tcsetpgrp on standard input, with the group
/// turned into a `Pid` by rustix::process::Pid::from_raw, which accepts
/// every positive integer.
#[verifier::external_body]
fn tcsetpgrp_stdin(pgid: i32) -> (r: Result<(), i32>)
    requires
        pgid > 0,
{
    match rustix::process::Pid::from_raw(pgid) {
        Some(pid) => match rustix::termios::tcsetpgrp(rustix::stdio::stdin(), pid) {
            Ok(()) => Ok(()),
            Err(e) => Err(e.raw_os_error()),
        },
        None => Err(rustix::io::Errno::INVAL.raw_os_error()),
    }
}

/// Reads the terminal's foreground group.
pub fn query_foreground() -> (e: Event)
    ensures
        e is Foreground,
        e->Foreground_0 is Ok ==> e->Foreground_0->Ok_0 != 0,
{
    Event::Foreground(tcgetpgrp_stdin())
}

/// Makes `pgid` the foreground group, where `current` is the group that
/// holds that place now. Setting the group already in effect is a no-op
/// that cannot fail.
pub fn set_foreground(pgid: i32, current: i32) -> (r: Result<(), i32>)
    requires
        pgid > 0,
    ensures
        pgid == current ==> r == Ok::<(), i32>(()),
{
    if pgid == current {
        Ok(())
    } else {
        tcsetpgrp_stdin(pgid)
    }
}

/// Carries out the actions that concern the terminal and returns their
/// answer; the others (launching and waiting) are left to the caller.
pub fn perform(a: &Action) -> (r: Option<Event>)
    requires
        a is SetForeground ==> a->pgid > 0,
    ensures
        a is QueryForeground ==> r is Some && r->0 is Foreground,
        a is SetForeground ==> r is Some && r->0 is ForegroundSet && (a->pgid == a->current
            ==> r->0->ForegroundSet_0 == Ok::<(), i32>(())),
        !(a is QueryForeground || a is SetForeground) ==> r is None,
{
    match a {
        Action::QueryForeground => Some(query_foreground()),
        Action::SetForeground { pgid, current } => Some(
            Event::ForegroundSet(set_foreground(*pgid, *current)),
        ),
        _ => None,
    }
}

} // verus!
