//! What the process does when the terminal interrupt signal arrives.
use vstd::prelude::*;

verus! {

/// Whether an interrupt ends the whole process or is only counted.
#[derive(Clone, Copy, Debug, PartialEq, Eq, Structural)]
pub enum InterruptPolicy {
    /// End the process at once with this exit code.
    Terminate { exit_code: i32 },
    /// Count the interrupt and carry on.
    Record,
}

/// What the signal handler must do for one interrupt.
#[derive(Clone, Copy, Debug, PartialEq, Eq, Structural)]
pub enum InterruptResponse {
    Exit { code: i32 },
    Continue,
}

/// The response that a policy prescribes for every interrupt.
pub open spec fn response_for(p: InterruptPolicy) -> InterruptResponse {
    match p {
        InterruptPolicy::Terminate { exit_code } => InterruptResponse::Exit { code: exit_code },
        InterruptPolicy::Record => InterruptResponse::Continue,
    }
}

/// The process-wide interrupt state: the policy and how many interrupts
/// the handler has seen.
#[derive(Clone, Copy, Debug)]
pub struct InterruptLog {
    pub policy: InterruptPolicy,
    pub received: u64,
}

impl InterruptLog {
    pub fn new(policy: InterruptPolicy) -> (r: InterruptLog)
        ensures
            r.policy == policy,
            r.received == 0,
    {
        InterruptLog { policy, received: 0 }
    }

    /// Handles one delivered interrupt: counts it exactly once and returns
    /// what the policy prescribes.
    pub fn on_interrupt(&mut self) -> (r: InterruptResponse)
        requires
            old(self).received < u64::MAX,
        ensures
            final(self).received == old(self).received + 1,
            final(self).policy == old(self).policy,
            r == response_for(old(self).policy),
    {
        self.received = self.received + 1;
        match self.policy {
            InterruptPolicy::Terminate { exit_code } => InterruptResponse::Exit { code: exit_code },
            InterruptPolicy::Record => InterruptResponse::Continue,
        }
    }

    /// Whether another interrupt can still be counted.
    pub fn can_record(&self) -> (r: bool)
        ensures
            r == (self.received < u64::MAX),
    {
        self.received < u64::MAX
    }
}

} // verus!
