//! The rhythm of an exporter: a tick every ten seconds, and a window of
//! sixty ticks between one discovery and the next.

use vstd::prelude::*;

verus! {

/// The number of ticks from one discovery to the next.
pub const TICKS_PER_WINDOW: u8 = 60;

/// The seconds between two ticks.
pub const TICK_SECONDS: u64 = 10;

/// The milliseconds for which replies to the discovery probe are awaited.
pub const DISCOVERY_WAIT_MILLIS: u64 = 100;

/// The milliseconds for which the reply to a request is awaited.
pub const RECEIVE_DEADLINE_MILLIS: u64 = 1000;

/// Where the exporter stands in its window.
#[derive(Clone, Copy, Debug, PartialEq, Eq, Structural)]
pub struct Schedule {
    /// The ticks of the current window that are done; always under sixty.
    pub position: u8,
}

/// What to do at one tick, in this order.
#[derive(Clone, Copy, Debug, PartialEq, Eq, Structural)]
pub struct TickPlan {
    /// First open the socket, discover the devices and log in to each.
    pub discover: bool,
    /// Then poll every device that is logged in.
    pub poll: bool,
    /// Last log off from each device and close the socket.
    pub logoff: bool,
}

/// The plan of the tick that follows `position` ticks of a window.
pub open spec fn spec_plan(position: u8) -> TickPlan {
    TickPlan { discover: position == 0, poll: true, logoff: position + 1 >= TICKS_PER_WINDOW }
}

/// The position after the tick that follows `position` ticks of a window.
pub open spec fn spec_advance(position: u8) -> u8 {
    if position + 1 >= TICKS_PER_WINDOW {
        0
    } else {
        (position + 1) as u8
    }
}

/// The position after `n` ticks from the start of a window.
pub open spec fn spec_position_after(n: nat) -> u8
    decreases n,
{
    if n == 0 {
        0
    } else {
        spec_advance(spec_position_after((n - 1) as nat))
    }
}

impl Schedule {
    /// Whether the position lies inside the window.
    pub open spec fn wf(&self) -> bool {
        self.position < TICKS_PER_WINDOW
    }

    /// A schedule at the start of a window: the first tick discovers.
    pub fn new() -> (schedule: Schedule)
        ensures
            schedule.position == 0,
            schedule.wf(),
    {
        Schedule { position: 0 }
    }

    /// Advances by one tick and says what to do at it.
    pub fn on_tick(&mut self) -> (plan: TickPlan)
        ensures
            plan == spec_plan(old(self).position),
            final(self).position == spec_advance(old(self).position),
            final(self).wf(),
    {
        let plan = TickPlan {
            discover: self.position == 0,
            poll: true,
            logoff: self.position >= TICKS_PER_WINDOW - 1,
        };
        if self.position >= TICKS_PER_WINDOW - 1 {
            self.position = 0;
        } else {
            self.position = self.position + 1;
        }
        plan
    }
}

/// After `n` ticks the schedule stands at `n` modulo sixty.
pub proof fn lemma_position_after(n: nat)
    ensures
        spec_position_after(n) == n % 60,
    decreases n,
{
    if n > 0 {
        lemma_position_after((n - 1) as nat);
    }
}

/// Every sixtieth tick of a run, counted from one, ends with the logoff, and
/// the tick after it starts with a discovery; no other tick does either.
pub proof fn lemma_window_boundary(n: nat)
    requires
        n >= 1,
    ensures
        spec_plan(spec_position_after((n - 1) as nat)).logoff == (n % 60 == 0),
        spec_plan(spec_position_after((n - 1) as nat)).discover == (n % 60 == 1),
        spec_plan(spec_position_after((n - 1) as nat)).poll,
{
    lemma_position_after((n - 1) as nat);
}

} // verus!
