use vstd::prelude::*;

verus! {

/// The error returned when a proxy tries to wake up an event loop that no longer exists.
#[derive(Clone, Copy, Debug, PartialEq, Eq, Hash, Structural)]
pub struct EventsLoopClosed;

impl EventsLoopClosed {
    /// The error's message.
    pub fn description(&self) -> (r: String)
        ensures
            r@ == "Tried to wake up a closed `EventsLoop`"@,
    {
        String::from_str("Tried to wake up a closed `EventsLoop`")
    }
}

/// What an event loop shares with its proxies: whether the loop has been torn down, and
/// whether a wakeup is pending. Pending wakeups are not counted: several before one
/// drain give one `Awakened` event.
#[derive(Clone, Copy, Debug, PartialEq, Eq, Structural)]
pub struct WakeupState {
    pub closed: bool,
    pub pending: bool,
}

/// What a wakeup request reports on a state.
pub open spec fn wakeup_result(s: WakeupState) -> Result<(), EventsLoopClosed> {
    if s.closed { Err(EventsLoopClosed) } else { Ok(()) }
}

/// The state after a wakeup request.
pub open spec fn woken(s: WakeupState) -> WakeupState {
    if s.closed { s } else { WakeupState { pending: true, ..s } }
}

/// The state after the loop was torn down.
pub open spec fn closed_state(s: WakeupState) -> WakeupState {
    WakeupState { closed: true, pending: false }
}

impl WakeupState {
    /// The state of a live loop with no pending wakeup.
    pub fn new() -> (r: WakeupState)
        ensures
            !r.closed,
            !r.pending,
    {
        WakeupState { closed: false, pending: false }
    }

    /// Asks the loop to wake up. Fails with `EventsLoopClosed`, changing nothing, when the
    /// loop has been torn down; otherwise a wakeup is pending.
    pub fn wakeup(&mut self) -> (r: Result<(), EventsLoopClosed>)
        ensures
            r == wakeup_result(*old(self)),
            *final(self) == woken(*old(self)),
    {
        if self.closed {
            Err(EventsLoopClosed)
        } else {
            self.pending = true;
            Ok(())
        }
    }

    /// Takes the pending wakeup: returns whether one was pending, and clears it.
    pub fn take_pending(&mut self) -> (r: bool)
        ensures
            r == old(self).pending,
            !final(self).pending,
            final(self).closed == old(self).closed,
    {
        let r = self.pending;
        self.pending = false;
        r
    }

    /// Marks the loop as torn down.
    pub fn close(&mut self)
        ensures
            *final(self) == closed_state(*old(self)),
    {
        self.closed = true;
        self.pending = false;
    }
}

/// Once the loop is torn down, every wakeup request fails with `EventsLoopClosed` and
/// leaves the state as it is, however many come.
pub proof fn lemma_closed_loop_rejects_wakeup(s: WakeupState)
    ensures
        wakeup_result(closed_state(s)) == Err::<(), EventsLoopClosed>(EventsLoopClosed),
        woken(closed_state(s)) == closed_state(s),
        !woken(closed_state(s)).pending,
{
}

/// On a live loop a wakeup request succeeds and leaves a wakeup pending.
pub proof fn lemma_live_loop_accepts_wakeup(s: WakeupState)
    requires
        !s.closed,
    ensures
        wakeup_result(s) == Ok::<(), EventsLoopClosed>(()),
        woken(s).pending,
        woken(woken(s)) == woken(s),
{
}

} // verus!
