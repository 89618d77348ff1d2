use vstd::prelude::*;
use crate::types::{LogicalSize, WindowId};

verus! {

/// Returned by the callback given to `run_forever`: whether the loop goes on.
#[derive(Clone, Copy, Debug, PartialEq, Eq, Structural)]
pub enum ControlFlow {
    /// Continue looping and waiting for events.
    Continue,
    /// Break from the event loop.
    Break,
}

/// An event that concerns one window.
#[derive(Clone, Copy, Debug, PartialEq, Eq, Structural)]
pub enum WindowEvent {
    /// The window was resized to the given logical size.
    Resized(LogicalSize),
    /// The window's scale factor changed.
    HiDpiFactorChanged(i32),
    /// The window's content must be redrawn.
    Refresh,
    /// The user asked to close the window.
    CloseRequested,
    /// The window was torn down.
    Destroyed,
}

/// An event handed to the application.
#[derive(Clone, Copy, Debug, PartialEq, Eq, Structural)]
pub enum Event {
    WindowEvent { window_id: WindowId, event: WindowEvent },
    /// The loop was woken by a proxy.
    Awakened,
}

/// Hands each event of `events` to `callback`, in order, until it returns `Break`.
/// Returns how the last call ended and how many events were handed over: every event
/// before the last one handed over was answered `Continue`, and the last one `Break`
/// when the result is `Break`; on `Continue` every event was handed over.
pub fn deliver_until_break<F: FnMut(Event) -> ControlFlow>(events: &Vec<Event>, callback: &mut F) -> (r: (ControlFlow, usize))
    requires
        forall|e: Event| #[trigger] call_requires(*old(callback), (e,)),
    ensures
        r.1 <= events@.len(),
        r.0 == ControlFlow::Continue ==> r.1 == events@.len(),
        r.0 == ControlFlow::Break ==> r.1 >= 1,
        forall|k: int| 0 <= k < r.1 - 1 ==> call_ensures(*old(callback), (#[trigger] events@[k],), ControlFlow::Continue),
        r.0 == ControlFlow::Continue ==> forall|k: int| 0 <= k < r.1 ==> call_ensures(*old(callback), (#[trigger] events@[k],), ControlFlow::Continue),
        r.0 == ControlFlow::Break ==> call_ensures(*old(callback), (events@[r.1 - 1],), ControlFlow::Break),
{
    let mut i: usize = 0;
    while i < events.len()
        invariant
            0 <= i <= events@.len(),
            forall|e: Event| #[trigger] call_requires(*old(callback), (e,)),
            *callback == *old(callback),
            forall|k: int| 0 <= k < i ==> call_ensures(*old(callback), (#[trigger] events@[k],), ControlFlow::Continue),
        decreases events@.len() - i,
    {
        let flow = callback(events[i]);
        i += 1;
        if flow == ControlFlow::Break {
            return (ControlFlow::Break, i);
        }
    }
    (ControlFlow::Continue, i)
}

} // verus!
