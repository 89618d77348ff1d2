use vstd::prelude::*;
use crate::events::{deliver_until_break, ControlFlow, Event, WindowEvent};
use crate::monitor::MonitorId;
use crate::proxy::{wakeup_result, woken, WakeupState};
use crate::store::{change_matching, killed_ids, Change, settled, snapshot, survivors, WindowRecord, WindowStore, WindowUpdate};
use crate::types::{LogicalSize, WindowId};

verus! {

/// Work on a window's decoration frame that the drain pass decided and that the native
/// side carries out.
#[derive(Clone, Copy, Debug, PartialEq, Eq, Structural)]
pub enum FrameAction {
    /// Resize the frame to the given size, then redraw it.
    Resize { window_id: WindowId, width: u32, height: u32 },
    /// Redraw the frame; commit the surface too when the content is not redrawn anyway.
    Refresh { window_id: WindowId, commit: bool },
    /// Destroy the native surface of a window that was torn down.
    Destroy { window_id: WindowId },
}

pub open spec fn window_event(wid: WindowId, e: WindowEvent) -> Event {
    Event::WindowEvent { window_id: wid, event: e }
}

/// The events of one window's drain snapshot, in their fixed order: resize, scale
/// factor, redraw, close.
pub open spec fn update_events(u: WindowUpdate) -> Seq<Event> {
    let resized = match u.newsize {
        Some(sz) => if u.frame_alive {
            seq![window_event(u.wid, WindowEvent::Resized(LogicalSize { width: sz.0, height: sz.1 }))]
        } else {
            Seq::empty()
        },
        None => Seq::empty(),
    };
    let dpi = match u.new_dpi {
        Some(d) => seq![window_event(u.wid, WindowEvent::HiDpiFactorChanged(d))],
        None => Seq::empty(),
    };
    let refresh = if u.refresh { seq![window_event(u.wid, WindowEvent::Refresh)] } else { Seq::empty() };
    let closed = if u.closed { seq![window_event(u.wid, WindowEvent::CloseRequested)] } else { Seq::empty() };
    resized + dpi + refresh + closed
}

/// The frame work of one window's drain snapshot.
pub open spec fn update_actions(u: WindowUpdate) -> Seq<FrameAction> {
    if !u.frame_alive {
        Seq::empty()
    } else {
        match u.newsize {
            Some(sz) => seq![FrameAction::Resize { window_id: u.wid, width: sz.0, height: sz.1 }],
            None => if u.frame_refresh {
                seq![FrameAction::Refresh { window_id: u.wid, commit: !u.refresh }]
            } else {
                Seq::empty()
            },
        }
    }
}

/// The events of a whole drain pass, window after window.
pub open spec fn all_update_events(us: Seq<WindowUpdate>) -> Seq<Event>
    decreases us.len(),
{
    if us.len() == 0 {
        Seq::empty()
    } else {
        all_update_events(us.drop_last()) + update_events(us.last())
    }
}

pub open spec fn all_update_actions(us: Seq<WindowUpdate>) -> Seq<FrameAction>
    decreases us.len(),
{
    if us.len() == 0 {
        Seq::empty()
    } else {
        all_update_actions(us.drop_last()) + update_actions(us.last())
    }
}

pub open spec fn destroyed_events(ids: Seq<WindowId>) -> Seq<Event> {
    ids.map_values(|id: WindowId| window_event(id, WindowEvent::Destroyed))
}

pub open spec fn destroy_actions(ids: Seq<WindowId>) -> Seq<FrameAction> {
    ids.map_values(|id: WindowId| FrameAction::Destroy { window_id: id })
}

/// The records that the drain pass visits: those left after the cleanup pass, when one
/// is due.
pub open spec fn pruned(s: Seq<WindowRecord>, cleanup_needed: bool) -> Seq<WindowRecord> {
    if cleanup_needed { survivors(s) } else { s }
}

pub open spec fn pruned_ids(s: Seq<WindowRecord>, cleanup_needed: bool) -> Seq<WindowId> {
    if cleanup_needed { killed_ids(s) } else { Seq::empty() }
}

pub open spec fn snapshots(s: Seq<WindowRecord>) -> Seq<WindowUpdate> {
    s.map_values(|w: WindowRecord| snapshot(w))
}

/// The events that one pass of the loop's triggers produces: a wakeup, then the
/// windows torn down, then each remaining window's pending state.
pub open spec fn trigger_events(s: Seq<WindowRecord>, cleanup_needed: bool, awakened: bool) -> Seq<Event> {
    (if awakened { seq![Event::Awakened] } else { Seq::empty() })
        + destroyed_events(pruned_ids(s, cleanup_needed))
        + all_update_events(snapshots(pruned(s, cleanup_needed)))
}

/// The events that one pass of the loop hands to the application, in order: those
/// already queued, then those of the triggers.
pub open spec fn pass_events(l: EventsLoop, awakened: bool) -> Seq<Event> {
    l.sink@ + trigger_events(l.store@, l.cleanup_needed, awakened)
}

/// `callback` answers the first `n - 1` events of `evs` with `Continue` and the `n`-th
/// with `Break`.
pub open spec fn breaks_at<F: FnMut(Event) -> ControlFlow>(callback: F, evs: Seq<Event>, n: int) -> bool {
    &&& 1 <= n <= evs.len()
    &&& call_ensures(callback, (evs[n - 1],), ControlFlow::Break)
    &&& forall|k: int| 0 <= k < n - 1 ==> call_ensures(callback, (#[trigger] evs[k],), ControlFlow::Continue)
}

/// The frame work that one pass of the loop's triggers produces.
pub open spec fn trigger_actions(s: Seq<WindowRecord>, cleanup_needed: bool) -> Seq<FrameAction> {
    destroy_actions(pruned_ids(s, cleanup_needed)) + all_update_actions(snapshots(pruned(s, cleanup_needed)))
}

fn push_update(events: &mut Vec<Event>, actions: &mut Vec<FrameAction>, u: WindowUpdate)
    ensures
        final(events)@ == old(events)@ + update_events(u),
        final(actions)@ == old(actions)@ + update_actions(u),
{
    let ghost e0 = events@;
    let ghost a0 = actions@;
    if u.frame_alive {
        match u.newsize {
            Some(sz) => {
                actions.push(FrameAction::Resize { window_id: u.wid, width: sz.0, height: sz.1 });
                events.push(Event::WindowEvent {
                    window_id: u.wid,
                    event: WindowEvent::Resized(LogicalSize { width: sz.0, height: sz.1 }),
                });
            },
            None => {
                if u.frame_refresh {
                    actions.push(FrameAction::Refresh { window_id: u.wid, commit: !u.refresh });
                }
            },
        }
    }
    let ghost e1 = events@;
    if let Some(d) = u.new_dpi {
        events.push(Event::WindowEvent { window_id: u.wid, event: WindowEvent::HiDpiFactorChanged(d) });
    }
    let ghost e2 = events@;
    if u.refresh {
        events.push(Event::WindowEvent { window_id: u.wid, event: WindowEvent::Refresh });
    }
    let ghost e3 = events@;
    if u.closed {
        events.push(Event::WindowEvent { window_id: u.wid, event: WindowEvent::CloseRequested });
    }
    proof {
        let ue = update_events(u);
        assert(actions@ =~= a0 + update_actions(u));
        assert(events@ =~= e0 + ue);
    }
}

/// The event loop's own state: the window table, the cached table of outputs, whether a
/// window asked to be torn down since the last cleanup pass, and the events produced
/// and not yet handed to the application.
pub struct EventsLoop {
    pub store: WindowStore,
    pub outputs: Vec<MonitorId>,
    pub cleanup_needed: bool,
    pub sink: Vec<Event>,
}

impl EventsLoop {
    /// A loop with no window, no known output and no pending event.
    pub fn new() -> (r: EventsLoop)
        ensures
            r.store@ == Seq::<WindowRecord>::empty(),
            r.store.wf(),
            r.outputs@ == Seq::<MonitorId>::empty(),
            !r.cleanup_needed,
            r.sink@ == Seq::<Event>::empty(),
    {
        EventsLoop { store: WindowStore::new(), outputs: Vec::new(), cleanup_needed: false, sink: Vec::new() }
    }

    /// Runs the loop's triggers once: emits `Awakened` when a proxy woke the loop,
    /// prunes the windows that asked to be torn down (when one did), then drains the
    /// window table. The events go to the sink, after those already there; the frame
    /// work is returned.
    pub fn post_dispatch_triggers(&mut self, awakened: bool) -> (r: Vec<FrameAction>)
        ensures
            final(self).sink@ == old(self).sink@ + trigger_events(old(self).store@, old(self).cleanup_needed, awakened),
            r@ == trigger_actions(old(self).store@, old(self).cleanup_needed),
            final(self).store@ == pruned(old(self).store@, old(self).cleanup_needed).map_values(|w: WindowRecord| settled(w)),
            old(self).store.wf() ==> final(self).store.wf(),
            !final(self).cleanup_needed,
            final(self).outputs@ == old(self).outputs@,
    {
        let ghost s0 = self.store@;
        let ghost sink0 = self.sink@;
        let ghost cn = self.cleanup_needed;
        if awakened {
            self.sink.push(Event::Awakened);
        }
        let ghost sink1 = self.sink@;
        let ghost wake: Seq<Event> = if awakened { seq![Event::Awakened] } else { Seq::empty() };
        assert(sink1 =~= sink0 + wake);
        let mut actions: Vec<FrameAction> = Vec::new();
        if self.cleanup_needed {
            let dead = self.store.cleanup();
            let mut i: usize = 0;
            while i < dead.len()
                invariant
                    0 <= i <= dead@.len(),
                    self.sink@ == sink1 + destroyed_events(dead@.subrange(0, i as int)),
                    actions@ == destroy_actions(dead@.subrange(0, i as int)),
                    dead@ == killed_ids(s0),
                    self.store@ == survivors(s0),
                    s0 == old(self).store@,
                    old(self).store.wf() ==> self.store.wf(),
                    self.outputs@ == old(self).outputs@,
                decreases dead@.len() - i,
            {
                let wid = dead[i];
                proof {
                    let d = dead@;
                    assert(destroyed_events(d.subrange(0, i as int + 1)) =~= destroyed_events(d.subrange(0, i as int)).push(window_event(wid, WindowEvent::Destroyed)));
                    assert(destroy_actions(d.subrange(0, i as int + 1)) =~= destroy_actions(d.subrange(0, i as int)).push(FrameAction::Destroy { window_id: wid }));
                }
                self.sink.push(Event::WindowEvent { window_id: wid, event: WindowEvent::Destroyed });
                actions.push(FrameAction::Destroy { window_id: wid });
                i += 1;
            }
            proof {
                assert(dead@.subrange(0, i as int) =~= dead@);
            }
            self.cleanup_needed = false;
        } else {
            proof {
                assert(self.sink@ =~= sink1 + destroyed_events(Seq::<WindowId>::empty()));
                assert(actions@ =~= destroy_actions(Seq::<WindowId>::empty()));
            }
        }
        let ghost sink2 = self.sink@;
        let ghost act2 = actions@;
        let ghost visited = self.store@;
        assert(visited == pruned(s0, cn));
        assert(sink2 == sink1 + destroyed_events(pruned_ids(s0, cn)));
        assert(act2 == destroy_actions(pruned_ids(s0, cn)));
        let updates = self.store.for_each();
        let mut j: usize = 0;
        while j < updates.len()
            invariant
                0 <= j <= updates@.len(),
                updates@ == snapshots(visited),
                self.sink@ == sink2 + all_update_events(updates@.subrange(0, j as int)),
                actions@ == act2 + all_update_actions(updates@.subrange(0, j as int)),
                self.store@ == visited.map_values(|w: WindowRecord| settled(w)),
                visited == pruned(s0, cn),
                s0 == old(self).store@,
                cn == old(self).cleanup_needed,
                old(self).store.wf() ==> self.store.wf(),
                !self.cleanup_needed,
                self.outputs@ == old(self).outputs@,
            decreases updates@.len() - j,
        {
            proof {
                let us = updates@;
                assert(us.subrange(0, j as int + 1).drop_last() =~= us.subrange(0, j as int));
            }
            push_update(&mut self.sink, &mut actions, updates[j]);
            proof {
                let us = updates@;
                assert(self.sink@ =~= sink2 + all_update_events(us.subrange(0, j as int + 1)));
                assert(actions@ =~= act2 + all_update_actions(us.subrange(0, j as int + 1)));
            }
            j += 1;
        }
        proof {
            assert(updates@.subrange(0, j as int) =~= updates@);
            assert(self.sink@ == sink0 + wake + destroyed_events(pruned_ids(s0, cn)) + all_update_events(snapshots(pruned(s0, cn))));
            assert(self.sink@ =~= sink0 + trigger_events(s0, old(self).cleanup_needed, awakened));
            assert(actions@ =~= trigger_actions(s0, old(self).cleanup_needed));
        }
        actions
    }

    /// The monitors available on the system, from the cached output table.
    pub fn get_available_monitors(&self) -> (r: Vec<MonitorId>)
        ensures
            r@ == self.outputs@,
    {
        self.outputs.clone()
    }

    /// The primary monitor: the first output that the backend announced.
    pub fn get_primary_monitor(&self) -> (r: MonitorId)
        requires
            self.outputs@.len() > 0,
        ensures
            r == self.outputs@[0],
    {
        self.outputs[0]
    }

    /// Records an output that the backend announced.
    pub fn output_added(&mut self, monitor: MonitorId)
        ensures
            final(self).outputs@ == old(self).outputs@.push(monitor),
            final(self).store == old(self).store,
            final(self).sink@ == old(self).sink@,
            final(self).cleanup_needed == old(self).cleanup_needed,
    {
        self.outputs.push(monitor);
    }

    /// Queues an event raised by a protocol callback, behind those already queued.
    pub fn send_event(&mut self, event: Event)
        ensures
            final(self).sink@ == old(self).sink@.push(event),
            final(self).store == old(self).store,
            final(self).outputs@ == old(self).outputs@,
            final(self).cleanup_needed == old(self).cleanup_needed,
    {
        self.sink.push(event);
    }

    /// Takes every queued event, in order, and leaves the queue empty.
    pub fn take_events(&mut self) -> (r: Vec<Event>)
        ensures
            r@ == old(self).sink@,
            final(self).sink@ == Seq::<Event>::empty(),
            final(self).store == old(self).store,
            final(self).outputs@ == old(self).outputs@,
            final(self).cleanup_needed == old(self).cleanup_needed,
    {
        let mut events: Vec<Event> = Vec::new();
        std::mem::swap(&mut events, &mut self.sink);
        events
    }

    /// The handle of the window of `surface` asked to be torn down: its kill switch is
    /// set, and the next pass of the triggers prunes it.
    pub fn kill_window(&mut self, surface: u64)
        ensures
            final(self).store@ == change_matching(old(self).store@, surface, Change::Kill),
            old(self).store.wf() ==> final(self).store.wf(),
            final(self).cleanup_needed,
            final(self).sink@ == old(self).sink@,
            final(self).outputs@ == old(self).outputs@,
    {
        self.store.apply(surface, Change::Kill);
        self.cleanup_needed = true;
    }

    /// One non-blocking pass: runs the triggers, then hands every queued event to
    /// `callback`, once each and in order: those queued before, then those of the
    /// triggers. Returns the frame work that the pass decided.
    pub fn poll_events<F: FnMut(Event)>(&mut self, awakened: bool, mut callback: F) -> (r: Vec<FrameAction>)
        requires
            forall|e: Event| #[trigger] call_requires(callback, (e,)),
        ensures
            r@ == trigger_actions(old(self).store@, old(self).cleanup_needed),
            final(self).store@ == pruned(old(self).store@, old(self).cleanup_needed).map_values(|w: WindowRecord| settled(w)),
            old(self).store.wf() ==> final(self).store.wf(),
            !final(self).cleanup_needed,
            final(self).sink@ == Seq::<Event>::empty(),
            final(self).outputs@ == old(self).outputs@,
            forall|k: int| 0 <= k < pass_events(*old(self), awakened).len()
                ==> call_ensures(callback, (#[trigger] pass_events(*old(self), awakened)[k],), ()),
    {
        let ghost cb = callback;
        let ghost evs = pass_events(*self, awakened);
        let actions = self.post_dispatch_triggers(awakened);
        let events = self.take_events();
        let mut i: usize = 0;
        while i < events.len()
            invariant
                0 <= i <= events@.len(),
                events@ == evs,
                forall|e: Event| #[trigger] call_requires(cb, (e,)),
                callback == cb,
                forall|k: int| 0 <= k < i ==> call_ensures(cb, (#[trigger] evs[k],), ()),
            decreases events@.len() - i,
        {
            callback(events[i]);
            i += 1;
        }
        actions
    }

    /// One pass of `run_forever`: runs the triggers, then hands the queued events to
    /// `callback`, in order, until it returns `Break`. The events left after a `Break`
    /// are dropped. Returns `Break` when the callback asked to stop, else `Continue`: the
    /// caller then waits for native input and runs the next pass. Also returns the
    /// frame work that the pass decided.
    pub fn run_forever<F: FnMut(Event) -> ControlFlow>(&mut self, awakened: bool, mut callback: F) -> (r: (ControlFlow, Vec<FrameAction>))
        requires
            forall|e: Event| #[trigger] call_requires(callback, (e,)),
        ensures
            r.1@ == trigger_actions(old(self).store@, old(self).cleanup_needed),
            final(self).store@ == pruned(old(self).store@, old(self).cleanup_needed).map_values(|w: WindowRecord| settled(w)),
            old(self).store.wf() ==> final(self).store.wf(),
            !final(self).cleanup_needed,
            final(self).sink@ == Seq::<Event>::empty(),
            final(self).outputs@ == old(self).outputs@,
            pass_events(*old(self), awakened).len() == 0 ==> r.0 == ControlFlow::Continue,
            r.0 == ControlFlow::Continue ==> forall|k: int| 0 <= k < pass_events(*old(self), awakened).len()
                ==> call_ensures(callback, (#[trigger] pass_events(*old(self), awakened)[k],), ControlFlow::Continue),
            r.0 == ControlFlow::Break ==> exists|n: int| #[trigger] breaks_at(callback, pass_events(*old(self), awakened), n),
    {
        let ghost cb = callback;
        let ghost evs = pass_events(*self, awakened);
        let actions = self.post_dispatch_triggers(awakened);
        let events = self.take_events();
        let (flow, delivered) = deliver_until_break(&events, &mut callback);
        proof {
            if flow == ControlFlow::Break {
                assert(1 <= delivered as int <= evs.len());
                assert(call_ensures(cb, (evs[delivered as int - 1],), ControlFlow::Break));
                assert(breaks_at(cb, evs, delivered as int));
            }
        }
        (flow, actions)
    }
}

/// A pass run with a pending wakeup hands `Awakened` to the application right after the
/// events queued before it; with no pending wakeup it hands over no `Awakened` of its
/// own. Taken together with `WakeupState`, a wakeup that succeeded is delivered by the
/// next pass, and any number of wakeups before that pass give one `Awakened`.
pub proof fn lemma_wakeup_delivered(l: EventsLoop, s: WakeupState)
    requires
        !s.closed,
    ensures
        wakeup_result(s) is Ok,
        woken(s).pending,
        woken(woken(s)) == woken(s),
        pass_events(l, woken(s).pending).len() > l.sink@.len(),
        pass_events(l, woken(s).pending)[l.sink@.len() as int] == Event::Awakened,
        trigger_events(l.store@, l.cleanup_needed, true)
            == seq![Event::Awakened] + trigger_events(l.store@, l.cleanup_needed, false),
{
    let t = trigger_events(l.store@, l.cleanup_needed, true);
    assert(t[0] == Event::Awakened);
    assert(t =~= seq![Event::Awakened] + trigger_events(l.store@, l.cleanup_needed, false));
}

} // verus!
