use vstd::prelude::*;
use crate::types::WindowId;

verus! {

/// The loop-side record of one window: what protocol callbacks have reported and the
/// loop has not yet handed to the application.
#[derive(Clone, Copy, Debug)]
pub struct WindowRecord {
    /// Identity of the window's native surface.
    pub surface: u64,
    /// A size that the compositor asked for and that is not yet delivered.
    pub newsize: Option<(u32, u32)>,
    /// The size the window currently has.
    pub size: (u32, u32),
    /// The content must be redrawn.
    pub need_refresh: bool,
    /// The decorations must be redrawn.
    pub need_frame_refresh: bool,
    /// A close was requested and not yet delivered.
    pub closed: bool,
    /// `None` for a window made from raw parts, which is never torn down by the loop;
    /// `Some(true)` once the window's handle asked to be torn down.
    pub kill_switch: Option<bool>,
    /// Whether the decoration frame that the record refers to (without owning it) still
    /// exists.
    pub frame_alive: bool,
    /// The scale factor last delivered.
    pub current_dpi: i32,
    /// A scale factor reported and not yet delivered.
    pub new_dpi: Option<i32>,
}

/// One protocol-side mutation of a record.
#[derive(Clone, Copy, Debug)]
pub enum Change {
    /// The compositor configured the window, perhaps with a new size.
    Configure(Option<(u32, u32)>),
    /// The decorations must be redrawn.
    Refresh,
    /// The user asked to close the window.
    Close,
    /// The effective scale factor changed.
    Dpi(i32),
    /// The window's handle asked to be torn down.
    Kill,
    /// The application resized the window.
    Resize((u32, u32)),
    /// The decoration frame was destroyed.
    FrameGone,
}

pub open spec fn apply_change(w: WindowRecord, c: Change) -> WindowRecord {
    match c {
        Change::Configure(ns) => WindowRecord {
            newsize: ns,
            need_refresh: true,
            need_frame_refresh: true,
            ..w
        },
        Change::Refresh => WindowRecord { need_frame_refresh: true, ..w },
        Change::Close => WindowRecord { closed: true, ..w },
        Change::Dpi(d) => WindowRecord { new_dpi: Some(d), ..w },
        Change::Kill => WindowRecord {
            kill_switch: if w.kill_switch is Some { Some(true) } else { None },
            ..w
        },
        Change::Resize(sz) => WindowRecord { size: sz, ..w },
        Change::FrameGone => WindowRecord { frame_alive: false, ..w },
    }
}

/// Every record of `s`, with the records of `surface` changed by `c`.
pub open spec fn change_matching(s: Seq<WindowRecord>, surface: u64, c: Change) -> Seq<WindowRecord> {
    s.map_values(|w: WindowRecord| if w.surface == surface { apply_change(w, c) } else { w })
}

pub open spec fn is_killed(w: WindowRecord) -> bool {
    w.kill_switch == Some(true)
}

pub open spec fn wid_of(w: WindowRecord) -> WindowId {
    WindowId { surface: w.surface }
}

/// The records of `s` whose kill switch is not set, in order.
pub open spec fn survivors(s: Seq<WindowRecord>) -> Seq<WindowRecord>
    decreases s.len(),
{
    if s.len() == 0 {
        s
    } else if is_killed(s.last()) {
        survivors(s.drop_last())
    } else {
        survivors(s.drop_last()).push(s.last())
    }
}

/// The ids of the records of `s` whose kill switch is set, in order.
pub open spec fn killed_ids(s: Seq<WindowRecord>) -> Seq<WindowId>
    decreases s.len(),
{
    if s.len() == 0 {
        Seq::empty()
    } else if is_killed(s.last()) {
        killed_ids(s.drop_last()).push(wid_of(s.last()))
    } else {
        killed_ids(s.drop_last())
    }
}

/// The ids of the records of `s` whose frame still exists, in order.
pub open spec fn framed_ids(s: Seq<WindowRecord>) -> Seq<WindowId>
    decreases s.len(),
{
    if s.len() == 0 {
        Seq::empty()
    } else if s.last().frame_alive {
        framed_ids(s.drop_last()).push(wid_of(s.last()))
    } else {
        framed_ids(s.drop_last())
    }
}

/// The size a record holds once the drain pass has seen it: a pending size is taken
/// over when the frame still exists.
pub open spec fn settled_size(w: WindowRecord) -> (u32, u32) {
    match w.newsize {
        Some(sz) => if w.frame_alive { sz } else { w.size },
        None => w.size,
    }
}

/// A record after one drain pass: pending state cleared, one-shot flags reset.
pub open spec fn settled(w: WindowRecord) -> WindowRecord {
    WindowRecord {
        newsize: None,
        size: settled_size(w),
        need_refresh: false,
        need_frame_refresh: false,
        closed: false,
        current_dpi: match w.new_dpi {
            Some(d) => d,
            None => w.current_dpi,
        },
        new_dpi: None,
        ..w
    }
}

/// What the drain pass reports of one window.
#[derive(Clone, Copy, Debug)]
pub struct WindowUpdate {
    pub newsize: Option<(u32, u32)>,
    pub size: (u32, u32),
    pub new_dpi: Option<i32>,
    pub refresh: bool,
    pub frame_refresh: bool,
    pub closed: bool,
    pub wid: WindowId,
    pub frame_alive: bool,
}

pub open spec fn snapshot(w: WindowRecord) -> WindowUpdate {
    WindowUpdate {
        newsize: w.newsize,
        size: settled_size(w),
        new_dpi: w.new_dpi,
        refresh: w.need_refresh,
        frame_refresh: w.need_frame_refresh,
        closed: w.closed,
        wid: wid_of(w),
        frame_alive: w.frame_alive,
    }
}

/// The table of live windows of one event loop.
pub struct WindowStore {
    pub windows: Vec<WindowRecord>,
}

impl View for WindowStore {
    type V = Seq<WindowRecord>;

    open spec fn view(&self) -> Seq<WindowRecord> {
        self.windows@
    }
}

pub open spec fn has_surface(s: Seq<WindowRecord>, surface: u64) -> bool {
    exists|i: int| 0 <= i < s.len() && (#[trigger] s[i]).surface == surface
}

/// No two records share a surface: one record per live window.
pub open spec fn unique_surfaces(s: Seq<WindowRecord>) -> bool {
    forall|i: int, j: int| 0 <= i < j < s.len() ==> (#[trigger] s[i]).surface != (#[trigger] s[j]).surface
}

fn apply_change_exec(w: WindowRecord, c: Change) -> (r: WindowRecord)
    ensures
        r == apply_change(w, c),
{
    match c {
        Change::Configure(ns) => WindowRecord {
            newsize: ns,
            need_refresh: true,
            need_frame_refresh: true,
            ..w
        },
        Change::Refresh => WindowRecord { need_frame_refresh: true, ..w },
        Change::Close => WindowRecord { closed: true, ..w },
        Change::Dpi(d) => WindowRecord { new_dpi: Some(d), ..w },
        Change::Kill => WindowRecord {
            kill_switch: if w.kill_switch.is_some() { Some(true) } else { None },
            ..w
        },
        Change::Resize(sz) => WindowRecord { size: sz, ..w },
        Change::FrameGone => WindowRecord { frame_alive: false, ..w },
    }
}

impl WindowStore {
    pub open spec fn wf(&self) -> bool {
        unique_surfaces(self@)
    }

    pub fn new() -> (r: WindowStore)
        ensures
            r@ == Seq::<WindowRecord>::empty(),
            r.wf(),
    {
        WindowStore { windows: Vec::new() }
    }

    /// Applies `c` to the record of `surface`, if there is one.
    pub fn apply(&mut self, surface: u64, c: Change)
        ensures
            final(self)@ == change_matching(old(self)@, surface, c),
            old(self).wf() ==> final(self).wf(),
    {
        let ghost pre = self@;
        let mut i: usize = 0;
        while i < self.windows.len()
            invariant
                0 <= i <= self@.len(),
                self@.len() == pre.len(),
                forall|k: int| 0 <= k < i ==> #[trigger] self@[k] == (if pre[k].surface == surface {
                    apply_change(pre[k], c)
                } else {
                    pre[k]
                }),
                forall|k: int| i <= k < self@.len() ==> #[trigger] self@[k] == pre[k],
            decreases self@.len() - i,
        {
            let w = self.windows[i];
            if w.surface == surface {
                let nw = apply_change_exec(w, c);
                self.windows.set(i, nw);
            }
            i += 1;
        }
        proof {
            assert(self@ =~= change_matching(pre, surface, c));
        }
    }

    /// Adds the record of a new window. Its surface must not already have one.
    pub fn register(&mut self, w: WindowRecord)
        requires
            !has_surface(old(self)@, w.surface),
        ensures
            final(self)@ == old(self)@.push(w),
            old(self).wf() ==> final(self).wf(),
    {
        self.windows.push(w);
    }

    /// The id of the window whose surface is `surface`, if it has a record.
    pub fn find_wid(&self, surface: u64) -> (r: Option<WindowId>)
        ensures
            r == (if has_surface(self@, surface) {
                Some(WindowId { surface })
            } else {
                None
            }),
    {
        let mut i: usize = 0;
        while i < self.windows.len()
            invariant
                0 <= i <= self@.len(),
                forall|k: int| 0 <= k < i ==> (#[trigger] self@[k]).surface != surface,
            decreases self@.len() - i,
        {
            if self.windows[i].surface == surface {
                return Some(WindowId { surface });
            }
            i += 1;
        }
        None
    }

    /// The current size of the window of `surface`, if it has a record.
    pub fn inner_size(&self, surface: u64) -> (r: Option<(u32, u32)>)
        requires
            self.wf(),
        ensures
            r matches Some(sz) ==> exists|k: int| 0 <= k < self@.len() && (#[trigger] self@[k]).surface == surface && self@[k].size == sz,
            r is None <==> !has_surface(self@, surface),
    {
        let mut i: usize = 0;
        while i < self.windows.len()
            invariant
                0 <= i <= self@.len(),
                forall|k: int| 0 <= k < i ==> (#[trigger] self@[k]).surface != surface,
            decreases self@.len() - i,
        {
            if self.windows[i].surface == surface {
                return Some(self.windows[i].size);
            }
            i += 1;
        }
        None
    }

    /// Records a new scale factor for the window of `surface`, to be delivered by the
    /// next drain pass.
    pub fn dpi_change(&mut self, surface: u64, new: i32)
        ensures
            final(self)@ == change_matching(old(self)@, surface, Change::Dpi(new)),
            old(self).wf() ==> final(self).wf(),
    {
        self.apply(surface, Change::Dpi(new));
    }

    /// The windows whose decoration frame still exists, in order: those that must learn
    /// of a new input seat.
    pub fn new_seat(&self) -> (r: Vec<WindowId>)
        ensures
            r@ == framed_ids(self@),
    {
        let mut out: Vec<WindowId> = Vec::new();
        let mut i: usize = 0;
        while i < self.windows.len()
            invariant
                0 <= i <= self@.len(),
                out@ == framed_ids(self@.subrange(0, i as int)),
            decreases self@.len() - i,
        {
            let w = self.windows[i];
            proof {
                let s = self@;
                assert(s.subrange(0, i as int + 1).drop_last() =~= s.subrange(0, i as int));
            }
            if w.frame_alive {
                out.push(WindowId { surface: w.surface });
            }
            i += 1;
        }
        proof {
            assert(self@.subrange(0, i as int) =~= self@);
        }
        out
    }

    /// Removes every record whose kill switch is set and returns their ids, in order.
    pub fn cleanup(&mut self) -> (r: Vec<WindowId>)
        ensures
            final(self)@ == survivors(old(self)@),
            r@ == killed_ids(old(self)@),
            old(self).wf() ==> final(self).wf(),
    {
        let mut pruned: Vec<WindowId> = Vec::new();
        let mut kept: Vec<WindowRecord> = Vec::new();
        let mut i: usize = 0;
        while i < self.windows.len()
            invariant
                0 <= i <= self@.len(),
                self@ == old(self)@,
                kept@ == survivors(self@.subrange(0, i as int)),
                pruned@ == killed_ids(self@.subrange(0, i as int)),
            decreases self@.len() - i,
        {
            let w = self.windows[i];
            proof {
                let s = self@;
                assert(s.subrange(0, i as int + 1).drop_last() =~= s.subrange(0, i as int));
            }
            if w.kill_switch == Some(true) {
                pruned.push(WindowId { surface: w.surface });
            } else {
                kept.push(w);
            }
            i += 1;
        }
        proof {
            assert(self@.subrange(0, i as int) =~= self@);
            if old(self).wf() {
                lemma_survivors_unique(old(self)@);
            }
        }
        self.windows = kept;
        pruned
    }

    /// One drain pass: reports the pending state of every window, in order, and resets
    /// it. Pending sizes become current where the frame still exists; pending scale
    /// factors become current.
    pub fn for_each(&mut self) -> (r: Vec<WindowUpdate>)
        ensures
            r@ == old(self)@.map_values(|w: WindowRecord| snapshot(w)),
            final(self)@ == old(self)@.map_values(|w: WindowRecord| settled(w)),
            old(self).wf() ==> final(self).wf(),
    {
        let ghost pre = self@;
        let mut out: Vec<WindowUpdate> = Vec::new();
        let mut i: usize = 0;
        while i < self.windows.len()
            invariant
                0 <= i <= self@.len(),
                self@.len() == pre.len(),
                out@.len() == i,
                forall|k: int| 0 <= k < i ==> #[trigger] out@[k] == snapshot(pre[k]),
                forall|k: int| 0 <= k < i ==> #[trigger] self@[k] == settled(pre[k]),
                forall|k: int| i <= k < self@.len() ==> #[trigger] self@[k] == pre[k],
            decreases self@.len() - i,
        {
            let w = self.windows[i];
            let size = match w.newsize {
                Some(sz) => if w.frame_alive { sz } else { w.size },
                None => w.size,
            };
            out.push(WindowUpdate {
                newsize: w.newsize,
                size,
                new_dpi: w.new_dpi,
                refresh: w.need_refresh,
                frame_refresh: w.need_frame_refresh,
                closed: w.closed,
                wid: WindowId { surface: w.surface },
                frame_alive: w.frame_alive,
            });
            let current_dpi = match w.new_dpi {
                Some(d) => d,
                None => w.current_dpi,
            };
            self.windows.set(i, WindowRecord {
                newsize: None,
                size,
                need_refresh: false,
                need_frame_refresh: false,
                closed: false,
                current_dpi,
                new_dpi: None,
                ..w
            });
            i += 1;
        }
        proof {
            assert(out@ =~= pre.map_values(|w: WindowRecord| snapshot(w)));
            assert(self@ =~= pre.map_values(|w: WindowRecord| settled(w)));
        }
        out
    }
}

/// Every record that survives a cleanup pass was in the table before it.
pub proof fn lemma_survivors_in(s: Seq<WindowRecord>, w: WindowRecord)
    requires
        survivors(s).contains(w),
    ensures
        s.contains(w),
        !is_killed(w),
    decreases s.len(),
{
    if s.len() > 0 {
        if survivors(s.drop_last()).contains(w) {
            lemma_survivors_in(s.drop_last(), w);
            let k = choose|k: int| 0 <= k < s.drop_last().len() && s.drop_last()[k] == w;
            assert(s[k] == w);
        } else {
            assert(!is_killed(s.last()));
            let t = survivors(s.drop_last()).push(s.last());
            let k = choose|k: int| 0 <= k < t.len() && t[k] == w;
            assert(k == t.len() - 1);
            assert(s[s.len() - 1] == w);
        }
    }
}

/// A cleanup pass keeps the records' surfaces distinct.
pub proof fn lemma_survivors_unique(s: Seq<WindowRecord>)
    requires
        unique_surfaces(s),
    ensures
        unique_surfaces(survivors(s)),
    decreases s.len(),
{
    if s.len() > 0 {
        let d = s.drop_last();
        assert(unique_surfaces(d));
        lemma_survivors_unique(d);
        if !is_killed(s.last()) {
            let t = survivors(d);
            assert forall|i: int, j: int| 0 <= i < j < t.push(s.last()).len() implies
                (#[trigger] t.push(s.last())[i]).surface != (#[trigger] t.push(s.last())[j]).surface by {
                if j == t.len() {
                    assert(t.contains(t[i]));
                    lemma_survivors_in(d, t[i]);
                    let k = choose|k: int| 0 <= k < d.len() && d[k] == t[i];
                    assert(s[k] == d[k]);
                    assert(s[s.len() - 1] == s.last());
                }
            }
        }
    }
}

/// The ids of `killed_ids(s)` are those of the records whose kill switch is set.
pub proof fn lemma_killed_ids_members(s: Seq<WindowRecord>, wid: WindowId)
    ensures
        killed_ids(s).contains(wid) <==> exists|i: int| 0 <= i < s.len() && is_killed(#[trigger] s[i]) && wid_of(s[i]) == wid,
    decreases s.len(),
{
    if s.len() > 0 {
        let d = s.drop_last();
        lemma_killed_ids_members(d, wid);
        if exists|i: int| 0 <= i < d.len() && is_killed(#[trigger] d[i]) && wid_of(d[i]) == wid {
            let i = choose|i: int| 0 <= i < d.len() && is_killed(#[trigger] d[i]) && wid_of(d[i]) == wid;
            assert(s[i] == d[i]);
        }
        if exists|i: int| 0 <= i < s.len() && is_killed(#[trigger] s[i]) && wid_of(s[i]) == wid {
            let i = choose|i: int| 0 <= i < s.len() && is_killed(#[trigger] s[i]) && wid_of(s[i]) == wid;
            if i < d.len() {
                assert(d[i] == s[i]);
            } else {
                assert(killed_ids(s) == killed_ids(d).push(wid_of(s.last())));
                assert(killed_ids(s).last() == wid);
            }
        }
        if is_killed(s.last()) {
            let t = killed_ids(d);
            if killed_ids(s).contains(wid) && !t.contains(wid) {
                let k = choose|k: int| 0 <= k < t.push(wid_of(s.last())).len() && t.push(wid_of(s.last()))[k] == wid;
                assert(k == t.len());
                assert(s[s.len() - 1] == s.last());
            }
            if t.contains(wid) {
                let k = choose|k: int| 0 <= k < t.len() && t[k] == wid;
                assert(t.push(wid_of(s.last()))[k] == wid);
            }
        }
    }
}

/// A cleanup pass reports each torn-down window exactly once: its result holds the id of
/// every record whose kill switch is set and of no other, without repetition, and a
/// second pass with no new kill switch reports nothing.
pub proof fn lemma_cleanup_exactly_once(s: Seq<WindowRecord>)
    requires
        unique_surfaces(s),
    ensures
        killed_ids(s).no_duplicates(),
        forall|wid: WindowId| #[trigger] killed_ids(s).contains(wid) <==> exists|i: int|
            0 <= i < s.len() && is_killed(#[trigger] s[i]) && wid_of(s[i]) == wid,
        killed_ids(survivors(s)) == Seq::<WindowId>::empty(),
    decreases s.len(),
{
    assert forall|wid: WindowId| #[trigger] killed_ids(s).contains(wid) <==> exists|i: int|
        0 <= i < s.len() && is_killed(#[trigger] s[i]) && wid_of(s[i]) == wid by {
        lemma_killed_ids_members(s, wid);
    }
    lemma_no_killed_survive(s);
    if s.len() > 0 {
        let d = s.drop_last();
        assert(unique_surfaces(d));
        lemma_cleanup_exactly_once(d);
        if is_killed(s.last()) {
            let t = killed_ids(d);
            let x = wid_of(s.last());
            if t.contains(x) {
                lemma_killed_ids_members(d, x);
                let i = choose|i: int| 0 <= i < d.len() && is_killed(#[trigger] d[i]) && wid_of(d[i]) == x;
                assert(s[i] == d[i]);
                assert(s[s.len() - 1] == s.last());
            }
            assert forall|i: int, j: int| 0 <= i < t.push(x).len() && 0 <= j < t.push(x).len() && i != j implies
                t.push(x)[i] != t.push(x)[j] by {
                if i < t.len() && j < t.len() {
                } else if i < t.len() {
                    assert(t.contains(t[i]));
                } else {
                    assert(t.contains(t[j]));
                }
            }
        }
    }
}

/// No record that survives a cleanup pass has its kill switch set.
pub proof fn lemma_no_killed_survive(s: Seq<WindowRecord>)
    ensures
        killed_ids(survivors(s)) == Seq::<WindowId>::empty(),
        forall|i: int| 0 <= i < survivors(s).len() ==> !is_killed(#[trigger] survivors(s)[i]),
    decreases s.len(),
{
    if s.len() > 0 {
        let d = s.drop_last();
        lemma_no_killed_survive(d);
        if !is_killed(s.last()) {
            let t = survivors(d).push(s.last());
            assert(t.drop_last() =~= survivors(d));
            assert forall|i: int| 0 <= i < t.len() implies !is_killed(#[trigger] t[i]) by {
                if i < t.len() - 1 {
                    assert(t[i] == survivors(d)[i]);
                }
            }
        }
    } else {
        assert(survivors(s).len() == 0);
    }
}

/// A drain pass resets what it reports: a second pass with no protocol event in between
/// reports no pending size, no pending scale factor, no redraw, no frame refresh and no
/// close request, for every window.
pub proof fn lemma_drain_resets(s: Seq<WindowRecord>)
    ensures
        forall|i: int| 0 <= i < s.len() ==> {
            let u = #[trigger] snapshot(settled(s[i]));
            &&& u.newsize is None
            &&& u.new_dpi is None
            &&& !u.refresh
            &&& !u.frame_refresh
            &&& !u.closed
            &&& u.size == settled_size(s[i])
        },
{
}

/// A table with no kill switch set reports no id on cleanup.
pub proof fn lemma_killed_ids_empty(t: Seq<WindowRecord>)
    requires
        forall|i: int| 0 <= i < t.len() ==> !is_killed(#[trigger] t[i]),
    ensures
        killed_ids(t) == Seq::<WindowId>::empty(),
    decreases t.len(),
{
    if t.len() > 0 {
        let d = t.drop_last();
        assert forall|i: int| 0 <= i < d.len() implies !is_killed(#[trigger] d[i]) by {
            assert(d[i] == t[i]);
        }
        lemma_killed_ids_empty(d);
        assert(!is_killed(t[t.len() - 1]));
    }
}

/// A window torn down is reported once: the cleanup pass reports each id once, and the
/// table that the cleanup and drain passes leave has no kill switch set, so a later
/// pass reports none of those ids again.
pub proof fn lemma_destroyed_once(s: Seq<WindowRecord>)
    requires
        unique_surfaces(s),
    ensures
        killed_ids(s).no_duplicates(),
        killed_ids(survivors(s).map_values(|w: WindowRecord| settled(w))) == Seq::<WindowId>::empty(),
{
    lemma_cleanup_exactly_once(s);
    lemma_no_killed_survive(s);
    let t = survivors(s).map_values(|w: WindowRecord| settled(w));
    assert forall|i: int| 0 <= i < t.len() implies !is_killed(#[trigger] t[i]) by {
        assert(!is_killed(survivors(s)[i]));
    }
    lemma_killed_ids_empty(t);
}

} // verus!
