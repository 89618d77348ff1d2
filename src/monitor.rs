use vstd::prelude::*;

verus! {

/// A display output as the window logic sees it: the identity of the native output
/// object and the integer scale factor that the compositor announced for it.
#[derive(Clone, Copy, Debug, PartialEq, Eq, Structural)]
pub struct MonitorId {
    pub output: u64,
    pub hidpi_factor: i32,
}

impl MonitorId {
    pub fn get_hidpi_factor(&self) -> (r: i32)
        ensures
            r == self.hidpi_factor,
    {
        self.hidpi_factor
    }
}

/// The effective scale factor over a sequence of monitors: the largest factor among
/// them, and never less than 1 (the factor of a window on no known monitor).
pub open spec fn factor_max(s: Seq<MonitorId>) -> int
    decreases s.len(),
{
    if s.len() == 0 {
        1
    } else {
        let rest = factor_max(s.drop_last());
        if s.last().hidpi_factor > rest {
            s.last().hidpi_factor as int
        } else {
            rest
        }
    }
}

/// The monitors of `s` that are not the output `output`, in their order.
pub open spec fn without_output(s: Seq<MonitorId>, output: u64) -> Seq<MonitorId>
    decreases s.len(),
{
    if s.len() == 0 {
        s
    } else {
        let rest = without_output(s.drop_last(), output);
        if s.last().output == output {
            rest
        } else {
            rest.push(s.last())
        }
    }
}

/// The monitors that one window currently overlaps, in the order it entered them.
pub struct MonitorList {
    pub monitors: Vec<MonitorId>,
}

impl View for MonitorList {
    type V = Seq<MonitorId>;

    open spec fn view(&self) -> Seq<MonitorId> {
        self.monitors@
    }
}

impl MonitorList {
    pub fn new() -> (r: MonitorList)
        ensures
            r@ == Seq::<MonitorId>::empty(),
    {
        MonitorList { monitors: Vec::new() }
    }

    /// The effective scale factor of the window: the largest factor of the monitors it
    /// overlaps, or 1 when it overlaps none.
    pub fn compute_hidpi_factor(&self) -> (r: i32)
        ensures
            r as int == factor_max(self@),
    {
        let mut factor: i32 = 1;
        let mut i: usize = 0;
        while i < self.monitors.len()
            invariant
                0 <= i <= self.monitors@.len(),
                factor as int == factor_max(self.monitors@.subrange(0, i as int)),
            decreases self.monitors@.len() - i,
        {
            let monitor_dpi = self.monitors[i].get_hidpi_factor();
            proof {
                let s = self.monitors@;
                assert(s.subrange(0, i as int + 1).drop_last() =~= s.subrange(0, i as int));
            }
            if monitor_dpi > factor {
                factor = monitor_dpi;
            }
            i += 1;
        }
        proof {
            assert(self.monitors@.subrange(0, i as int) =~= self.monitors@);
        }
        factor
    }

    /// Records that the window entered `monitor`. Returns the new effective factor when
    /// it grew, and `None` when it stayed the same.
    pub fn add_output(&mut self, monitor: MonitorId) -> (r: Option<i32>)
        ensures
            final(self)@ == old(self)@.push(monitor),
            r == (if monitor.hidpi_factor > factor_max(old(self)@) {
                Some(monitor.hidpi_factor)
            } else {
                None
            }),
            factor_max(final(self)@) == (if monitor.hidpi_factor > factor_max(old(self)@) {
                monitor.hidpi_factor as int
            } else {
                factor_max(old(self)@)
            }),
    {
        let old_dpi = self.compute_hidpi_factor();
        let monitor_dpi = monitor.get_hidpi_factor();
        self.monitors.push(monitor);
        proof {
            assert(self@.drop_last() =~= old(self)@);
        }
        if monitor_dpi > old_dpi {
            Some(monitor_dpi)
        } else {
            None
        }
    }

    /// Records that the window left the output `output`: every entry of that output is
    /// removed. Returns the new effective factor when it changed, in either direction.
    pub fn del_output(&mut self, output: u64) -> (r: Option<i32>)
        ensures
            final(self)@ == without_output(old(self)@, output),
            r == (if factor_max(final(self)@) != factor_max(old(self)@) {
                Some(factor_max(final(self)@) as i32)
            } else {
                None
            }),
    {
        let old_dpi = self.compute_hidpi_factor();
        let mut kept: Vec<MonitorId> = Vec::new();
        let mut i: usize = 0;
        while i < self.monitors.len()
            invariant
                0 <= i <= self.monitors@.len(),
                self.monitors@ == old(self)@,
                kept@ == without_output(self.monitors@.subrange(0, i as int), output),
            decreases self.monitors@.len() - i,
        {
            let m = self.monitors[i];
            proof {
                let s = self.monitors@;
                assert(s.subrange(0, i as int + 1).drop_last() =~= s.subrange(0, i as int));
            }
            if m.output != output {
                kept.push(m);
            }
            i += 1;
        }
        proof {
            assert(self.monitors@.subrange(0, i as int) =~= self.monitors@);
        }
        self.monitors = kept;
        let new_dpi = self.compute_hidpi_factor();
        if new_dpi != old_dpi {
            Some(new_dpi)
        } else {
            None
        }
    }
}

/// The effective scale factor is a true maximum: no overlapped monitor has a larger
/// factor, it is never below 1, and above 1 it is the factor of an overlapped monitor.
/// With no monitor it is 1.
pub proof fn lemma_factor_is_max(s: Seq<MonitorId>)
    ensures
        factor_max(s) >= 1,
        forall|i: int| 0 <= i < s.len() ==> (#[trigger] s[i]).hidpi_factor <= factor_max(s),
        factor_max(s) == 1 || exists|i: int| 0 <= i < s.len() && (#[trigger] s[i]).hidpi_factor == factor_max(s),
        s.len() == 0 ==> factor_max(s) == 1,
    decreases s.len(),
{
    if s.len() > 0 {
        let d = s.drop_last();
        lemma_factor_is_max(d);
        assert forall|i: int| 0 <= i < s.len() implies (#[trigger] s[i]).hidpi_factor <= factor_max(s) by {
            if i < d.len() {
                assert(s[i] == d[i]);
            }
        }
        if factor_max(s) != 1 {
            if s.last().hidpi_factor > factor_max(d) {
                assert(s[s.len() - 1].hidpi_factor == factor_max(s));
            } else {
                let i = choose|i: int| 0 <= i < d.len() && (#[trigger] d[i]).hidpi_factor == factor_max(d);
                assert(s[i] == d[i]);
            }
        }
    }
}

/// Leaving an output removes every entry of it and keeps the others, in order.
pub proof fn lemma_without_output(s: Seq<MonitorId>, output: u64)
    ensures
        forall|i: int| 0 <= i < without_output(s, output).len() ==> (#[trigger] without_output(s, output)[i]).output != output,
        forall|m: MonitorId| m.output != output && #[trigger] s.contains(m) ==> without_output(s, output).contains(m),
    decreases s.len(),
{
    if s.len() > 0 {
        let d = s.drop_last();
        lemma_without_output(d, output);
        let t = without_output(d, output);
        if s.last().output != output {
            assert forall|i: int| 0 <= i < t.push(s.last()).len() implies (#[trigger] t.push(s.last())[i]).output != output by {
                if i < t.len() {
                    assert(t.push(s.last())[i] == t[i]);
                }
            }
            assert forall|m: MonitorId| m.output != output && #[trigger] s.contains(m) implies t.push(s.last()).contains(m) by {
                let k = choose|k: int| 0 <= k < s.len() && s[k] == m;
                if k < d.len() {
                    assert(d[k] == m);
                    assert(d.contains(m));
                    let j = choose|j: int| 0 <= j < t.len() && t[j] == m;
                    assert(t.push(s.last())[j] == m);
                } else {
                    assert(t.push(s.last())[t.len() as int] == m);
                }
            }
        } else {
            assert forall|m: MonitorId| m.output != output && #[trigger] s.contains(m) implies t.contains(m) by {
                let k = choose|k: int| 0 <= k < s.len() && s[k] == m;
                if k < d.len() {
                    assert(d[k] == m);
                    assert(d.contains(m));
                }
            }
        }
    }
}

} // verus!
