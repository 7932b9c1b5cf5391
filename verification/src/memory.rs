//! Readings of the memory widget, and when two of them differ enough to redraw.
use vstd::prelude::*;

verus! {

/// The free and total bytes of one kind of memory.
#[derive(Debug, Clone, Copy, PartialEq, Eq, Structural)]
pub struct MemoryReading {
    pub free: u64,
    pub total: u64,
}

/// One poll of the system: physical memory and swap, each missing where the poll failed.
#[derive(Debug, Clone, Copy)]
pub struct MemoryAndSwapWrapper {
    pub memory: Option<MemoryReading>,
    pub swap: Option<MemoryReading>,
}

/// Two optional readings differ when both are present and their free or total bytes differ.
pub open spec fn readings_differ(a: Option<MemoryReading>, b: Option<MemoryReading>) -> bool {
    match (a, b) {
        (Some(x), Some(y)) => x.free != y.free || x.total != y.total,
        _ => false,
    }
}

/// Two polls differ when their memory readings differ or their swap readings differ.
pub open spec fn polls_differ(a: MemoryAndSwapWrapper, b: MemoryAndSwapWrapper) -> bool {
    readings_differ(a.memory, b.memory) || readings_differ(a.swap, b.swap)
}

fn optional_readings_differ(a: Option<MemoryReading>, b: Option<MemoryReading>) -> (r: bool)
    ensures
        r == readings_differ(a, b),
{
    match (a, b) {
        (Some(x), Some(y)) => x.free != y.free || x.total != y.total,
        _ => false,
    }
}

impl MemoryAndSwapWrapper {
    /// The poll that a successful read of both kinds of memory gives, or the empty poll when
    /// the read failed.
    pub fn from_reading(reading: Option<(MemoryReading, MemoryReading)>) -> (w: Self)
        ensures
            match reading {
                Some((m, s)) => w.memory == Some(m) && w.swap == Some(s),
                None => w.memory.is_none() && w.swap.is_none(),
            },
    {
        match reading {
            Some((m, s)) => MemoryAndSwapWrapper { memory: Some(m), swap: Some(s) },
            None => MemoryAndSwapWrapper { memory: None, swap: None },
        }
    }

    /// Whether the two polls differ: a reading that is missing on either side never counts
    /// as a difference.
    pub fn differs(&self, other: &Self) -> (r: bool)
        ensures
            r == polls_differ(*self, *other),
    {
        optional_readings_differ(self.memory, other.memory) || optional_readings_differ(
            self.swap,
            other.swap,
        )
    }

    /// Both readings, when both are present: what the widget formats.
    pub fn both(&self) -> (r: Option<(MemoryReading, MemoryReading)>)
        ensures
            match (self.memory, self.swap) {
                (Some(m), Some(s)) => r == Some((m, s)),
                _ => r.is_none(),
            },
    {
        match (self.memory, self.swap) {
            (Some(m), Some(s)) => Some((m, s)),
            _ => None,
        }
    }
}

impl PartialEq for MemoryAndSwapWrapper {
    fn eq(&self, other: &Self) -> (r: bool) {
        !self.differs(other)
    }
}

impl vstd::std_specs::cmp::PartialEqSpecImpl for MemoryAndSwapWrapper {
    open spec fn obeys_eq_spec() -> bool {
        true
    }

    open spec fn eq_spec(&self, other: &Self) -> bool {
        !polls_differ(*self, *other)
    }
}

/// A poll never differs from itself.
pub proof fn law_poll_equals_itself(a: MemoryAndSwapWrapper)
    ensures
        !polls_differ(a, a),
{
}

/// Whether two polls differ does not depend on their order.
pub proof fn law_poll_difference_symmetric(a: MemoryAndSwapWrapper, b: MemoryAndSwapWrapper)
    ensures
        polls_differ(a, b) == polls_differ(b, a),
{
}

/// A failed poll differs from no poll, so it never forces a redraw.
pub proof fn law_failed_poll_differs_from_none(a: MemoryAndSwapWrapper, b: MemoryAndSwapWrapper)
    requires
        a.memory.is_none(),
        a.swap.is_none(),
    ensures
        !polls_differ(a, b),
        !polls_differ(b, a),
{
}

} // verus!
