//! Byte counters of a proxy: bytes sent and bytes received.
use vstd::prelude::*;

verus! {

/// Bytes sent (first) and bytes received (second) through a proxy.
#[derive(Clone, Copy, Debug, PartialEq, Eq, Structural)]
pub struct Traffic(pub u64, pub u64);

/// The sum of two counters, field by field, as integers.
pub open spec fn traffic_sum(a: Traffic, b: Traffic) -> (int, int) {
    (a.0 + b.0, a.1 + b.1)
}

/// Whether adding two counters stays within `u64` (adding them overflows
/// otherwise).
pub open spec fn can_add(a: Traffic, b: Traffic) -> bool {
    a.0 + b.0 <= u64::MAX && a.1 + b.1 <= u64::MAX
}

impl Traffic {
    /// No bytes either way.
    pub fn default() -> (res: Traffic)
        ensures
            res == Traffic(0, 0),
    {
        Traffic(0, 0)
    }

    /// The field-by-field sum.
    pub fn add(self, rhs: Traffic) -> (res: Traffic)
        requires
            can_add(self, rhs),
        ensures
            (res.0 as int, res.1 as int) == traffic_sum(self, rhs),
    {
        Traffic(self.0 + rhs.0, self.1 + rhs.1)
    }

    /// Adds `rhs` to the counters.
    pub fn add_assign(&mut self, rhs: Traffic)
        requires
            can_add(*old(self), rhs),
        ensures
            (final(self).0 as int, final(self).1 as int) == traffic_sum(*old(self), rhs),
    {
        self.0 = self.0 + rhs.0;
        self.1 = self.1 + rhs.1;
    }
}

/// Adding counters does not depend on their order.
pub proof fn lemma_traffic_add_commutative(a: Traffic, b: Traffic)
    ensures
        can_add(a, b) == can_add(b, a),
        traffic_sum(a, b) == traffic_sum(b, a),
{
}

/// Adding counters does not depend on their grouping.
pub proof fn lemma_traffic_add_associative(a: Traffic, b: Traffic, c: Traffic)
    requires
        can_add(a, b),
        can_add(Traffic((a.0 + b.0) as u64, (a.1 + b.1) as u64), c),
    ensures
        can_add(b, c),
        can_add(a, Traffic((b.0 + c.0) as u64, (b.1 + c.1) as u64)),
        traffic_sum(Traffic((a.0 + b.0) as u64, (a.1 + b.1) as u64), c) == traffic_sum(
            a,
            Traffic((b.0 + c.0) as u64, (b.1 + c.1) as u64),
        ),
{
}

/// Adding the empty counters changes nothing.
pub proof fn lemma_traffic_add_zero(a: Traffic)
    ensures
        can_add(a, Traffic(0, 0)),
        traffic_sum(a, Traffic(0, 0)) == (a.0 as int, a.1 as int),
{
}

} // verus!
