//! The priority levels by which queued messages are ranked.

use std::cmp::Ordering;
use vstd::prelude::*;

verus! {

/// The rank of a message. `Stop` outranks every operational level.
#[derive(Debug, Clone, Copy, PartialEq, Eq, Structural, Ord, Hash)]
pub enum Priority {
    Low,
    Medium,
    High,
    Stop,
}

impl Priority {
    /// The position of a level in the order `Low < Medium < High < Stop`.
    pub open spec fn rank(self) -> nat {
        match self {
            Priority::Low => 0,
            Priority::Medium => 1,
            Priority::High => 2,
            Priority::Stop => 3,
        }
    }

    /// How two levels compare: the comparison of their ranks.
    pub open spec fn compare(self, other: Priority) -> Ordering {
        if self.rank() < other.rank() {
            Ordering::Less
        } else if self.rank() == other.rank() {
            Ordering::Equal
        } else {
            Ordering::Greater
        }
    }

    /// The position of this level in the order, as a number.
    pub fn level(&self) -> (r: u8)
        ensures
            r == self.rank(),
    {
        match self {
            Priority::Low => 0,
            Priority::Medium => 1,
            Priority::High => 2,
            Priority::Stop => 3,
        }
    }

    /// Whether this level ranks strictly above `other`.
    pub fn outranks(&self, other: &Priority) -> (b: bool)
        ensures
            b == (self.rank() > other.rank()),
    {
        self.level() > other.level()
    }
}

/// The order of the levels is total: of two levels one ranks below the other
/// or they are the same level; what ranks below a level ranks below all that
/// rank above it; and `Stop` ranks strictly above every other level.
pub proof fn law_priority_order_is_total(a: Priority, b: Priority, c: Priority)
    ensures
        a.compare(b) == Ordering::Equal <==> a == b,
        a.compare(b) == Ordering::Less <==> b.compare(a) == Ordering::Greater,
        a.compare(b) == Ordering::Less && b.compare(c) == Ordering::Less ==> a.compare(c)
            == Ordering::Less,
        a != Priority::Stop ==> a.compare(Priority::Stop) == Ordering::Less,
{
}

impl Default for Priority {
    /// The rank of a value that declares none: `Medium`.
    fn default() -> (p: Priority)
        ensures
            p == Priority::Medium,
    {
        Priority::Medium
    }
}

impl PartialOrd for Priority {
    fn partial_cmp(&self, other: &Priority) -> (r: Option<Ordering>) {
        let a: u8 = self.level();
        let b: u8 = other.level();
        if a < b {
            Some(Ordering::Less)
        } else if a == b {
            Some(Ordering::Equal)
        } else {
            Some(Ordering::Greater)
        }
    }
}

impl vstd::std_specs::cmp::PartialOrdSpecImpl for Priority {
    open spec fn obeys_partial_cmp_spec() -> bool {
        true
    }

    open spec fn partial_cmp_spec(&self, other: &Priority) -> Option<Ordering> {
        Some(self.compare(*other))
    }
}

/// Anything that can be ranked.
///
/// `spec_priority` is the rank that contracts speak of; `priority` computes it.
/// A type that names no rank of its own has the default one, `Medium`, and
/// answers with `Priority::default()`.
pub trait Prioritized {
    /// The rank of this value.
    open spec fn spec_priority(&self) -> Priority {
        Priority::Medium
    }

    /// Computes the rank of this value.
    fn priority(&self) -> (p: Priority)
        ensures
            p == self.spec_priority(),
    ;
}

impl Prioritized for Priority {
    open spec fn spec_priority(&self) -> Priority {
        *self
    }

    fn priority(&self) -> (p: Priority) {
        *self
    }
}

/// A value that is compared by its priority alone: two wrapped values are equal
/// when they rank the same, and the one of higher rank is the greater.
pub struct PrioritizedWrapper<T>(pub T);

impl<T: Prioritized> PrioritizedWrapper<T> {
    /// The rank of the wrapped value.
    pub open spec fn spec_priority(&self) -> Priority {
        self.0.spec_priority()
    }

    /// The comparison of the two ranks.
    pub fn cmp(&self, other: &Self) -> (r: Ordering)
        ensures
            r == self.spec_priority().compare(other.spec_priority()),
    {
        let a: u8 = self.0.priority().level();
        let b: u8 = other.0.priority().level();
        if a < b {
            Ordering::Less
        } else if a == b {
            Ordering::Equal
        } else {
            Ordering::Greater
        }
    }
}

impl<T: Prioritized> PartialEq for PrioritizedWrapper<T> {
    fn eq(&self, other: &Self) -> (r: bool) {
        self.0.priority() == other.0.priority()
    }
}

impl<T: Prioritized> vstd::std_specs::cmp::PartialEqSpecImpl for PrioritizedWrapper<T> {
    open spec fn obeys_eq_spec() -> bool {
        true
    }

    open spec fn eq_spec(&self, other: &Self) -> bool {
        self.0.spec_priority() == other.0.spec_priority()
    }
}

impl<T: Prioritized> Eq for PrioritizedWrapper<T> {
}

impl<T: Prioritized> PartialOrd for PrioritizedWrapper<T> {
    fn partial_cmp(&self, other: &Self) -> (r: Option<Ordering>) {
        Some(self.cmp(other))
    }
}

impl<T: Prioritized> vstd::std_specs::cmp::PartialOrdSpecImpl for PrioritizedWrapper<T> {
    open spec fn obeys_partial_cmp_spec() -> bool {
        true
    }

    open spec fn partial_cmp_spec(&self, other: &Self) -> Option<Ordering> {
        Some(self.0.spec_priority().compare(other.0.spec_priority()))
    }
}

} // verus!
