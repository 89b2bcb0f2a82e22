use vstd::prelude::*;

verus! {

/// How urgent a to-do item is, ordered `Low < Normal < High`.
#[derive(Clone, Copy, Debug, PartialEq, Eq, Structural, Ord)]
pub enum Urgency {
    Low,
    Normal,
    High,
}

impl Urgency {
    /// The position of the urgency in the order `Low < Normal < High`.
    pub open spec fn spec_rank(self) -> int {
        match self {
            Urgency::Low => 0,
            Urgency::Normal => 1,
            Urgency::High => 2,
        }
    }

    /// The position of the urgency in the order `Low < Normal < High`.
    pub fn rank(&self) -> (r: u8)
        ensures
            r == self.spec_rank(),
    {
        match self {
            Urgency::Low => 0,
            Urgency::Normal => 1,
            Urgency::High => 2,
        }
    }

    /// Whether `self` is at least as urgent as `other`.
    pub open spec fn spec_at_least(self, other: Urgency) -> bool {
        self.spec_rank() >= other.spec_rank()
    }

    /// Whether `self` is at least as urgent as `other`.
    pub fn at_least(&self, other: &Urgency) -> (r: bool)
        ensures
            r == self.spec_at_least(*other),
    {
        self.rank() >= other.rank()
    }
}

/// How `a` compares with `b` in the order `Low < Normal < High`.
pub open spec fn rank_ordering(a: Urgency, b: Urgency) -> core::cmp::Ordering {
    if a.spec_rank() < b.spec_rank() {
        core::cmp::Ordering::Less
    } else if a.spec_rank() == b.spec_rank() {
        core::cmp::Ordering::Equal
    } else {
        core::cmp::Ordering::Greater
    }
}

impl PartialOrd for Urgency {
    fn partial_cmp(&self, other: &Urgency) -> (r: Option<core::cmp::Ordering>) {
        let a = self.rank();
        let b = other.rank();
        if a < b {
            Some(core::cmp::Ordering::Less)
        } else if a == b {
            Some(core::cmp::Ordering::Equal)
        } else {
            Some(core::cmp::Ordering::Greater)
        }
    }
}

impl vstd::std_specs::cmp::PartialOrdSpecImpl for Urgency {
    open spec fn obeys_partial_cmp_spec() -> bool {
        true
    }

    open spec fn partial_cmp_spec(&self, other: &Urgency) -> Option<core::cmp::Ordering> {
        Some(rank_ordering(*self, *other))
    }
}

} // verus!
