//! How urgently the node should treat a request.

use std::cmp::Ordering;

use vstd::prelude::*;
use vstd::std_specs::cmp::PartialOrdSpecImpl;

use crate::text::{decimal, decimal_string_u8};

verus! {

/// How urgently the node should treat a request, from most to least urgent.
#[derive(Copy, Clone, Debug, Eq, PartialEq, Structural)]
pub enum PriorityClass {
    Maximum,
    VeryHigh,
    High,
    Medium,
    Low,
    VeryLow,
    Pause,
}

impl PriorityClass {
    /// The number of the class on the wire: 0 for `Maximum` up to 6 for `Pause`.
    pub open spec fn spec_code(self) -> nat {
        match self {
            PriorityClass::Maximum => 0,
            PriorityClass::VeryHigh => 1,
            PriorityClass::High => 2,
            PriorityClass::Medium => 3,
            PriorityClass::Low => 4,
            PriorityClass::VeryLow => 5,
            PriorityClass::Pause => 6,
        }
    }

    /// The number of the class on the wire (`From<&PriorityClass> for u8`).
    pub fn code(&self) -> (res: u8)
        ensures
            res == self.spec_code(),
    {
        match self {
            PriorityClass::Maximum => 0,
            PriorityClass::VeryHigh => 1,
            PriorityClass::High => 2,
            PriorityClass::Medium => 3,
            PriorityClass::Low => 4,
            PriorityClass::VeryLow => 5,
            PriorityClass::Pause => 6,
        }
    }

    /// The text of the class on the wire (`From<&PriorityClass> for Box<str>`).
    pub fn text(&self) -> (res: String)
        ensures
            res@ == decimal(self.spec_code()),
    {
        decimal_string_u8(self.code())
    }
}

/// Classes order by urgency: a smaller number is a greater class.
pub open spec fn urgency_order(a: PriorityClass, b: PriorityClass) -> Option<Ordering> {
    if a.spec_code() < b.spec_code() {
        Some(Ordering::Greater)
    } else if a.spec_code() == b.spec_code() {
        Some(Ordering::Equal)
    } else {
        Some(Ordering::Less)
    }
}

impl PartialOrd for PriorityClass {
    fn partial_cmp(&self, other: &Self) -> (res: Option<Ordering>) {
        let a = self.code();
        let b = other.code();
        if a < b {
            Some(Ordering::Greater)
        } else if a == b {
            Some(Ordering::Equal)
        } else {
            Some(Ordering::Less)
        }
    }
}

impl PartialOrdSpecImpl for PriorityClass {
    open spec fn obeys_partial_cmp_spec() -> bool {
        true
    }

    open spec fn partial_cmp_spec(&self, other: &Self) -> Option<Ordering> {
        urgency_order(*self, *other)
    }
}

} // verus!
