//! Pitch dice are ordered by their numbers.

use vstd::prelude::*;
use core::cmp::Ordering;
use vstd::std_specs::cmp::PartialOrdSpecImpl;
use crate::pd::PD;

verus! {

/// How two numbers compare.
pub open spec fn compare_numbers(a: int, b: int) -> Ordering {
    if a < b {
        Ordering::Less
    } else if a == b {
        Ordering::Equal
    } else {
        Ordering::Greater
    }
}

impl PartialOrd for PD {
    fn partial_cmp(&self, other: &PD) -> (r: Option<Ordering>) {
        let a = self.to_int();
        let b = other.to_int();
        if a < b {
            Some(Ordering::Less)
        } else if a == b {
            Some(Ordering::Equal)
        } else {
            Some(Ordering::Greater)
        }
    }
}

impl PartialOrdSpecImpl for PD {
    open spec fn obeys_partial_cmp_spec() -> bool {
        true
    }

    open spec fn partial_cmp_spec(&self, other: &PD) -> Option<Ordering> {
        Some(compare_numbers(self.value(), other.value()))
    }
}

} // verus!
