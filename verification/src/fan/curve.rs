//! Control points of a fan curve.

use std::cmp::Ordering;
use vstd::prelude::*;
use vstd::std_specs::cmp::{PartialEqSpecImpl, PartialOrdSpecImpl};

verus! {

/// One control point: at `temperature` degrees Celsius the fan runs at
/// `percentage` percent of its full speed.
///
/// Points compare by temperature alone: two points at the same temperature
/// are equal, whatever their percentages.
#[derive(Debug, Clone, Copy, Eq)]
pub struct Curve {
    pub percentage: u8,
    pub temperature: u8,
}

impl Curve {
    pub fn new(temperature: u8, percentage: u8) -> (point: Curve)
        ensures
            point.temperature == temperature,
            point.percentage == percentage,
    {
        Curve { percentage, temperature }
    }
}

impl PartialEq for Curve {
    fn eq(&self, other: &Self) -> (same: bool) {
        self.temperature == other.temperature
    }
}

impl PartialEqSpecImpl for Curve {
    open spec fn obeys_eq_spec() -> bool {
        true
    }

    open spec fn eq_spec(&self, other: &Self) -> bool {
        self.temperature == other.temperature
    }
}

impl PartialOrd for Curve {
    fn partial_cmp(&self, other: &Self) -> (order: Option<Ordering>) {
        if self.temperature < other.temperature {
            Some(Ordering::Less)
        } else if self.temperature == other.temperature {
            Some(Ordering::Equal)
        } else {
            Some(Ordering::Greater)
        }
    }
}

impl PartialOrdSpecImpl for Curve {
    open spec fn obeys_partial_cmp_spec() -> bool {
        true
    }

    open spec fn partial_cmp_spec(&self, other: &Self) -> Option<Ordering> {
        if self.temperature < other.temperature {
            Some(Ordering::Less)
        } else if self.temperature == other.temperature {
            Some(Ordering::Equal)
        } else {
            Some(Ordering::Greater)
        }
    }
}

/// Each point lies at a higher temperature than the one before it.
pub open spec fn ascending(curve: Seq<Curve>) -> bool {
    forall|j: int, k: int| 0 <= j < k < curve.len() ==> curve[j].temperature < curve[k].temperature
}

} // verus!
