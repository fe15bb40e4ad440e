//! The order of tiers: one tier comes before another when its number is smaller.

use std::cmp::Ordering;
use vstd::prelude::*;
use vstd::std_specs::cmp::PartialOrdSpec;
use crate::action::{tier_number, Tier};

verus! {

/// Tiers compare by their numbers, which follow the unlock order.
pub open spec fn tier_comparison(a: Tier, b: Tier) -> Option<Ordering> {
    if tier_number(a) < tier_number(b) {
        Some(Ordering::Less)
    } else if tier_number(a) == tier_number(b) {
        Some(Ordering::Equal)
    } else {
        Some(Ordering::Greater)
    }
}

impl PartialOrd for Tier {
    fn partial_cmp(&self, other: &Self) -> (r: Option<Ordering>) {
        let a = self.number();
        let b = other.number();
        if a < b {
            Some(Ordering::Less)
        } else if a == b {
            Some(Ordering::Equal)
        } else {
            Some(Ordering::Greater)
        }
    }
}

impl vstd::std_specs::cmp::PartialOrdSpecImpl for Tier {
    open spec fn obeys_partial_cmp_spec() -> bool {
        true
    }

    open spec fn partial_cmp_spec(&self, other: &Self) -> Option<Ordering> {
        tier_comparison(*self, *other)
    }
}

/// Tiers are ordered by their numbers: a tier comes before another exactly when its
/// number is smaller, and two tiers compare equal exactly when they are the same tier.
pub proof fn lemma_tier_order(a: Tier, b: Tier)
    ensures
        a.partial_cmp_spec(&b) == Some(Ordering::Less) <==> tier_number(a) < tier_number(b),
        a.partial_cmp_spec(&b) == Some(Ordering::Greater) <==> tier_number(b) < tier_number(a),
        a.partial_cmp_spec(&b) == Some(Ordering::Equal) <==> a == b,
{
}

} // verus!
