//! The tiers that order identities.

use core::cmp::Ordering;
use vstd::prelude::*;
use vstd::std_specs::cmp::PartialOrdSpecImpl;

verus! {

/// The role level of an identity. Tiers are totally ordered:
/// `Guest < Member < Officer < Admin`, and they compare with `<` and `>=`
/// accordingly.
#[derive(Clone, Copy, Debug, PartialEq, Eq, Structural)]
pub enum Tier {
    Guest,
    Member,
    Officer,
    Admin,
}

impl Tier {
    /// The position of the tier in the order, from 0 for `Guest` to 3 for
    /// `Admin`.
    pub open spec fn spec_rank(self) -> u8 {
        match self {
            Tier::Guest => 0,
            Tier::Member => 1,
            Tier::Officer => 2,
            Tier::Admin => 3,
        }
    }

    /// The position of the tier in the order.
    #[verifier::when_used_as_spec(spec_rank)]
    pub fn rank(self) -> (r: u8)
        ensures
            r == self.spec_rank(),
    {
        match self {
            Tier::Guest => 0,
            Tier::Member => 1,
            Tier::Officer => 2,
            Tier::Admin => 3,
        }
    }

    /// Whether an identity of this tier may invoke an operation that asks
    /// for `required`: its tier is not below the required one.
    pub open spec fn spec_permits(self, required: Tier) -> bool {
        self.spec_rank() >= required.spec_rank()
    }

    /// Whether an identity of this tier may invoke an operation that asks
    /// for `required`: the same as `self >= required`.
    #[verifier::when_used_as_spec(spec_permits)]
    pub fn permits(self, required: Tier) -> (ok: bool)
        ensures
            ok == self.spec_permits(required),
    {
        self >= required
    }

    /// The tier with the given rank, if there is one.
    pub fn from_rank(rank: u8) -> (t: Option<Tier>)
        ensures
            rank <= 3 ==> t is Some && t->0.spec_rank() == rank,
            rank > 3 ==> t is None,
    {
        if rank == 0 {
            Some(Tier::Guest)
        } else if rank == 1 {
            Some(Tier::Member)
        } else if rank == 2 {
            Some(Tier::Officer)
        } else if rank == 3 {
            Some(Tier::Admin)
        } else {
            None
        }
    }
}

impl PartialOrd for Tier {
    fn partial_cmp(&self, other: &Tier) -> (r: Option<Ordering>) {
        let a = self.rank();
        let b = other.rank();
        if a < b {
            Some(Ordering::Less)
        } else if a == b {
            Some(Ordering::Equal)
        } else {
            Some(Ordering::Greater)
        }
    }
}

impl PartialOrdSpecImpl for Tier {
    open spec fn obeys_partial_cmp_spec() -> bool {
        true
    }

    /// Tiers compare as their ranks do.
    open spec fn partial_cmp_spec(&self, other: &Tier) -> Option<Ordering> {
        if self.spec_rank() < other.spec_rank() {
            Some(Ordering::Less)
        } else if self.spec_rank() == other.spec_rank() {
            Some(Ordering::Equal)
        } else {
            Some(Ordering::Greater)
        }
    }
}

} // verus!
