//! Flow-control accounting for one link between a publisher and a subscriber.

use vstd::prelude::*;

verus! {

/// How many more values a consumer will currently accept.
///
/// The model of a demand is an `Option<nat>`: `None` stands for an unlimited
/// demand, `Some(n)` for a demand of exactly `n` further values.
#[derive(Debug, Clone, Copy, PartialEq, Eq, Structural)]
pub struct Demand {
    count: u64,
}

impl View for Demand {
    type V = Option<nat>;

    closed spec fn view(&self) -> Option<nat> {
        if self.count == u64::MAX {
            None
        } else {
            Some(self.count as nat)
        }
    }
}

impl Demand {
    /// What is left of the demand `demand` once `count` values have been
    /// taken from it: `None` when it cannot cover them.
    pub open spec fn spec_consumed(demand: Option<nat>, count: nat) -> Option<Option<nat>> {
        match demand {
            None => Some(None),
            Some(left) => if count <= left {
                Some(Some((left - count) as nat))
            } else {
                None
            },
        }
    }

    /// The model of an optional demand.
    pub open spec fn view_of(demand: Option<Demand>) -> Option<Option<nat>> {
        match demand {
            Some(d) => Some(d@),
            None => None,
        }
    }

    /// A demand that accepts no further value.
    pub fn nothing() -> (demand: Self)
        ensures
            demand@ == Some(0nat),
    {
        Self { count: 0 }
    }

    /// A demand that accepts any number of values.
    pub fn unlimited() -> (demand: Self)
        ensures
            demand@ == None::<nat>,
    {
        Self { count: u64::MAX }
    }

    /// Takes `count` values from the demand. An unlimited demand stays
    /// unlimited; a bounded one is reduced by `count`, or is exhausted
    /// (`None`) when fewer than `count` values are left.
    pub fn consumed(self, count: u64) -> (left: Option<Self>)
        ensures
            Self::view_of(left) == Self::spec_consumed(self@, count as nat),
    {
        if self.count == u64::MAX {
            Some(self)
        } else if self.count >= count {
            Some(Self { count: self.count - count })
        } else {
            None
        }
    }

    /// A bounded demand holds fewer values than the largest `u64`, which is
    /// kept for the unlimited demand.
    pub proof fn lemma_bounded_below_sentinel(self)
        ensures
            self@ matches Some(left) ==> left < u64::MAX,
    {
    }

    /// Two demands with the same model are the same demand.
    pub proof fn lemma_view_injective(self, other: Self)
        requires
            self@ == other@,
        ensures
            self == other,
    {
    }

    /// An unlimited demand stays unlimited, whatever is taken from it.
    pub proof fn lemma_unlimited_stays_unlimited(count: nat)
        ensures
            Self::spec_consumed(None, count) == Some(None::<nat>),
    {
    }

    /// Taking nothing never exhausts a demand, and leaves it as it was.
    pub proof fn lemma_zero_never_exhausts(demand: Option<nat>)
        ensures
            Self::spec_consumed(demand, 0) == Some(demand),
    {
    }

    /// Taking `first` and then `second` values leaves what taking
    /// `first + second` at once leaves, and is exhausted exactly when that is.
    pub proof fn lemma_consumed_adds_up(demand: Option<nat>, first: nat, second: nat)
        ensures
            match Self::spec_consumed(demand, first) {
                Some(rest) => Self::spec_consumed(rest, second) == Self::spec_consumed(
                    demand,
                    first + second,
                ),
                None => Self::spec_consumed(demand, first + second).is_none(),
            },
    {
    }
}

} // verus!
