//! Taste profiles: one exact fraction per genre, all over the same
//! denominator.

use crate::genres::DIMENSIONS;
use vstd::prelude::*;

verus! {

/// Largest total weight a profile can carry. It leaves room for the sums the
/// scorer forms over a whole feature vector.
pub const MAX_TOTAL_WEIGHT: u128 = 0x10_0000_0000_0000_0000_0000_0000;

/// A profile as plain values: entry `i` of the viewer's taste vector is the
/// fraction `weighted[i] / total`, or zero when `total` is zero.
pub struct ProfileView {
    pub weighted: Seq<nat>,
    pub total: nat,
}

impl ProfileView {
    /// One entry per genre, every entry a fraction between 0 and 1, and a
    /// denominator within `MAX_TOTAL_WEIGHT`.
    pub open spec fn well_formed(self) -> bool {
        &&& self.weighted.len() == DIMENSIONS
        &&& self.total <= MAX_TOTAL_WEIGHT
        &&& forall|i: int| 0 <= i < DIMENSIONS ==> #[trigger] self.weighted[i] <= self.total
    }

    /// Every entry of the taste vector is zero.
    pub open spec fn is_zero(self) -> bool {
        forall|i: int| 0 <= i < self.weighted.len() ==> #[trigger] self.weighted[i] == 0
    }

    /// The profile of a viewer about whom nothing is known.
    pub open spec fn zero() -> ProfileView {
        ProfileView { weighted: Seq::new(DIMENSIONS as nat, |i: int| 0nat), total: 0 }
    }
}

/// A viewer's taste vector. Always well formed.
#[derive(Debug, PartialEq, Eq)]
pub struct Profile {
    weighted: Vec<u128>,
    total: u128,
}

/// The numerators of a profile as natural numbers.
pub open spec fn weights_view(weighted: Seq<u128>) -> Seq<nat> {
    weighted.map_values(|w: u128| w as nat)
}

impl View for Profile {
    type V = ProfileView;

    closed spec fn view(&self) -> ProfileView {
        ProfileView { weighted: weights_view(self.weighted@), total: self.total as nat }
    }
}

impl Profile {
    #[verifier::type_invariant]
    spec fn holds(self) -> bool {
        self@.well_formed()
    }

    /// A profile from its numerators and their denominator, if they form
    /// one: `DIMENSIONS` numerators, none above the denominator, and the
    /// denominator within `MAX_TOTAL_WEIGHT`.
    pub fn from_parts(weighted: Vec<u128>, total: u128) -> (profile: Option<Profile>)
        ensures
            match profile {
                Some(p) => p@.weighted == weights_view(weighted@) && p@.total == total
                    && p@.well_formed(),
                None => !(ProfileView {
                    weighted: weights_view(weighted@),
                    total: total as nat,
                }).well_formed(),
            },
    {
        if weighted.len() != DIMENSIONS || total > MAX_TOTAL_WEIGHT {
            return None;
        }
        let mut i: usize = 0;
        while i < DIMENSIONS
            invariant
                i <= DIMENSIONS,
                weighted@.len() == DIMENSIONS,
                forall|j: int| 0 <= j < i ==> weighted@[j] <= total,
            decreases DIMENSIONS - i,
        {
            if weighted[i] > total {
                proof {
                    let view = ProfileView {
                        weighted: weights_view(weighted@),
                        total: total as nat,
                    };
                    assert(view.weighted[i as int] > view.total);
                }
                return None;
            }
            i += 1;
        }
        Some(Profile { weighted, total })
    }

    /// A profile from parts already known to form one.
    pub(crate) fn assemble(weighted: Vec<u128>, total: u128) -> (profile: Profile)
        requires
            (ProfileView { weighted: weights_view(weighted@), total: total as nat }).well_formed(),
        ensures
            profile@.weighted == weights_view(weighted@),
            profile@.total == total,
    {
        Profile { weighted, total }
    }

    /// All the numerators, one per genre.
    pub fn numerators(&self) -> (weighted: &Vec<u128>)
        ensures
            weights_view(weighted@) == self@.weighted,
            self@.well_formed(),
    {
        proof {
            use_type_invariant(self);
        }
        &self.weighted
    }

    /// The all-zero profile.
    pub fn zero() -> (profile: Profile)
        ensures
            profile@ == ProfileView::zero(),
    {
        let mut weighted: Vec<u128> = Vec::new();
        let mut i: usize = 0;
        while i < DIMENSIONS
            invariant
                i <= DIMENSIONS,
                weighted@.len() == i,
                forall|j: int| 0 <= j < i ==> weighted@[j] == 0,
            decreases DIMENSIONS - i,
        {
            weighted.push(0);
            i += 1;
        }
        let profile = Profile { weighted, total: 0 };
        assert(profile@.weighted =~= ProfileView::zero().weighted);
        profile
    }

    /// The common denominator of the entries.
    pub fn total(&self) -> (total: u128)
        ensures
            total == self@.total,
            self@.well_formed(),
    {
        proof {
            use_type_invariant(self);
        }
        self.total
    }

    /// The numerator of entry `i`, or `None` when `i` names no genre.
    pub fn weighted(&self, i: usize) -> (numerator: Option<u128>)
        ensures
            self@.well_formed(),
            match numerator {
                Some(w) => i < DIMENSIONS && w == self@.weighted[i as int],
                None => i >= DIMENSIONS,
            },
    {
        proof {
            use_type_invariant(self);
        }
        if i < DIMENSIONS {
            Some(self.weighted[i])
        } else {
            None
        }
    }
}

impl Clone for Profile {
    fn clone(&self) -> (copy: Self)
        ensures
            copy@ == self@,
    {
        proof {
            use_type_invariant(self);
        }
        let mut weighted: Vec<u128> = Vec::new();
        let mut i: usize = 0;
        while i < DIMENSIONS
            invariant
                i <= DIMENSIONS,
                self.weighted@.len() == DIMENSIONS,
                weighted@.len() == i,
                forall|j: int| 0 <= j < i ==> weighted@[j] == self.weighted@[j],
            decreases DIMENSIONS - i,
        {
            weighted.push(self.weighted[i]);
            i += 1;
        }
        assert(weights_view(weighted@) =~= weights_view(self.weighted@));
        Profile { weighted, total: self.total }
    }
}

} // verus!
