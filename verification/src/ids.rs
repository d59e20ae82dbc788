//! An unordered pair of two distinct users, as a friendship is keyed.
use vstd::prelude::*;
use crate::errors::FriendshipError;

verus! {

/// Two distinct user IDs, held in ascending order so that a pair built from
/// `(a, b)` and one built from `(b, a)` are the same value.
#[derive(PartialEq, Eq, Structural, Clone, Copy, Debug)]
pub struct UserIdPair {
    lesser: i32,
    greater: i32,
}

/// The smaller of two IDs.
pub open spec fn min_id(a: i32, b: i32) -> i32 {
    if a < b { a } else { b }
}

/// The larger of two IDs.
pub open spec fn max_id(a: i32, b: i32) -> i32 {
    if a < b { b } else { a }
}

impl UserIdPair {
    #[verifier::type_invariant]
    spec fn ordered(self) -> bool {
        self.lesser < self.greater
    }

    /// The smaller ID of the pair.
    pub closed spec fn first(self) -> i32 {
        self.lesser
    }

    /// The larger ID of the pair.
    pub closed spec fn second(self) -> i32 {
        self.greater
    }

    /// A pair is made of two distinct IDs in ascending order.
    pub open spec fn valid_pair(self) -> bool {
        self.first() < self.second()
    }

    /// Whether `id` is one of the two users.
    pub open spec fn has(self, id: i32) -> bool {
        id == self.first() || id == self.second()
    }

    /// The pair that `new(a, b)` builds, for distinct `a` and `b`.
    pub closed spec fn spec_new(a: i32, b: i32) -> UserIdPair {
        UserIdPair { lesser: min_id(a, b), greater: max_id(a, b) }
    }

    pub proof fn lemma_spec_new(a: i32, b: i32)
        ensures
            Self::spec_new(a, b).first() == min_id(a, b),
            Self::spec_new(a, b).second() == max_id(a, b),
    {
    }

    /// Builds the pair of two users; a user cannot be paired with themselves.
    pub fn new(a: i32, b: i32) -> (r: Result<UserIdPair, FriendshipError>)
        ensures
            a == b <==> r == Err::<UserIdPair, FriendshipError>(FriendshipError::SelfFriendship),
            a != b ==> r == Ok::<UserIdPair, FriendshipError>(Self::spec_new(a, b)),
            r matches Ok(p) ==> p.valid_pair() && p.first() == min_id(a, b) && p.second() == max_id(a, b),
    {
        if a == b {
            Err(FriendshipError::SelfFriendship)
        } else if a < b {
            Ok(UserIdPair { lesser: a, greater: b })
        } else {
            Ok(UserIdPair { lesser: b, greater: a })
        }
    }

    /// The smaller ID.
    pub fn lesser(&self) -> (r: i32)
        ensures
            r == self.first(),
            self.valid_pair(),
    {
        proof {
            use_type_invariant(self);
        }
        self.lesser
    }

    /// The larger ID.
    pub fn greater(&self) -> (r: i32)
        ensures
            r == self.second(),
            self.valid_pair(),
    {
        proof {
            use_type_invariant(self);
        }
        self.greater
    }

    /// Whether `id` is the smaller ID of the pair; nothing when `id` is not in the pair.
    pub fn is_lesser(&self, id: i32) -> (r: Option<bool>)
        ensures
            r == (if id == self.first() {
                Some(true)
            } else if id == self.second() {
                Some(false)
            } else {
                None::<bool>
            }),
    {
        if id == self.lesser {
            Some(true)
        } else if id == self.greater {
            Some(false)
        } else {
            None
        }
    }
}

/// The pair does not depend on the order in which the two users are given.
pub proof fn law_pair_order_independent(a: i32, b: i32)
    requires
        a != b,
    ensures
        UserIdPair::spec_new(a, b) == UserIdPair::spec_new(b, a),
        UserIdPair::spec_new(a, b).has(a) && UserIdPair::spec_new(a, b).has(b),
        UserIdPair::spec_new(a, b).first() < UserIdPair::spec_new(a, b).second(),
{
}

} // verus!
