//! Friendships: how a stored friendship row reads as a status, what a friend
//! request does in each status, and a table of friendships that keeps these rules.
use vstd::prelude::*;
use crate::errors::{DomainError, FriendshipError};
use crate::ids::{UserIdPair, min_id, max_id};

verus! {

/// The relationship between two users.
#[derive(PartialEq, Eq, Structural, Clone, Copy, Debug)]
pub enum FriendshipStatus {
    /// The two users are confirmed friends.
    Friends,
    /// There is a pending request from the user with the contained ID.
    PendingFrom(i32),
    /// There is no existing relationship between the two users.
    Nil,
}

/// The stored state of a friendship between the two users of a pair: whether the
/// smaller ID sent the request, and whether the request was accepted.
#[derive(PartialEq, Eq, Structural, Clone, Copy, Debug)]
pub struct FriendshipRow {
    pub requester_first: bool,
    pub confirmed: bool,
}

/// The status that a stored row (or its absence) stands for.
pub open spec fn spec_status_from_row(first: i32, second: i32, row: Option<FriendshipRow>) -> FriendshipStatus {
    match row {
        None => FriendshipStatus::Nil,
        Some(r) => if r.confirmed {
            FriendshipStatus::Friends
        } else if r.requester_first {
            FriendshipStatus::PendingFrom(first)
        } else {
            FriendshipStatus::PendingFrom(second)
        },
    }
}

/// Reads a stored row of the pair `ids` as a status.
pub fn status_from_row(ids: &UserIdPair, row: Option<FriendshipRow>) -> (s: FriendshipStatus)
    ensures
        s == spec_status_from_row(ids.first(), ids.second(), row),
{
    match row {
        None => FriendshipStatus::Nil,
        Some(r) => if r.confirmed {
            FriendshipStatus::Friends
        } else if r.requester_first {
            FriendshipStatus::PendingFrom(ids.lesser())
        } else {
            FriendshipStatus::PendingFrom(ids.greater())
        },
    }
}

/// Whether two users are friends, given their status.
pub fn is_friends(status: FriendshipStatus) -> (r: bool)
    ensures
        r == (status == FriendshipStatus::Friends),
{
    match status {
        FriendshipStatus::Friends => true,
        _ => false,
    }
}

/// What a friend request changes in the store.
#[derive(PartialEq, Eq, Structural, Clone, Copy, Debug)]
pub enum FriendAction {
    /// Accept the pending request in the opposite direction.
    Accept,
    /// Store a new request from the sender.
    Request,
}

/// The outcome of a friend request, named by what it found or did.
#[derive(PartialEq, Eq, Structural, Clone, Copy, Debug)]
pub enum FriendshipOutcome {
    AlreadyFriends,
    AlreadyRequested,
    BecameFriends,
    CreatedRequest,
}

/// What a friend request from `sender_id` does when the pair has status `status`.
pub open spec fn spec_plan_add_friend(sender_id: i32, status: FriendshipStatus) -> Result<FriendAction, FriendshipError> {
    match status {
        FriendshipStatus::Friends => Err(FriendshipError::AlreadyFriends),
        FriendshipStatus::PendingFrom(id) => if id == sender_id {
            Err(FriendshipError::AlreadyRequested)
        } else {
            Ok(FriendAction::Accept)
        },
        FriendshipStatus::Nil => Ok(FriendAction::Request),
    }
}

/// Decides a friend request: already friends, or a request from the sender already
/// pending, refuse; a request pending in the opposite direction, accept it; no
/// relationship, create a request from the sender.
pub fn plan_add_friend(sender_id: i32, status: FriendshipStatus) -> (r: Result<FriendAction, FriendshipError>)
    ensures
        r == spec_plan_add_friend(sender_id, status),
{
    match status {
        FriendshipStatus::Friends => Err(FriendshipError::AlreadyFriends),
        FriendshipStatus::PendingFrom(id) => if id == sender_id {
            Err(FriendshipError::AlreadyRequested)
        } else {
            Ok(FriendAction::Accept)
        },
        FriendshipStatus::Nil => Ok(FriendAction::Request),
    }
}

/// The answer to a friend request once its action was carried out: `true` when
/// the two users became friends, `false` when a new request was created.
pub fn add_friend_result(action: FriendAction) -> (r: bool)
    ensures
        r == (action == FriendAction::Accept),
{
    match action {
        FriendAction::Accept => true,
        FriendAction::Request => false,
    }
}

/// What a friend request from `sender_id` answers, and the status of the pair after
/// it, when the pair had status `status`.
pub open spec fn spec_add_friend(sender_id: i32, status: FriendshipStatus) -> (Result<bool, FriendshipError>, FriendshipStatus) {
    match spec_plan_add_friend(sender_id, status) {
        Err(e) => (Err(e), status),
        Ok(FriendAction::Accept) => (Ok(true), FriendshipStatus::Friends),
        Ok(FriendAction::Request) => (Ok(false), FriendshipStatus::PendingFrom(sender_id)),
    }
}

/// A friendship, once made, is kept: no friend request in either direction changes it.
pub proof fn law_friends_stay_friends(sender_id: i32)
    ensures
        spec_add_friend(sender_id, FriendshipStatus::Friends) == (
            Err::<bool, FriendshipError>(FriendshipError::AlreadyFriends), FriendshipStatus::Friends),
{
}

/// Two requests in opposite directions make two strangers friends: the first stores
/// a request, the second accepts it.
pub proof fn law_mutual_requests_make_friends(a: i32, b: i32)
    requires
        a != b,
    ensures
        spec_add_friend(a, FriendshipStatus::Nil) == (Ok::<bool, FriendshipError>(false), FriendshipStatus::PendingFrom(a)),
        spec_add_friend(b, FriendshipStatus::PendingFrom(a)) == (Ok::<bool, FriendshipError>(true), FriendshipStatus::Friends),
{
}

/// Repeating a pending request is refused and changes nothing.
pub proof fn law_repeated_request_refused(a: i32)
    ensures
        spec_add_friend(a, FriendshipStatus::PendingFrom(a)) == (
            Err::<bool, FriendshipError>(FriendshipError::AlreadyRequested), FriendshipStatus::PendingFrom(a)),
{
}

/// A refused request leaves the status as it was; an accepted one always ends with
/// the pair related (pending or friends).
pub proof fn law_add_friend_effect(sender_id: i32, status: FriendshipStatus)
    ensures
        spec_add_friend(sender_id, status).0 is Err ==> spec_add_friend(sender_id, status).1 == status,
        spec_add_friend(sender_id, status).0 is Ok ==> spec_add_friend(sender_id, status).1 != FriendshipStatus::Nil,
        spec_add_friend(sender_id, status).0 == Ok::<bool, FriendshipError>(true) <==> (status matches FriendshipStatus::PendingFrom(x) && x != sender_id),
{
}

/// The outcome of a friend request from `sender_id` in status `status`.
pub open spec fn spec_outcome(sender_id: i32, status: FriendshipStatus) -> FriendshipOutcome {
    match spec_plan_add_friend(sender_id, status) {
        Err(FriendshipError::AlreadyFriends) => FriendshipOutcome::AlreadyFriends,
        Err(_) => FriendshipOutcome::AlreadyRequested,
        Ok(FriendAction::Accept) => FriendshipOutcome::BecameFriends,
        Ok(FriendAction::Request) => FriendshipOutcome::CreatedRequest,
    }
}

/// The outcome of a request names what the request did: a request to a friend is
/// refused as "already friends"; a request repeated by the user who is waiting is
/// refused as "already requested"; a request answering one pending from the other
/// user makes them friends; a request between strangers creates a request. So the
/// outcome agrees with what the request answers and leaves: "became friends" exactly
/// when it answers `Ok(true)` and the pair ends as friends, "created a request"
/// exactly when it answers `Ok(false)` and the request is pending from the sender,
/// and each refusal exactly when the request is refused with that error.
pub proof fn law_outcome_names_the_effect(sender_id: i32, status: FriendshipStatus)
    ensures
        status == FriendshipStatus::Friends ==> spec_outcome(sender_id, status) == FriendshipOutcome::AlreadyFriends,
        status == FriendshipStatus::PendingFrom(sender_id) ==> spec_outcome(sender_id, status) == FriendshipOutcome::AlreadyRequested,
        forall|x: i32| x != sender_id && status == FriendshipStatus::PendingFrom(x)
            ==> spec_outcome(sender_id, status) == FriendshipOutcome::BecameFriends,
        status == FriendshipStatus::Nil ==> spec_outcome(sender_id, status) == FriendshipOutcome::CreatedRequest,
        (spec_outcome(sender_id, status) == FriendshipOutcome::BecameFriends) <==> (spec_add_friend(sender_id, status) == (
            Ok::<bool, FriendshipError>(true), FriendshipStatus::Friends)),
        (spec_outcome(sender_id, status) == FriendshipOutcome::CreatedRequest) <==> (spec_add_friend(sender_id, status) == (
            Ok::<bool, FriendshipError>(false), FriendshipStatus::PendingFrom(sender_id))),
        (spec_outcome(sender_id, status) == FriendshipOutcome::AlreadyFriends) <==> spec_add_friend(sender_id, status).0
            == Err::<bool, FriendshipError>(FriendshipError::AlreadyFriends),
        (spec_outcome(sender_id, status) == FriendshipOutcome::AlreadyRequested) <==> spec_add_friend(sender_id, status).0
            == Err::<bool, FriendshipError>(FriendshipError::AlreadyRequested),
{
}

/// The outcome of a friend request from `sender_id` when the pair has status `status`.
pub fn outcome_of(sender_id: i32, status: FriendshipStatus) -> (r: FriendshipOutcome)
    ensures
        r == spec_outcome(sender_id, status),
        status == FriendshipStatus::Friends ==> r == FriendshipOutcome::AlreadyFriends,
        status == FriendshipStatus::PendingFrom(sender_id) ==> r == FriendshipOutcome::AlreadyRequested,
        (status matches FriendshipStatus::PendingFrom(x) && x != sender_id) ==> r == FriendshipOutcome::BecameFriends,
        status == FriendshipStatus::Nil ==> r == FriendshipOutcome::CreatedRequest,
{
    match plan_add_friend(sender_id, status) {
        Err(FriendshipError::AlreadyFriends) => FriendshipOutcome::AlreadyFriends,
        Err(_) => FriendshipOutcome::AlreadyRequested,
        Ok(FriendAction::Accept) => FriendshipOutcome::BecameFriends,
        Ok(FriendAction::Request) => FriendshipOutcome::CreatedRequest,
    }
}

/// The recipient of a friend request, found by username: a missing user is
/// reported as a nonexistent friendship partner.
pub fn recipient_id(found: Option<i32>) -> (r: Result<i32, DomainError>)
    ensures
        found matches Some(id) ==> r == Ok::<i32, DomainError>(id),
        found is None ==> r matches Err(DomainError::Friendship(FriendshipError::NonexistentUser)),
{
    match found {
        Some(id) => Ok(id),
        None => Err(DomainError::Friendship(FriendshipError::NonexistentUser)),
    }
}

/// The usernames of looked-up users, in the order of the lookups; the first failed
/// lookup, in that order, is the answer when any failed.
pub fn collect_usernames(found: Vec<Result<crate::users::User, DomainError>>) -> (r: Result<Vec<String>, DomainError>)
    ensures
        (forall|i: int| 0 <= i < found@.len() ==> #[trigger] found@[i] is Ok) ==> (r matches Ok(names)
            && names@.len() == found@.len()
            && forall|i: int| 0 <= i < found@.len() ==> #[trigger] names@[i] == found@[i]->Ok_0.username),
        (exists|i: int| 0 <= i < found@.len() && #[trigger] found@[i] is Err) ==> (exists|i: int|
            0 <= i < found@.len() && #[trigger] found@[i] is Err
            && (forall|j: int| 0 <= j < i ==> #[trigger] found@[j] is Ok)
            && r == Err::<Vec<String>, DomainError>(found@[i]->Err_0)),
{
    let mut i: usize = 0;
    while i < found.len()
        invariant
            i <= found@.len(),
            forall|j: int| 0 <= j < i ==> #[trigger] found@[j] is Ok,
        decreases found@.len() - i,
    {
        if found[i].is_err() {
            let mut found = found;
            let e = found.remove(i);
            return match e {
                Err(e) => Err(e),
                Ok(_) => Err(DomainError::Friendship(FriendshipError::NonexistentUser)),
            };
        }
        i = i + 1;
    }
    let mut rest = found;
    let ghost orig = rest@;
    let mut reversed: Vec<String> = Vec::new();
    while rest.len() > 0
        invariant
            reversed@.len() + rest@.len() == orig.len(),
            rest@ == orig.take(rest@.len() as int),
            forall|j: int| 0 <= j < orig.len() ==> #[trigger] orig[j] is Ok,
            forall|k: int| 0 <= k < reversed@.len() ==> #[trigger] reversed@[k] == orig[orig.len() - 1 - k]->Ok_0.username,
        decreases rest@.len(),
    {
        let x = rest.pop().unwrap();
        assert(x == orig[rest@.len() as int]);
        match x {
            Ok(u) => reversed.push(u.username),
            Err(_) => {},
        }
        assert(rest@ =~= orig.take(rest@.len() as int));
    }
    let mut names: Vec<String> = Vec::new();
    while reversed.len() > 0
        invariant
            names@.len() + reversed@.len() == orig.len(),
            forall|k: int| 0 <= k < reversed@.len() ==> #[trigger] reversed@[k] == orig[orig.len() - 1 - k]->Ok_0.username,
            forall|k: int| 0 <= k < names@.len() ==> #[trigger] names@[k] == orig[k]->Ok_0.username,
        decreases reversed@.len(),
    {
        let ghost before = reversed@;
        let y = reversed.pop().unwrap();
        names.push(y);
        assert forall|k: int| 0 <= k < reversed@.len() implies #[trigger] reversed@[k] == orig[orig.len() - 1 - k]->Ok_0.username by {
            assert(reversed@[k] == before[k]);
        }
    }
    Ok(names)
}

/// One stored friendship: the two users (smaller ID first), who asked, and
/// whether the request was accepted.
#[derive(PartialEq, Eq, Structural, Clone, Copy, Debug)]
pub struct FriendshipRecord {
    pub first_id: i32,
    pub second_id: i32,
    pub requester_first: bool,
    pub confirmed: bool,
}

/// Why the table refused to store a request.
#[derive(PartialEq, Eq, Structural, Clone, Copy, Debug)]
pub enum TableRefusal {
    /// The pair already has a row.
    RowExists,
    /// The requester is not one of the two users.
    RequesterOutsidePair,
}

/// All friendships, one row per pair of users.
pub struct FriendshipTable {
    rows: Vec<FriendshipRecord>,
}

pub open spec fn record_row(r: FriendshipRecord) -> FriendshipRow {
    FriendshipRow { requester_first: r.requester_first, confirmed: r.confirmed }
}

/// The friend that row `r` gives `id`: the other member of a confirmed row of `id`.
pub open spec fn friend_in_row(r: FriendshipRecord, id: i32) -> Seq<i32> {
    if r.confirmed && r.first_id == id {
        seq![r.second_id]
    } else if r.confirmed && r.second_id == id {
        seq![r.first_id]
    } else {
        Seq::empty()
    }
}

/// The requester that row `r` gives `id`: the other member of an unconfirmed row of
/// `id` that the other member asked for.
pub open spec fn requester_in_row(r: FriendshipRecord, id: i32) -> Seq<i32> {
    if !r.confirmed && r.second_id == id && r.requester_first {
        seq![r.first_id]
    } else if !r.confirmed && r.first_id == id && !r.requester_first {
        seq![r.second_id]
    } else {
        Seq::empty()
    }
}

/// The friends of `id` that the rows give, in the order of the rows.
pub open spec fn friends_in_rows(rows: Seq<FriendshipRecord>, id: i32) -> Seq<i32>
    decreases rows.len(),
{
    if rows.len() == 0 {
        Seq::empty()
    } else {
        friends_in_rows(rows.drop_last(), id) + friend_in_row(rows.last(), id)
    }
}

/// The requesters of `id` that the rows give, in the order of the rows.
pub open spec fn requesters_in_rows(rows: Seq<FriendshipRecord>, id: i32) -> Seq<i32>
    decreases rows.len(),
{
    if rows.len() == 0 {
        Seq::empty()
    } else {
        requesters_in_rows(rows.drop_last(), id) + requester_in_row(rows.last(), id)
    }
}

impl FriendshipTable {
    /// The stored rows.
    pub closed spec fn records(self) -> Seq<FriendshipRecord> {
        self.rows@
    }

    /// Every row has its smaller ID first, and no pair has two rows.
    pub open spec fn wf(self) -> bool {
        &&& forall|i: int| 0 <= i < self.records().len() ==> #[trigger] self.records()[i].first_id < self.records()[i].second_id
        &&& forall|i: int, j: int|
            0 <= i < self.records().len() && 0 <= j < self.records().len() && i != j
                && #[trigger] self.records()[i].first_id == #[trigger] self.records()[j].first_id
                ==> self.records()[i].second_id != self.records()[j].second_id
    }

    /// Whether row `i` is the row of the pair `(first, second)`.
    pub open spec fn is_row_of(self, i: int, first: i32, second: i32) -> bool {
        0 <= i < self.records().len() && self.records()[i].first_id == first && self.records()[i].second_id == second
    }

    /// The stored row of the pair `(first, second)`, if any.
    pub open spec fn row_of(self, first: i32, second: i32) -> Option<FriendshipRow> {
        if exists|i: int| #[trigger] self.is_row_of(i, first, second) {
            Some(record_row(self.records()[choose|i: int| #[trigger] self.is_row_of(i, first, second)]))
        } else {
            None
        }
    }

    /// `after` is this table with the row of the pair `(first, second)` marked as
    /// accepted where it stands, and every other row as it was.
    pub open spec fn accepted_in_place(self, after: FriendshipTable, first: i32, second: i32) -> bool {
        exists|i: int| #[trigger] self.is_row_of(i, first, second) && after.records() == self.records().update(i, FriendshipRecord {
            first_id: first,
            second_id: second,
            requester_first: self.records()[i].requester_first,
            confirmed: true,
        })
    }

    /// The status between two distinct users.
    pub open spec fn status_between(self, a: i32, b: i32) -> FriendshipStatus {
        spec_status_from_row(min_id(a, b), max_id(a, b), self.row_of(min_id(a, b), max_id(a, b)))
    }

    /// The users that `id` is confirmed friends with.
    pub open spec fn friends_of(self, id: i32) -> Set<i32> {
        Set::new(|f: i32| f != id && self.status_between(id, f) == FriendshipStatus::Friends)
    }

    /// The users with a pending request to `id`.
    pub open spec fn requesters_of(self, id: i32) -> Set<i32> {
        Set::new(|f: i32| f != id && self.status_between(id, f) == FriendshipStatus::PendingFrom(f))
    }

    proof fn lemma_row_at(self, i: int)
        requires
            self.wf(),
            0 <= i < self.records().len(),
        ensures
            self.row_of(self.records()[i].first_id, self.records()[i].second_id) == Some(record_row(self.records()[i])),
    {
        let a = self.records()[i].first_id;
        let b = self.records()[i].second_id;
        assert(self.is_row_of(i, a, b));
        let j = choose|j: int| #[trigger] self.is_row_of(j, a, b);
        if i != j {
            assert(self.records()[i].first_id == self.records()[j].first_id);
        }
    }

    /// An empty table.
    pub fn new() -> (t: FriendshipTable)
        ensures
            t.wf(),
            t.records().len() == 0,
            forall|a: i32, b: i32| a != b ==> #[trigger] t.status_between(a, b) == FriendshipStatus::Nil,
    {
        FriendshipTable { rows: Vec::new() }
    }

    /// The index of the row of the pair, if stored.
    fn find(&self, first: i32, second: i32) -> (r: Option<usize>)
        requires
            self.wf(),
        ensures
            r matches Some(i) ==> self.is_row_of(i as int, first, second),
            r is None ==> forall|i: int| !#[trigger] self.is_row_of(i, first, second),
    {
        let mut i: usize = 0;
        while i < self.rows.len()
            invariant
                i <= self.rows@.len(),
                forall|k: int| 0 <= k < i ==> !#[trigger] self.is_row_of(k, first, second),
            decreases self.rows@.len() - i,
        {
            if self.rows[i].first_id == first && self.rows[i].second_id == second {
                return Some(i);
            }
            i = i + 1;
        }
        None
    }

    /// The stored row of the pair.
    pub fn get_row(&self, ids: &UserIdPair) -> (r: Option<FriendshipRow>)
        requires
            self.wf(),
        ensures
            r == self.row_of(ids.first(), ids.second()),
            ids.valid_pair(),
    {
        match self.find(ids.lesser(), ids.greater()) {
            Some(i) => {
                proof {
                    self.lemma_row_at(i as int);
                }
                Some(FriendshipRow { requester_first: self.rows[i].requester_first, confirmed: self.rows[i].confirmed })
            },
            None => None,
        }
    }

    /// The status of the pair.
    pub fn get_status(&self, ids: &UserIdPair) -> (s: FriendshipStatus)
        requires
            self.wf(),
        ensures
            s == spec_status_from_row(ids.first(), ids.second(), self.row_of(ids.first(), ids.second())),
            s == self.status_between(ids.first(), ids.second()),
    {
        let row = self.get_row(ids);
        status_from_row(ids, row)
    }

    /// Stores a new, unaccepted request from `requester_id` to the other user of the pair.
    pub fn new_request(&mut self, ids: &UserIdPair, requester_id: i32) -> (r: Result<(), TableRefusal>)
        requires
            old(self).wf(),
        ensures
            final(self).wf(),
            !ids.has(requester_id) ==> r == Err::<(), TableRefusal>(TableRefusal::RequesterOutsidePair),
            ids.has(requester_id) && old(self).row_of(ids.first(), ids.second()) is Some
                ==> r == Err::<(), TableRefusal>(TableRefusal::RowExists),
            r is Err ==> *final(self) == *old(self),
            ids.has(requester_id) && old(self).row_of(ids.first(), ids.second()) is None ==> {
                &&& r is Ok
                &&& final(self).row_of(ids.first(), ids.second()) == Some(FriendshipRow { requester_first: requester_id == ids.first(), confirmed: false })
                &&& final(self).status_between(ids.first(), ids.second()) == FriendshipStatus::PendingFrom(requester_id)
                &&& final(self).records() == old(self).records().push(FriendshipRecord {
                    first_id: ids.first(),
                    second_id: ids.second(),
                    requester_first: requester_id == ids.first(),
                    confirmed: false,
                })
            },
            forall|a: i32, b: i32| !(a == ids.first() && b == ids.second()) ==> #[trigger] final(self).row_of(a, b) == old(self).row_of(a, b),
    {
        let first = ids.lesser();
        let second = ids.greater();
        let requester_first = match ids.is_lesser(requester_id) {
            Some(b) => b,
            None => return Err(TableRefusal::RequesterOutsidePair),
        };
        if let Some(i) = self.find(first, second) {
            assert(self.is_row_of(i as int, first, second));
            return Err(TableRefusal::RowExists);
        }
        let ghost before = *self;
        self.rows.push(FriendshipRecord { first_id: first, second_id: second, requester_first, confirmed: false });
        let ghost n = before.records().len();
        assert(self.records() == before.records().push(FriendshipRecord { first_id: first, second_id: second, requester_first, confirmed: false }));
        assert(self.wf()) by {
            assert forall|i: int, j: int|
                0 <= i < self.records().len() && 0 <= j < self.records().len() && i != j
                    && #[trigger] self.records()[i].first_id == #[trigger] self.records()[j].first_id
                implies self.records()[i].second_id != self.records()[j].second_id by {
                if i == n {
                    assert(!before.is_row_of(j, first, second));
                } else if j == n {
                    assert(!before.is_row_of(i, first, second));
                }
            }
        }
        proof {
            self.lemma_row_at(n as int);
            assert forall|a: i32, b: i32| !(a == first && b == second) implies #[trigger] self.row_of(a, b) == before.row_of(a, b) by {
                if exists|i: int| #[trigger] before.is_row_of(i, a, b) {
                    let i = choose|i: int| #[trigger] before.is_row_of(i, a, b);
                    before.lemma_row_at(i);
                    self.lemma_row_at(i);
                } else {
                    assert forall|i: int| !#[trigger] self.is_row_of(i, a, b) by {
                        if i < n {
                            assert(!before.is_row_of(i, a, b));
                        }
                    }
                }
            }
        }
        Ok(())
    }

    /// Marks the request of the pair as accepted; a pair without a row is left as it is.
    pub fn accept_request(&mut self, ids: &UserIdPair)
        requires
            old(self).wf(),
        ensures
            final(self).wf(),
            old(self).row_of(ids.first(), ids.second()) matches Some(row)
                ==> final(self).row_of(ids.first(), ids.second()) == Some(FriendshipRow { requester_first: row.requester_first, confirmed: true }),
            old(self).row_of(ids.first(), ids.second()) is Some
                ==> final(self).status_between(ids.first(), ids.second()) == FriendshipStatus::Friends,
            old(self).row_of(ids.first(), ids.second()) is None ==> *final(self) == *old(self),
            old(self).row_of(ids.first(), ids.second()) is Some ==> old(self).accepted_in_place(*final(self), ids.first(), ids.second()),
            forall|a: i32, b: i32| !(a == ids.first() && b == ids.second()) ==> #[trigger] final(self).row_of(a, b) == old(self).row_of(a, b),
    {
        let first = ids.lesser();
        let second = ids.greater();
        match self.find(first, second) {
            None => {},
            Some(i) => {
                let ghost before = *self;
                proof {
                    before.lemma_row_at(i as int);
                }
                let rec = self.rows[i];
                self.rows.set(i, FriendshipRecord { confirmed: true, ..rec });
                assert(self.records() == before.records().update(i as int, FriendshipRecord { confirmed: true, ..rec }));
                assert(self.wf()) by {
                    assert forall|k: int| 0 <= k < self.records().len() implies #[trigger] self.records()[k].first_id < self.records()[k].second_id by {
                        assert(before.records()[k].first_id < before.records()[k].second_id);
                    }
                    assert forall|p: int, q: int|
                        0 <= p < self.records().len() && 0 <= q < self.records().len() && p != q
                            && #[trigger] self.records()[p].first_id == #[trigger] self.records()[q].first_id
                        implies self.records()[p].second_id != self.records()[q].second_id by {
                        assert(before.records()[p].first_id == before.records()[q].first_id);
                    }
                }
                proof {
                    self.lemma_row_at(i as int);
                    assert forall|a: i32, b: i32| !(a == first && b == second) implies #[trigger] self.row_of(a, b) == before.row_of(a, b) by {
                        assert forall|k: int| #[trigger] self.is_row_of(k, a, b) <==> before.is_row_of(k, a, b) by {}
                        if exists|k: int| #[trigger] before.is_row_of(k, a, b) {
                            let k = choose|k: int| #[trigger] before.is_row_of(k, a, b);
                            before.lemma_row_at(k);
                            self.lemma_row_at(k);
                        }
                    }
                }
            },
        }
    }

    /// Handles a friend request from `sender_id` to `recipient_id`: refuses a request to
    /// oneself, to a friend, or a repeated one; accepts a request pending in the
    /// opposite direction (`Ok(true)`); otherwise stores a new request (`Ok(false)`).
    pub fn add_friend(&mut self, sender_id: i32, recipient_id: i32) -> (r: Result<bool, FriendshipError>)
        requires
            old(self).wf(),
        ensures
            final(self).wf(),
            sender_id == recipient_id ==> r == Err::<bool, FriendshipError>(FriendshipError::SelfFriendship),
            sender_id != recipient_id ==> (r, final(self).status_between(sender_id, recipient_id))
                == spec_add_friend(sender_id, old(self).status_between(sender_id, recipient_id)),
            sender_id != recipient_id ==> ({
                let before = old(self).status_between(sender_id, recipient_id);
                let after = final(self).status_between(sender_id, recipient_id);
                &&& before == FriendshipStatus::Friends ==> r == Err::<bool, FriendshipError>(FriendshipError::AlreadyFriends)
                &&& before == FriendshipStatus::PendingFrom(sender_id) ==> r == Err::<bool, FriendshipError>(FriendshipError::AlreadyRequested)
                &&& before == FriendshipStatus::PendingFrom(recipient_id) ==> r == Ok::<bool, FriendshipError>(true) && after == FriendshipStatus::Friends
                &&& before == FriendshipStatus::Nil ==> r == Ok::<bool, FriendshipError>(false) && after == FriendshipStatus::PendingFrom(sender_id)
            }),
            r is Err ==> *final(self) == *old(self),
            r == Ok::<bool, FriendshipError>(true) ==> old(self).accepted_in_place(*final(self), min_id(sender_id, recipient_id), max_id(sender_id, recipient_id)),
            r == Ok::<bool, FriendshipError>(false) ==> final(self).records() == old(self).records().push(FriendshipRecord {
                first_id: min_id(sender_id, recipient_id),
                second_id: max_id(sender_id, recipient_id),
                requester_first: sender_id < recipient_id,
                confirmed: false,
            }),
            forall|a: i32, b: i32| !(a == min_id(sender_id, recipient_id) && b == max_id(sender_id, recipient_id))
                ==> #[trigger] final(self).row_of(a, b) == old(self).row_of(a, b),
    {
        let ids = match UserIdPair::new(sender_id, recipient_id) {
            Ok(p) => p,
            Err(e) => return Err(e),
        };
        let status = self.get_status(&ids);
        match plan_add_friend(sender_id, status) {
            Err(e) => Err(e),
            Ok(FriendAction::Accept) => {
                self.accept_request(&ids);
                Ok(true)
            },
            Ok(FriendAction::Request) => {
                let _ = self.new_request(&ids, sender_id);
                Ok(false)
            },
        }
    }

    /// Whether the two users of the pair are friends.
    pub fn are_friends(&self, ids: &UserIdPair) -> (r: bool)
        requires
            self.wf(),
        ensures
            r == (self.status_between(ids.first(), ids.second()) == FriendshipStatus::Friends),
    {
        is_friends(self.get_status(ids))
    }

    /// The users that `id` is confirmed friends with, in the order of the rows.
    pub fn get_friends(&self, id: i32) -> (r: Vec<i32>)
        requires
            self.wf(),
        ensures
            r@ == friends_in_rows(self.records(), id),
            forall|f: i32| r@.contains(f) <==> self.friends_of(id).contains(f),
            r@.no_duplicates(),
    {
        let mut out: Vec<i32> = Vec::new();
        let mut i: usize = 0;
        while i < self.rows.len()
            invariant
                self.wf(),
                i <= self.rows@.len(),
                forall|f: i32| out@.contains(f) <==> exists|k: int| 0 <= k < i && #[trigger] self.friend_at(k, id, f),
                out@.no_duplicates(),
                out@ == friends_in_rows(self.records().take(i as int), id),
            decreases self.rows@.len() - i,
        {
            let rec = self.rows[i];
            let ghost before = out@;
            proof {
                let ghost next = self.records().take(i + 1);
                assert(next.drop_last() =~= self.records().take(i as int));
                assert(next.last() == rec);
            }
            proof {
                assert forall|f: i32| self.friend_at(i as int, id, f) implies !before.contains(f) by {
                    if before.contains(f) {
                        let k = choose|k: int| 0 <= k < i && #[trigger] self.friend_at(k, id, f);
                        self.lemma_same_pair(k, i as int);
                    }
                }
            }
            if rec.confirmed && rec.first_id == id {
                out.push(rec.second_id);
                proof { lemma_push_fresh(before, out@, rec.second_id); }
            } else if rec.confirmed && rec.second_id == id {
                out.push(rec.first_id);
                proof { lemma_push_fresh(before, out@, rec.first_id); }
            }
            assert forall|f: i32| out@.contains(f) <==> exists|k: int| 0 <= k < i + 1 && #[trigger] self.friend_at(k, id, f) by {
                if out@.contains(f) {
                    if !before.contains(f) {
                        let j = choose|j: int| 0 <= j < out@.len() && out@[j] == f;
                        assert(j == before.len());
                        assert(self.friend_at(i as int, id, f));
                    }
                }
                if exists|k: int| 0 <= k < i + 1 && #[trigger] self.friend_at(k, id, f) {
                    let k = choose|k: int| 0 <= k < i + 1 && #[trigger] self.friend_at(k, id, f);
                    if k == i {
                        assert(out@[out@.len() - 1] == f);
                    } else {
                        assert(before.contains(f));
                        let j = choose|j: int| 0 <= j < before.len() && before[j] == f;
                        assert(out@[j] == f);
                    }
                }
            }
            i = i + 1;
        }
        assert(self.records().take(self.records().len() as int) =~= self.records());
        proof {
            assert forall|f: i32| out@.contains(f) <==> self.friends_of(id).contains(f) by {
                self.lemma_friend_at(id, f);
            }
        }
        out
    }

    /// The users with a pending request to `id`, in the order of the rows.
    pub fn get_requests(&self, id: i32) -> (r: Vec<i32>)
        requires
            self.wf(),
        ensures
            r@ == requesters_in_rows(self.records(), id),
            forall|f: i32| r@.contains(f) <==> self.requesters_of(id).contains(f),
            r@.no_duplicates(),
    {
        let mut out: Vec<i32> = Vec::new();
        let mut i: usize = 0;
        while i < self.rows.len()
            invariant
                self.wf(),
                i <= self.rows@.len(),
                forall|f: i32| out@.contains(f) <==> exists|k: int| 0 <= k < i && #[trigger] self.request_at(k, id, f),
                out@.no_duplicates(),
                out@ == requesters_in_rows(self.records().take(i as int), id),
            decreases self.rows@.len() - i,
        {
            let rec = self.rows[i];
            let ghost before = out@;
            proof {
                let ghost next = self.records().take(i + 1);
                assert(next.drop_last() =~= self.records().take(i as int));
                assert(next.last() == rec);
            }
            proof {
                assert forall|f: i32| self.request_at(i as int, id, f) implies !before.contains(f) by {
                    if before.contains(f) {
                        let k = choose|k: int| 0 <= k < i && #[trigger] self.request_at(k, id, f);
                        self.lemma_same_pair(k, i as int);
                    }
                }
            }
            if !rec.confirmed && rec.second_id == id && rec.requester_first {
                out.push(rec.first_id);
                proof { lemma_push_fresh(before, out@, rec.first_id); }
            } else if !rec.confirmed && rec.first_id == id && !rec.requester_first {
                out.push(rec.second_id);
                proof { lemma_push_fresh(before, out@, rec.second_id); }
            }
            assert forall|f: i32| out@.contains(f) <==> exists|k: int| 0 <= k < i + 1 && #[trigger] self.request_at(k, id, f) by {
                if out@.contains(f) {
                    if !before.contains(f) {
                        let j = choose|j: int| 0 <= j < out@.len() && out@[j] == f;
                        assert(j == before.len());
                        assert(self.request_at(i as int, id, f));
                    }
                }
                if exists|k: int| 0 <= k < i + 1 && #[trigger] self.request_at(k, id, f) {
                    let k = choose|k: int| 0 <= k < i + 1 && #[trigger] self.request_at(k, id, f);
                    if k == i {
                        assert(out@[out@.len() - 1] == f);
                    } else {
                        assert(before.contains(f));
                        let j = choose|j: int| 0 <= j < before.len() && before[j] == f;
                        assert(out@[j] == f);
                    }
                }
            }
            i = i + 1;
        }
        assert(self.records().take(self.records().len() as int) =~= self.records());
        proof {
            assert forall|f: i32| out@.contains(f) <==> self.requesters_of(id).contains(f) by {
                self.lemma_request_at(id, f);
            }
        }
        out
    }

    /// Row `k` makes `id` and `f` confirmed friends.
    pub open spec fn friend_at(self, k: int, id: i32, f: i32) -> bool {
        0 <= k < self.records().len() && self.records()[k].confirmed && (
            (self.records()[k].first_id == id && self.records()[k].second_id == f)
            || (self.records()[k].second_id == id && self.records()[k].first_id == f))
    }

    /// Row `k` is a pending request from `f` to `id`.
    pub open spec fn request_at(self, k: int, id: i32, f: i32) -> bool {
        0 <= k < self.records().len() && !self.records()[k].confirmed && (
            (self.records()[k].second_id == id && self.records()[k].first_id == f && self.records()[k].requester_first)
            || (self.records()[k].first_id == id && self.records()[k].second_id == f && !self.records()[k].requester_first))
    }

    /// Two rows that relate the same two users are the same row.
    proof fn lemma_same_pair(self, k: int, i: int)
        requires
            self.wf(),
            0 <= k < self.records().len(),
            0 <= i < self.records().len(),
            (self.records()[k].first_id == self.records()[i].first_id && self.records()[k].second_id == self.records()[i].second_id)
                || (self.records()[k].first_id == self.records()[i].second_id && self.records()[k].second_id == self.records()[i].first_id),
        ensures
            k == i,
    {
        assert(self.records()[k].first_id < self.records()[k].second_id);
        assert(self.records()[i].first_id < self.records()[i].second_id);
    }

    proof fn lemma_friend_at(self, id: i32, f: i32)
        requires
            self.wf(),
        ensures
            (exists|k: int| #[trigger] self.friend_at(k, id, f)) <==> self.friends_of(id).contains(f),
    {
        if exists|k: int| #[trigger] self.friend_at(k, id, f) {
            let k = choose|k: int| #[trigger] self.friend_at(k, id, f);
            self.lemma_row_at(k);
            assert(self.records()[k].first_id < self.records()[k].second_id);
        }
        if self.friends_of(id).contains(f) {
            let a = min_id(id, f);
            let b = max_id(id, f);
            assert(self.row_of(a, b) is Some);
            let k = choose|k: int| #[trigger] self.is_row_of(k, a, b);
            self.lemma_row_at(k);
            assert(self.friend_at(k, id, f));
        }
    }

    proof fn lemma_request_at(self, id: i32, f: i32)
        requires
            self.wf(),
        ensures
            (exists|k: int| #[trigger] self.request_at(k, id, f)) <==> self.requesters_of(id).contains(f),
    {
        if exists|k: int| #[trigger] self.request_at(k, id, f) {
            let k = choose|k: int| #[trigger] self.request_at(k, id, f);
            self.lemma_row_at(k);
            assert(self.records()[k].first_id < self.records()[k].second_id);
        }
        if self.requesters_of(id).contains(f) {
            let a = min_id(id, f);
            let b = max_id(id, f);
            assert(self.row_of(a, b) is Some);
            let k = choose|k: int| #[trigger] self.is_row_of(k, a, b);
            self.lemma_row_at(k);
            assert(self.request_at(k, id, f));
        }
    }
}

proof fn lemma_push_fresh(before: Seq<i32>, after: Seq<i32>, f: i32)
    requires
        before.no_duplicates(),
        !before.contains(f),
        after == before.push(f),
    ensures
        after.no_duplicates(),
{
    assert forall|p: int, q: int| 0 <= p < after.len() && 0 <= q < after.len() && p != q implies after[p] != after[q] by {
        if q == before.len() {
            assert(after[p] == before[p]);
        } else if p == before.len() {
            assert(after[q] == before[q]);
        } else {
            assert(after[p] == before[p] && after[q] == before[q]);
        }
    }
}

/// Friendship is mutual: the status between two users does not depend on the order
/// in which they are named, so each is in the other's friend list or neither is.
pub proof fn law_friendship_symmetric(t: FriendshipTable, a: i32, b: i32)
    requires
        t.wf(),
        a != b,
    ensures
        t.status_between(a, b) == t.status_between(b, a),
        t.friends_of(a).contains(b) <==> t.friends_of(b).contains(a),
{
}

/// A request names one of the two users as its sender: a pending status is always
/// pending from one of the pair.
pub proof fn law_pending_from_member(t: FriendshipTable, a: i32, b: i32)
    requires
        t.wf(),
        a != b,
    ensures
        t.status_between(a, b) matches FriendshipStatus::PendingFrom(x) ==> x == a || x == b,
{
}

} // verus!
