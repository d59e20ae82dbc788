//! Prompts and posts: their shapes, the rules on who may write a post to a prompt
//! and who may read a post, and the mapping of insertion failures.
use vstd::prelude::*;
use vstd::std_specs::convert::FromSpecImpl;
use vstd::std_specs::convert::FromSpec;
use crate::errors::{ContentError, DomainError, TechnicalError, UserError};
use crate::friendship::{FriendshipStatus, FriendshipTable};
use crate::ids::UserIdPair;
use crate::insertion::InsertionError;

verus! {

/// A prompt as users see it.
#[derive(Clone, Debug, PartialEq, Eq)]
pub struct PromptWithAuthor {
    pub id: i32,
    pub author_username: String,
    pub body: String,
}

/// A post as users see it, with the prompt it answers.
#[derive(Clone, Debug, PartialEq, Eq)]
pub struct PostWithPrompt {
    pub id: i32,
    pub author_username: String,
    pub prompt: PromptWithAuthor,
    pub body: String,
}

/// A stored prompt.
#[derive(Clone, Debug, PartialEq, Eq)]
pub struct Prompt {
    pub id: i32,
    pub author_id: i32,
    pub body: String,
    /// Creation time, in milliseconds since the epoch.
    pub created_at: i64,
}

/// A stored post.
#[derive(Clone, Debug, PartialEq, Eq)]
pub struct Post {
    pub id: i32,
    pub author_id: i32,
    pub prompt_id: i32,
    pub body: String,
    /// Creation time, in milliseconds since the epoch.
    pub created_at: i64,
    /// Last edit time, in milliseconds since the epoch.
    pub edited_at: Option<i64>,
}

/// A stored prompt joined with its author's username.
#[derive(Clone, Debug, PartialEq, Eq)]
pub struct PromptInfo {
    pub id: i32,
    pub author_id: i32,
    pub author_username: String,
    pub body: String,
    /// Creation time, in milliseconds since the epoch.
    pub created_at: i64,
}

/// A stored post joined with its author and its prompt.
#[derive(Clone, Debug, PartialEq, Eq)]
pub struct PostInfo {
    pub id: i32,
    pub author_id: i32,
    pub author_username: String,
    pub body: String,
    /// Creation time, in milliseconds since the epoch.
    pub created_at: i64,
    /// Last edit time, in milliseconds since the epoch.
    pub edited_at: Option<i64>,
    pub prompt_id: i32,
    pub prompt_author_username: String,
    pub prompt_body: String,
}

/// A row of the query that lists posts with their prompts.
#[derive(Clone, Debug, PartialEq, Eq)]
pub struct PostWithPromptRow {
    pub post_id: i32,
    pub post_author_username: String,
    pub post_body: String,
    pub prompt_id: i32,
    pub prompt_author_username: String,
    pub prompt_body: String,
}

/// The prompt that users see for a stored prompt with its author.
pub open spec fn prompt_of_info(info: PromptInfo) -> PromptWithAuthor {
    PromptWithAuthor { id: info.id, author_username: info.author_username, body: info.body }
}

/// The post that users see for a stored post with its author and prompt.
pub open spec fn post_of_info(info: PostInfo) -> PostWithPrompt {
    PostWithPrompt {
        id: info.id,
        author_username: info.author_username,
        prompt: PromptWithAuthor { id: info.prompt_id, author_username: info.prompt_author_username, body: info.prompt_body },
        body: info.body,
    }
}

impl From<PostWithPromptRow> for PostWithPrompt {
    fn from(row: PostWithPromptRow) -> (r: PostWithPrompt) {
        PostWithPrompt {
            id: row.post_id,
            author_username: row.post_author_username,
            prompt: PromptWithAuthor { id: row.prompt_id, author_username: row.prompt_author_username, body: row.prompt_body },
            body: row.post_body,
        }
    }
}

impl FromSpecImpl<PostWithPromptRow> for PostWithPrompt {
    open spec fn obeys_from_spec() -> bool {
        true
    }

    open spec fn from_spec(row: PostWithPromptRow) -> PostWithPrompt {
        PostWithPrompt {
            id: row.post_id,
            author_username: row.post_author_username,
            prompt: PromptWithAuthor { id: row.prompt_id, author_username: row.prompt_author_username, body: row.prompt_body },
            body: row.post_body,
        }
    }
}

impl From<PromptInfo> for PromptWithAuthor {
    fn from(info: PromptInfo) -> (r: PromptWithAuthor) {
        PromptWithAuthor { id: info.id, author_username: info.author_username, body: info.body }
    }
}

impl FromSpecImpl<PromptInfo> for PromptWithAuthor {
    open spec fn obeys_from_spec() -> bool {
        true
    }

    open spec fn from_spec(info: PromptInfo) -> PromptWithAuthor {
        prompt_of_info(info)
    }
}

impl From<PostInfo> for PostWithPrompt {
    fn from(info: PostInfo) -> (r: PostWithPrompt) {
        PostWithPrompt {
            id: info.id,
            author_username: info.author_username,
            prompt: PromptWithAuthor { id: info.prompt_id, author_username: info.prompt_author_username, body: info.prompt_body },
            body: info.body,
        }
    }
}

impl FromSpecImpl<PostInfo> for PostWithPrompt {
    open spec fn obeys_from_spec() -> bool {
        true
    }

    open spec fn from_spec(info: PostInfo) -> PostWithPrompt {
        post_of_info(info)
    }
}

/// Converts each element of a vector, keeping the order.
pub fn vec_into<T, U: From<T>>(v: Vec<T>) -> (r: Vec<U>)
    ensures
        r@.len() == v@.len(),
        forall|i: int| 0 <= i < v@.len() ==> call_ensures(U::from, (v@[i],), #[trigger] r@[i]),
        <U as FromSpec<T>>::obeys_from_spec() ==> r@ == converted::<T, U>(v@),
{
    let mut rest = v;
    let ghost orig = rest@;
    let mut reversed: Vec<U> = Vec::new();
    while rest.len() > 0
        invariant
            reversed@.len() + rest@.len() == orig.len(),
            rest@ == orig.take(rest@.len() as int),
            forall|k: int| 0 <= k < reversed@.len() ==>
                call_ensures(U::from, (orig[orig.len() - 1 - k],), #[trigger] reversed@[k]),
        decreases rest@.len(),
    {
        let x = rest.pop().unwrap();
        let y = U::from(x);
        reversed.push(y);
        assert(rest@ =~= orig.take(rest@.len() as int));
    }
    let mut out: Vec<U> = Vec::new();
    while reversed.len() > 0
        invariant
            out@.len() + reversed@.len() == orig.len(),
            forall|k: int| 0 <= k < reversed@.len() ==>
                call_ensures(U::from, (orig[orig.len() - 1 - k],), #[trigger] reversed@[k]),
            forall|k: int| 0 <= k < out@.len() ==> call_ensures(U::from, (orig[k],), #[trigger] out@[k]),
        decreases reversed@.len(),
    {
        let ghost before = reversed@;
        let y = reversed.pop().unwrap();
        assert(call_ensures(U::from, (orig[orig.len() - 1 - (before.len() - 1)],), y));
        out.push(y);
        assert forall|k: int| 0 <= k < reversed@.len() implies
            call_ensures(U::from, (orig[orig.len() - 1 - k],), #[trigger] reversed@[k]) by {
            assert(reversed@[k] == before[k]);
        }
        assert forall|k: int| 0 <= k < out@.len() implies call_ensures(U::from, (orig[k],), #[trigger] out@[k]) by {
            if k < out@.len() - 1 {
                assert(out@[k] == out@.drop_last()[k]);
            }
        }
    }
    proof {
        if <U as FromSpec<T>>::obeys_from_spec() {
            assert forall|k: int| 0 <= k < out@.len() implies #[trigger] out@[k] == converted::<T, U>(orig)[k] by {
                assert(call_ensures(U::from, (orig[k],), out@[k]));
            }
            assert(out@ =~= converted::<T, U>(orig));
        }
    }
    out
}

/// Each element converted by the `From` specification of `U`, in order.
pub open spec fn converted<T, U: From<T>>(s: Seq<T>) -> Seq<U> {
    s.map_values(|x: T| U::from_spec(x))
}

/// Converting a concatenation gives the concatenation of the conversions, and
/// converting nothing gives nothing: with a `From` that follows its specification,
/// `vec_into(a ++ b) == vec_into(a) ++ vec_into(b)` and `vec_into([]) == []`.
pub proof fn law_vec_into_concatenation<T, U: From<T>>(a: Seq<T>, b: Seq<T>)
    ensures
        converted::<T, U>(a + b) == converted::<T, U>(a) + converted::<T, U>(b),
        converted::<T, U>(Seq::<T>::empty()) == Seq::<U>::empty(),
{
    assert(converted::<T, U>(a + b) =~= converted::<T, U>(a) + converted::<T, U>(b));
    assert(converted::<T, U>(Seq::<T>::empty()) =~= Seq::<U>::empty());
}

/// The second step of a read, after the post was looked up: whether the requester
/// may read it outright, or must be friends with its author.
#[derive(PartialEq, Eq, Structural, Clone, Copy, Debug)]
pub enum ReadGate {
    /// The requester wrote the post.
    Own,
    /// The requester may read the post only if friends with its author.
    NeedsFriendship(UserIdPair),
}

/// Checks a post lookup for reading: a missing post is not found; one's own post is
/// readable; anyone else's post needs a friendship with its author.
pub fn reading_gate(requester_id: i32, post_author: Option<i32>) -> (r: Result<ReadGate, DomainError>)
    ensures
        post_author is None ==> r matches Err(DomainError::Content(ContentError::NotFound)),
        post_author == Some(requester_id) ==> r == Ok::<ReadGate, DomainError>(ReadGate::Own),
        post_author matches Some(a) ==> a != requester_id ==>
            r == Ok::<ReadGate, DomainError>(ReadGate::NeedsFriendship(UserIdPair::spec_new(requester_id, a))),
{
    match post_author {
        None => Err(DomainError::Content(ContentError::NotFound)),
        Some(a) => if a == requester_id {
            Ok(ReadGate::Own)
        } else {
            match UserIdPair::new(requester_id, a) {
                Ok(p) => Ok(ReadGate::NeedsFriendship(p)),
                Err(e) => Err(DomainError::Friendship(e)),
            }
        },
    }
}

/// Gives the post to an allowed reader, or refuses a reader who is not a friend of its author.
pub fn reading_verdict(post: PostInfo, allowed: bool) -> (r: Result<PostWithPrompt, DomainError>)
    ensures
        allowed ==> r == Ok::<PostWithPrompt, DomainError>(post_of_info(post)),
        !allowed ==> r matches Err(DomainError::Content(ContentError::NotFriends)),
{
    if allowed {
        Ok(PostWithPrompt::from(post))
    } else {
        Err(DomainError::Content(ContentError::NotFriends))
    }
}

/// Checks a prompt lookup for writing a post: a missing prompt is not found, one's
/// own prompt cannot be answered, and anyone else's needs a friendship with its author.
pub fn writing_gate(requester_id: i32, prompt_author: Option<i32>) -> (r: Result<UserIdPair, DomainError>)
    ensures
        prompt_author is None ==> r matches Err(DomainError::Content(ContentError::NotFound)),
        prompt_author == Some(requester_id) ==> r matches Err(DomainError::Content(ContentError::OwnPrompt)),
        prompt_author matches Some(a) ==> a != requester_id ==>
            r == Ok::<UserIdPair, DomainError>(UserIdPair::spec_new(requester_id, a)),
{
    match prompt_author {
        None => Err(DomainError::Content(ContentError::NotFound)),
        Some(a) => if a == requester_id {
            Err(DomainError::Content(ContentError::OwnPrompt))
        } else {
            match UserIdPair::new(requester_id, a) {
                Ok(p) => Ok(p),
                Err(e) => Err(DomainError::Friendship(e)),
            }
        },
    }
}

/// Hands out a prompt to a writer who is friends with its author, or refuses.
pub fn writing_verdict(prompt: PromptInfo, are_friends: bool) -> (r: Result<PromptWithAuthor, DomainError>)
    ensures
        are_friends ==> r == Ok::<PromptWithAuthor, DomainError>(prompt_of_info(prompt)),
        !are_friends ==> r matches Err(DomainError::Content(ContentError::NotFriends)),
{
    if are_friends {
        Ok(PromptWithAuthor::from(prompt))
    } else {
        Err(DomainError::Content(ContentError::NotFriends))
    }
}

/// The author of an optional post.
pub open spec fn post_author(post: Option<PostInfo>) -> Option<i32> {
    match post {
        Some(p) => Some(p.author_id),
        None => None,
    }
}

/// The author of an optional prompt.
pub open spec fn prompt_author(prompt: Option<PromptInfo>) -> Option<i32> {
    match prompt {
        Some(p) => Some(p.author_id),
        None => None,
    }
}

/// Retrieves a post to be read. The requester and the post author must be either
/// friends or the same user; friendships are those of `friends`.
pub fn get_for_reading(requester_id: i32, post: Option<PostInfo>, friends: &FriendshipTable) -> (r: Result<PostWithPrompt, DomainError>)
    requires
        friends.wf(),
    ensures
        post is None ==> r matches Err(DomainError::Content(ContentError::NotFound)),
        post matches Some(p) ==> (
            if p.author_id == requester_id
                || friends.status_between(requester_id, p.author_id) == FriendshipStatus::Friends {
                r == Ok::<PostWithPrompt, DomainError>(post_of_info(p))
            } else {
                r matches Err(DomainError::Content(ContentError::NotFriends))
            }),
{
    let author = match &post {
        Some(p) => Some(p.author_id),
        None => None,
    };
    match reading_gate(requester_id, author) {
        Err(e) => Err(e),
        Ok(ReadGate::Own) => match post {
            Some(p) => reading_verdict(p, true),
            None => Err(DomainError::Content(ContentError::NotFound)),
        },
        Ok(ReadGate::NeedsFriendship(ids)) => {
            let allowed = friends.are_friends(&ids);
            proof {
                UserIdPair::lemma_spec_new(requester_id, author.unwrap());
            }
            match post {
                Some(p) => reading_verdict(p, allowed),
                None => Err(DomainError::Content(ContentError::NotFound)),
            }
        },
    }
}

/// Retrieves a prompt to write a post to. The requester must be distinct from and
/// friends with the prompt's author; friendships are those of `friends`.
pub fn get_for_writing(requester_id: i32, prompt: Option<PromptInfo>, friends: &FriendshipTable) -> (r: Result<PromptWithAuthor, DomainError>)
    requires
        friends.wf(),
    ensures
        prompt is None ==> r matches Err(DomainError::Content(ContentError::NotFound)),
        prompt matches Some(p) ==> (
            if p.author_id == requester_id {
                r matches Err(DomainError::Content(ContentError::OwnPrompt))
            } else if friends.status_between(requester_id, p.author_id) == FriendshipStatus::Friends {
                r == Ok::<PromptWithAuthor, DomainError>(prompt_of_info(p))
            } else {
                r matches Err(DomainError::Content(ContentError::NotFriends))
            }),
{
    let author = match &prompt {
        Some(p) => Some(p.author_id),
        None => None,
    };
    match writing_gate(requester_id, author) {
        Err(e) => Err(e),
        Ok(ids) => {
            let allowed = friends.are_friends(&ids);
            proof {
                UserIdPair::lemma_spec_new(requester_id, author.unwrap());
            }
            match prompt {
                Some(p) => writing_verdict(p, allowed),
                None => Err(DomainError::Content(ContentError::NotFound)),
            }
        },
    }
}

/// The result of inserting a prompt: a unique violation means the author already
/// wrote the same prompt; any other failure is technical.
pub fn prompt_insertion_result(r: Result<PromptInfo, InsertionError>) -> (out: Result<PromptWithAuthor, DomainError>)
    ensures
        r matches Ok(info) ==> out == Ok::<PromptWithAuthor, DomainError>(prompt_of_info(info)),
        r matches Err(InsertionError::UniqueViolation(_)) ==> out matches Err(DomainError::Content(ContentError::DuplicatePrompt)),
        r matches Err(InsertionError::Technical(e)) ==> out == Err::<PromptWithAuthor, DomainError>(DomainError::Technical(TechnicalError::Database(e))),
{
    match r {
        Err(InsertionError::Technical(e)) => Err(DomainError::Technical(TechnicalError::Database(e))),
        Err(InsertionError::UniqueViolation(_)) => Err(DomainError::Content(ContentError::DuplicatePrompt)),
        Ok(info) => Ok(PromptWithAuthor::from(info)),
    }
}

/// The result of inserting a post: a unique violation means the author already
/// answered the prompt; any other failure is technical.
pub fn post_insertion_result(r: Result<PostInfo, InsertionError>) -> (out: Result<PostWithPrompt, DomainError>)
    ensures
        r matches Ok(info) ==> out == Ok::<PostWithPrompt, DomainError>(post_of_info(info)),
        r matches Err(InsertionError::UniqueViolation(_)) ==> out matches Err(DomainError::Content(ContentError::DuplicatePost)),
        r matches Err(InsertionError::Technical(e)) ==> out == Err::<PostWithPrompt, DomainError>(DomainError::Technical(TechnicalError::Database(e))),
{
    match r {
        Err(InsertionError::Technical(e)) => Err(DomainError::Technical(TechnicalError::Database(e))),
        Err(InsertionError::UniqueViolation(_)) => Err(DomainError::Content(ContentError::DuplicatePost)),
        Ok(info) => Ok(PostWithPrompt::from(info)),
    }
}

/// Checks a request for a specific user's content: the user must exist and be
/// someone other than the requester; the pair is then checked for friendship.
pub fn friend_content_gate(requester_id: i32, friend_id: Option<i32>) -> (r: Result<UserIdPair, DomainError>)
    ensures
        friend_id is None ==> r matches Err(DomainError::User(UserError::NotFound)),
        friend_id == Some(requester_id) ==> r matches Err(DomainError::Friendship(crate::errors::FriendshipError::SelfFriendship)),
        friend_id matches Some(f) ==> f != requester_id ==> r == Ok::<UserIdPair, DomainError>(UserIdPair::spec_new(requester_id, f)),
{
    match friend_id {
        None => Err(DomainError::User(UserError::NotFound)),
        Some(f) => match UserIdPair::new(requester_id, f) {
            Ok(p) => Ok(p),
            Err(e) => Err(DomainError::Friendship(e)),
        },
    }
}

/// A friend's content may be seen only when the two are friends.
pub fn friend_content_verdict(are_friends: bool) -> (r: Result<(), DomainError>)
    ensures
        are_friends ==> r is Ok,
        !are_friends ==> r matches Err(DomainError::Content(ContentError::NotFriends)),
{
    if are_friends {
        Ok(())
    } else {
        Err(DomainError::Content(ContentError::NotFriends))
    }
}

} // verus!
