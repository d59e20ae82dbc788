//! A store of prompts and posts that keeps the constraints of their tables (one
//! identical prompt per author, one post per author and prompt) and answers the
//! listing queries (one user's content, friends' content, newest first).
use vstd::prelude::*;
use vstd::string::*;
use crate::content::{get_for_writing, post_insertion_result, prompt_insertion_result, post_of_info, prompt_of_info, PostInfo, PostWithPrompt, PromptInfo, PromptWithAuthor};
use crate::errors::{ContentError, DomainError};
use crate::friendship::{FriendshipStatus, FriendshipTable};
use crate::insertion::{same_text, InsertionError};

verus! {

/// The elements of `s` that `keep` accepts, seen through `view`, the latest first.
pub open spec fn newest_first<T, U>(s: Seq<T>, keep: spec_fn(T) -> bool, view: spec_fn(T) -> U) -> Seq<U>
    decreases s.len(),
{
    if s.len() == 0 {
        Seq::empty()
    } else {
        let rest = newest_first(s.drop_first(), keep, view);
        if keep(s[0]) {
            rest.push(view(s[0]))
        } else {
            rest
        }
    }
}

/// An element is listed exactly when some accepted element of `s` shows as it.
pub proof fn lemma_newest_first_contains<T, U>(s: Seq<T>, keep: spec_fn(T) -> bool, view: spec_fn(T) -> U, x: U)
    ensures
        newest_first(s, keep, view).contains(x) <==> exists|j: int| 0 <= j < s.len() && keep(s[j]) && #[trigger] view(s[j]) == x,
    decreases s.len(),
{
    if s.len() > 0 {
        let t = s.drop_first();
        lemma_newest_first_contains(t, keep, view, x);
        let rest = newest_first(t, keep, view);
        if exists|j: int| 0 <= j < s.len() && keep(s[j]) && #[trigger] view(s[j]) == x {
            let j = choose|j: int| 0 <= j < s.len() && keep(s[j]) && #[trigger] view(s[j]) == x;
            if j > 0 {
                assert(t[j - 1] == s[j]);
                assert(rest.contains(x));
                if keep(s[0]) {
                    let k = choose|k: int| 0 <= k < rest.len() && rest[k] == x;
                    assert(rest.push(view(s[0]))[k] == x);
                }
            } else {
                assert(rest.push(view(s[0]))[rest.len() as int] == x);
            }
        }
        if newest_first(s, keep, view).contains(x) {
            if keep(s[0]) {
                let out = rest.push(view(s[0]));
                let k = choose|k: int| 0 <= k < out.len() && out[k] == x;
                if k < rest.len() {
                    assert(rest[k] == x);
                    let j = choose|j: int| 0 <= j < t.len() && keep(t[j]) && #[trigger] view(t[j]) == x;
                    assert(s[j + 1] == t[j]);
                } else {
                    assert(view(s[0]) == x);
                }
            } else {
                let j = choose|j: int| 0 <= j < t.len() && keep(t[j]) && #[trigger] view(t[j]) == x;
                assert(s[j + 1] == t[j]);
            }
        }
    }
}

/// A copy of a stored prompt.
fn copy_prompt(p: &PromptInfo) -> (r: PromptInfo)
    ensures
        r == *p,
{
    PromptInfo {
        id: p.id,
        author_id: p.author_id,
        author_username: p.author_username.clone(),
        body: p.body.clone(),
        created_at: p.created_at,
    }
}

/// A copy of a stored post.
fn copy_post(p: &PostInfo) -> (r: PostInfo)
    ensures
        r == *p,
{
    PostInfo {
        id: p.id,
        author_id: p.author_id,
        author_username: p.author_username.clone(),
        body: p.body.clone(),
        created_at: p.created_at,
        edited_at: p.edited_at,
        prompt_id: p.prompt_id,
        prompt_author_username: p.prompt_author_username.clone(),
        prompt_body: p.prompt_body.clone(),
    }
}

/// Prompts and posts in the order they were written. IDs are handed out from 1 up,
/// and a record's creation time is its position in the order of writing.
pub struct ContentStore {
    prompts: Vec<PromptInfo>,
    posts: Vec<PostInfo>,
}

/// How a stored prompt is listed.
pub open spec fn prompt_view() -> spec_fn(PromptInfo) -> PromptWithAuthor {
    |p: PromptInfo| prompt_of_info(p)
}

/// How a stored post is listed.
pub open spec fn post_view() -> spec_fn(PostInfo) -> PostWithPrompt {
    |p: PostInfo| post_of_info(p)
}

/// Whether `p` was written by `author_id`.
pub open spec fn by_author(author_id: i32) -> spec_fn(PromptInfo) -> bool {
    |p: PromptInfo| p.author_id == author_id
}

/// Whether `p` was written by one of the confirmed friends of `user_id`.
pub open spec fn by_friend_of(friends: FriendshipTable, user_id: i32) -> spec_fn(PromptInfo) -> bool {
    |p: PromptInfo| friends.friends_of(user_id).contains(p.author_id)
}

/// Whether post `p` was written by `author_id`.
pub open spec fn post_by_author(author_id: i32) -> spec_fn(PostInfo) -> bool {
    |p: PostInfo| p.author_id == author_id
}

/// Whether post `p` was written by one of the confirmed friends of `user_id`.
pub open spec fn post_by_friend_of(friends: FriendshipTable, user_id: i32) -> spec_fn(PostInfo) -> bool {
    |p: PostInfo| friends.friends_of(user_id).contains(p.author_id)
}

impl ContentStore {
    pub closed spec fn stored_prompts(self) -> Seq<PromptInfo> {
        self.prompts@
    }

    pub closed spec fn stored_posts(self) -> Seq<PostInfo> {
        self.posts@
    }

    /// Prompt `i` has ID `i + 1`, post `i` has ID `i + 1`, and both fit the ID range.
    pub open spec fn wf(self) -> bool {
        &&& forall|i: int| 0 <= i < self.stored_prompts().len() ==> #[trigger] self.stored_prompts()[i].id == i + 1
        &&& forall|i: int| 0 <= i < self.stored_posts().len() ==> #[trigger] self.stored_posts()[i].id == i + 1
        &&& self.stored_prompts().len() < i32::MAX
        &&& self.stored_posts().len() < i32::MAX
    }

    /// Whether `author_id` already wrote a prompt with this body.
    pub open spec fn has_prompt(self, author_id: i32, body: Seq<char>) -> bool {
        exists|i: int| 0 <= i < self.stored_prompts().len() && #[trigger] self.stored_prompts()[i].author_id == author_id
            && self.stored_prompts()[i].body@ == body
    }

    /// Whether `author_id` already answered the prompt `prompt_id`.
    pub open spec fn has_post(self, author_id: i32, prompt_id: i32) -> bool {
        exists|i: int| 0 <= i < self.stored_posts().len() && #[trigger] self.stored_posts()[i].author_id == author_id
            && self.stored_posts()[i].prompt_id == prompt_id
    }

    /// The stored prompt with this ID.
    pub open spec fn prompt_with_id(self, id: i32) -> Option<PromptInfo> {
        if 1 <= id <= self.stored_prompts().len() {
            Some(self.stored_prompts()[id - 1])
        } else {
            None
        }
    }

    /// The stored post with this ID.
    pub open spec fn post_with_id(self, id: i32) -> Option<PostInfo> {
        if 1 <= id <= self.stored_posts().len() {
            Some(self.stored_posts()[id - 1])
        } else {
            None
        }
    }

    /// An empty store.
    pub fn new() -> (s: ContentStore)
        ensures
            s.wf(),
            s.stored_prompts().len() == 0,
            s.stored_posts().len() == 0,
    {
        ContentStore { prompts: Vec::new(), posts: Vec::new() }
    }

    /// Stores a new prompt by `author_id` (whose username is `author_username`); an
    /// author cannot store the same body twice. IDs are `i32`, which bounds the count.
    pub fn insert_prompt(&mut self, author_id: i32, author_username: String, body: String) -> (r: Result<PromptInfo, InsertionError>)
        requires
            old(self).wf(),
            old(self).stored_prompts().len() + 1 < i32::MAX,
        ensures
            final(self).wf(),
            old(self).has_prompt(author_id, body@) ==> (r matches Err(InsertionError::UniqueViolation(_))
                && *final(self) == *old(self)),
            !old(self).has_prompt(author_id, body@) ==> ({
                let n = old(self).stored_prompts().len();
                let info = PromptInfo { id: (n + 1) as i32, author_id, author_username, body, created_at: n as i64 };
                &&& r == Ok::<PromptInfo, InsertionError>(info)
                &&& final(self).stored_prompts() == old(self).stored_prompts().push(info)
                &&& final(self).stored_posts() == old(self).stored_posts()
            }),
            r is Err ==> *final(self) == *old(self),
    {
        let mut i: usize = 0;
        while i < self.prompts.len()
            invariant
                self.wf(),
                i <= self.prompts@.len(),
                forall|k: int| 0 <= k < i ==> !(#[trigger] self.prompts@[k].author_id == author_id && self.prompts@[k].body@ == body@),
            decreases self.prompts@.len() - i,
        {
            if self.prompts[i].author_id == author_id && same_text(self.prompts[i].body.as_str(), body.as_str()) {
                return Err(InsertionError::UniqueViolation(String::from_str("prompts_author_id_body_key")));
            }
            i = i + 1;
        }
        let n = self.prompts.len();
        let info = PromptInfo { id: (n + 1) as i32, author_id, author_username, body, created_at: n as i64 };
        self.prompts.push(copy_prompt(&info));
        Ok(info)
    }

    /// Stores a post by `author_id` answering `prompt`; an author answers a prompt at
    /// most once. IDs are `i32`, which bounds the count.
    pub fn insert_post(&mut self, author_id: i32, author_username: String, prompt: &PromptInfo, body: String) -> (r: Result<PostInfo, InsertionError>)
        requires
            old(self).wf(),
            old(self).stored_posts().len() + 1 < i32::MAX,
        ensures
            final(self).wf(),
            old(self).has_post(author_id, prompt.id) ==> (r matches Err(InsertionError::UniqueViolation(_))
                && *final(self) == *old(self)),
            !old(self).has_post(author_id, prompt.id) ==> ({
                let n = old(self).stored_posts().len();
                let info = PostInfo {
                    id: (n + 1) as i32,
                    author_id,
                    author_username,
                    body,
                    created_at: n as i64,
                    edited_at: None,
                    prompt_id: prompt.id,
                    prompt_author_username: prompt.author_username,
                    prompt_body: prompt.body,
                };
                &&& r == Ok::<PostInfo, InsertionError>(info)
                &&& final(self).stored_posts() == old(self).stored_posts().push(info)
                &&& final(self).stored_prompts() == old(self).stored_prompts()
            }),
            r is Err ==> *final(self) == *old(self),
    {
        let mut i: usize = 0;
        while i < self.posts.len()
            invariant
                self.wf(),
                i <= self.posts@.len(),
                forall|k: int| 0 <= k < i ==> !(#[trigger] self.posts@[k].author_id == author_id && self.posts@[k].prompt_id == prompt.id),
            decreases self.posts@.len() - i,
        {
            if self.posts[i].author_id == author_id && self.posts[i].prompt_id == prompt.id {
                return Err(InsertionError::UniqueViolation(String::from_str("posts_author_id_prompt_id_key")));
            }
            i = i + 1;
        }
        let n = self.posts.len();
        let info = PostInfo {
            id: (n + 1) as i32,
            author_id,
            author_username,
            body,
            created_at: n as i64,
            edited_at: None,
            prompt_id: prompt.id,
            prompt_author_username: prompt.author_username.clone(),
            prompt_body: prompt.body.clone(),
        };
        self.posts.push(copy_post(&info));
        Ok(info)
    }

    /// The prompt with this ID.
    pub fn get_prompt(&self, id: i32) -> (r: Option<PromptInfo>)
        requires
            self.wf(),
        ensures
            r == self.prompt_with_id(id),
    {
        if 1 <= id && (id as usize) <= self.prompts.len() {
            Some(copy_prompt(&self.prompts[(id - 1) as usize]))
        } else {
            None
        }
    }

    /// The post with this ID.
    pub fn get_post(&self, id: i32) -> (r: Option<PostInfo>)
        requires
            self.wf(),
        ensures
            r == self.post_with_id(id),
    {
        if 1 <= id && (id as usize) <= self.posts.len() {
            Some(copy_post(&self.posts[(id - 1) as usize]))
        } else {
            None
        }
    }

    fn prompts_where(&self, user_id: i32, friends: Option<&FriendshipTable>) -> (r: Vec<PromptWithAuthor>)
        requires
            friends matches Some(t) ==> t.wf(),
        ensures
            friends is None ==> r@ == newest_first(self.stored_prompts(), by_author(user_id), prompt_view()),
            friends matches Some(t) ==> r@ == newest_first(self.stored_prompts(), by_friend_of(*t, user_id), prompt_view()),
    {
        let ghost keep = match friends {
            None => by_author(user_id),
            Some(t) => by_friend_of(*t, user_id),
        };
        let ghost view = prompt_view();
        let ghost s = self.prompts@;
        let mut out: Vec<PromptWithAuthor> = Vec::new();
        let mut i: usize = self.prompts.len();
        assert(s.subrange(i as int, s.len() as int) =~= Seq::<PromptInfo>::empty());
        while i > 0
            invariant
                s == self.prompts@,
                i <= s.len(),
                out@ == newest_first(s.subrange(i as int, s.len() as int), keep, view),
                friends matches Some(t) ==> t.wf(),
                view == prompt_view(),
                keep == (match friends {
                    None => by_author(user_id),
                    Some(t) => by_friend_of(*t, user_id),
                }),
            decreases i,
        {
            i = i - 1;
            let p = &self.prompts[i];
            let wanted = match friends {
                None => p.author_id == user_id,
                Some(t) => {
                    let is_friend = p.author_id != user_id && {
                        let ids = crate::ids::UserIdPair::new(user_id, p.author_id);
                        match ids {
                            Ok(ids) => t.are_friends(&ids),
                            Err(_) => false,
                        }
                    };
                    proof {
                        if p.author_id != user_id {
                            crate::ids::UserIdPair::lemma_spec_new(user_id, p.author_id);
                        }
                    }
                    is_friend
                },
            };
            assert(s.subrange(i as int, s.len() as int).drop_first() =~= s.subrange(i + 1, s.len() as int));
            assert(s.subrange(i as int, s.len() as int)[0] == s[i as int]);
            assert(wanted == keep(s[i as int]));
            let ghost prev = out@;
            assert(prev == newest_first(s.subrange(i + 1, s.len() as int), keep, view));
            if wanted {
                let c = copy_prompt(p);
                let item = PromptWithAuthor::from(c);
                assert(item == prompt_of_info(s[i as int]));
                assert(view(s[i as int]) == prompt_of_info(s[i as int]));
                out.push(item);
            }
            assert(out@ == newest_first(s.subrange(i as int, s.len() as int), keep, view));
        }
        assert(s.subrange(0, s.len() as int) =~= s);
        out
    }

    fn posts_where(&self, user_id: i32, friends: Option<&FriendshipTable>) -> (r: Vec<PostWithPrompt>)
        requires
            friends matches Some(t) ==> t.wf(),
        ensures
            friends is None ==> r@ == newest_first(self.stored_posts(), post_by_author(user_id), post_view()),
            friends matches Some(t) ==> r@ == newest_first(self.stored_posts(), post_by_friend_of(*t, user_id), post_view()),
    {
        let ghost keep = match friends {
            None => post_by_author(user_id),
            Some(t) => post_by_friend_of(*t, user_id),
        };
        let ghost view = post_view();
        let ghost s = self.posts@;
        let mut out: Vec<PostWithPrompt> = Vec::new();
        let mut i: usize = self.posts.len();
        assert(s.subrange(i as int, s.len() as int) =~= Seq::<PostInfo>::empty());
        while i > 0
            invariant
                s == self.posts@,
                i <= s.len(),
                out@ == newest_first(s.subrange(i as int, s.len() as int), keep, view),
                friends matches Some(t) ==> t.wf(),
                view == post_view(),
                keep == (match friends {
                    None => post_by_author(user_id),
                    Some(t) => post_by_friend_of(*t, user_id),
                }),
            decreases i,
        {
            i = i - 1;
            let p = &self.posts[i];
            let wanted = match friends {
                None => p.author_id == user_id,
                Some(t) => {
                    let is_friend = p.author_id != user_id && {
                        let ids = crate::ids::UserIdPair::new(user_id, p.author_id);
                        match ids {
                            Ok(ids) => t.are_friends(&ids),
                            Err(_) => false,
                        }
                    };
                    proof {
                        if p.author_id != user_id {
                            crate::ids::UserIdPair::lemma_spec_new(user_id, p.author_id);
                        }
                    }
                    is_friend
                },
            };
            assert(s.subrange(i as int, s.len() as int).drop_first() =~= s.subrange(i + 1, s.len() as int));
            assert(s.subrange(i as int, s.len() as int)[0] == s[i as int]);
            assert(wanted == keep(s[i as int]));
            let ghost prev = out@;
            assert(prev == newest_first(s.subrange(i + 1, s.len() as int), keep, view));
            if wanted {
                let c = copy_post(p);
                let item = PostWithPrompt::from(c);
                assert(item == post_of_info(s[i as int]));
                assert(view(s[i as int]) == post_of_info(s[i as int]));
                out.push(item);
            }
            assert(out@ == newest_first(s.subrange(i as int, s.len() as int), keep, view));
        }
        assert(s.subrange(0, s.len() as int) =~= s);
        out
    }

    /// All prompts written by `user_id`, newest first.
    pub fn single_user_prompts(&self, user_id: i32) -> (r: Vec<PromptWithAuthor>)
        ensures
            r@ == newest_first(self.stored_prompts(), by_author(user_id), prompt_view()),
    {
        self.prompts_where(user_id, None)
    }

    /// All prompts written by confirmed friends of `user_id`, newest first.
    pub fn all_friend_prompts(&self, user_id: i32, friends: &FriendshipTable) -> (r: Vec<PromptWithAuthor>)
        requires
            friends.wf(),
        ensures
            r@ == newest_first(self.stored_prompts(), by_friend_of(*friends, user_id), prompt_view()),
    {
        self.prompts_where(user_id, Some(friends))
    }

    /// All posts written by `user_id`, newest first.
    pub fn single_user_posts(&self, user_id: i32) -> (r: Vec<PostWithPrompt>)
        ensures
            r@ == newest_first(self.stored_posts(), post_by_author(user_id), post_view()),
    {
        self.posts_where(user_id, None)
    }

    /// All posts written by confirmed friends of `user_id`, newest first.
    pub fn all_friend_posts(&self, user_id: i32, friends: &FriendshipTable) -> (r: Vec<PostWithPrompt>)
        requires
            friends.wf(),
        ensures
            r@ == newest_first(self.stored_posts(), post_by_friend_of(*friends, user_id), post_view()),
    {
        self.posts_where(user_id, Some(friends))
    }
}


/// Creates a prompt by `author_id`: an author cannot create the same prompt twice.
pub fn create_prompt(store: &mut ContentStore, author_id: i32, author_username: String, body: String) -> (r: Result<PromptWithAuthor, DomainError>)
    requires
        old(store).wf(),
        old(store).stored_prompts().len() + 1 < i32::MAX,
    ensures
        final(store).wf(),
        old(store).has_prompt(author_id, body@) ==> (r matches Err(DomainError::Content(ContentError::DuplicatePrompt))
            && *final(store) == *old(store)),
        !old(store).has_prompt(author_id, body@) ==> ({
            let n = old(store).stored_prompts().len();
            let info = PromptInfo { id: (n + 1) as i32, author_id, author_username, body, created_at: n as i64 };
            &&& r == Ok::<PromptWithAuthor, DomainError>(prompt_of_info(info))
            &&& final(store).stored_prompts() == old(store).stored_prompts().push(info)
            &&& final(store).stored_posts() == old(store).stored_posts()
        }),
{
    prompt_insertion_result(store.insert_prompt(author_id, author_username, body))
}

/// Creates a post by `author_id` answering the prompt `prompt_id`: the prompt must
/// exist, be someone else's, and its author must be a friend; an author answers a
/// prompt at most once.
pub fn create_post(
    store: &mut ContentStore,
    friends: &FriendshipTable,
    author_id: i32,
    author_username: String,
    prompt_id: i32,
    body: String,
) -> (r: Result<PostWithPrompt, DomainError>)
    requires
        old(store).wf(),
        old(store).stored_posts().len() + 1 < i32::MAX,
        friends.wf(),
    ensures
        final(store).wf(),
        r is Err ==> *final(store) == *old(store),
        old(store).prompt_with_id(prompt_id) is None ==> r matches Err(DomainError::Content(ContentError::NotFound)),
        old(store).prompt_with_id(prompt_id) matches Some(p) ==> ({
            let n = old(store).stored_posts().len();
            let info = PostInfo {
                id: (n + 1) as i32,
                author_id,
                author_username,
                body,
                created_at: n as i64,
                edited_at: None,
                prompt_id,
                prompt_author_username: p.author_username,
                prompt_body: p.body,
            };
            if p.author_id == author_id {
                r matches Err(DomainError::Content(ContentError::OwnPrompt))
            } else if friends.status_between(author_id, p.author_id) != FriendshipStatus::Friends {
                r matches Err(DomainError::Content(ContentError::NotFriends))
            } else if old(store).has_post(author_id, prompt_id) {
                r matches Err(DomainError::Content(ContentError::DuplicatePost))
            } else {
                &&& r == Ok::<PostWithPrompt, DomainError>(post_of_info(info))
                &&& final(store).stored_posts() == old(store).stored_posts().push(info)
                &&& final(store).stored_prompts() == old(store).stored_prompts()
            }
        }),
{
    let prompt = store.get_prompt(prompt_id);
    let allowed = get_for_writing(author_id, prompt, friends);
    if let Err(e) = allowed {
        return Err(e);
    }
    let prompt = match store.get_prompt(prompt_id) {
        Some(p) => p,
        None => return Err(DomainError::Content(ContentError::NotFound)),
    };
    post_insertion_result(store.insert_post(author_id, author_username, &prompt, body))
}

/// A written prompt reads back as written: after a successful insertion, looking up
/// its ID gives the stored prompt.
pub proof fn law_prompt_read_after_write(before: ContentStore, after: ContentStore, info: PromptInfo)
    requires
        after.wf(),
        info.id == before.stored_prompts().len() + 1,
        after.stored_prompts() == before.stored_prompts().push(info),
    ensures
        after.prompt_with_id(info.id) == Some(info),
        forall|id: i32| id != info.id ==> #[trigger] after.prompt_with_id(id) == before.prompt_with_id(id),
{
}

/// A written post reads back as written: after a successful insertion, looking up its
/// ID gives the stored post.
pub proof fn law_post_read_after_write(before: ContentStore, after: ContentStore, info: PostInfo)
    requires
        after.wf(),
        info.id == before.stored_posts().len() + 1,
        after.stored_posts() == before.stored_posts().push(info),
    ensures
        after.post_with_id(info.id) == Some(info),
        forall|id: i32| id != info.id ==> #[trigger] after.post_with_id(id) == before.post_with_id(id),
{
}

/// The friends' feed holds exactly the prompts written by confirmed friends.
pub proof fn law_friend_feed_prompts(store: ContentStore, friends: FriendshipTable, user_id: i32, x: PromptWithAuthor)
    ensures
        newest_first(store.stored_prompts(), by_friend_of(friends, user_id), prompt_view()).contains(x) <==> exists|j: int|
            0 <= j < store.stored_prompts().len() && friends.friends_of(user_id).contains(store.stored_prompts()[j].author_id)
                && #[trigger] prompt_of_info(store.stored_prompts()[j]) == x,
{
    lemma_newest_first_contains(store.stored_prompts(), by_friend_of(friends, user_id), prompt_view(), x);
    if exists|j: int| 0 <= j < store.stored_prompts().len() && friends.friends_of(user_id).contains(store.stored_prompts()[j].author_id)
        && #[trigger] prompt_of_info(store.stored_prompts()[j]) == x {
        let j = choose|j: int| 0 <= j < store.stored_prompts().len() && friends.friends_of(user_id).contains(store.stored_prompts()[j].author_id)
            && #[trigger] prompt_of_info(store.stored_prompts()[j]) == x;
        assert(prompt_view()(store.stored_prompts()[j]) == x);
    }
}

/// The friends' feed holds exactly the posts written by confirmed friends.
pub proof fn law_friend_feed_posts(store: ContentStore, friends: FriendshipTable, user_id: i32, x: PostWithPrompt)
    ensures
        newest_first(store.stored_posts(), post_by_friend_of(friends, user_id), post_view()).contains(x) <==> exists|j: int|
            0 <= j < store.stored_posts().len() && friends.friends_of(user_id).contains(store.stored_posts()[j].author_id)
                && #[trigger] post_of_info(store.stored_posts()[j]) == x,
{
    lemma_newest_first_contains(store.stored_posts(), post_by_friend_of(friends, user_id), post_view(), x);
    if exists|j: int| 0 <= j < store.stored_posts().len() && friends.friends_of(user_id).contains(store.stored_posts()[j].author_id)
        && #[trigger] post_of_info(store.stored_posts()[j]) == x {
        let j = choose|j: int| 0 <= j < store.stored_posts().len() && friends.friends_of(user_id).contains(store.stored_posts()[j].author_id)
            && #[trigger] post_of_info(store.stored_posts()[j]) == x;
        assert(post_view()(store.stored_posts()[j]) == x);
    }
}

} // verus!
