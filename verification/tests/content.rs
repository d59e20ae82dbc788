use spur_api::content::{
    friend_content_gate, friend_content_verdict, get_for_reading, get_for_writing, post_insertion_result,
    prompt_insertion_result, reading_gate, vec_into, writing_gate, PostInfo, PostWithPrompt, PostWithPromptRow,
    PromptInfo, PromptWithAuthor, ReadGate,
};
use spur_api::errors::{ContentError, DbError, DomainError, FriendshipError, TechnicalError, UserError};
use spur_api::friendship::FriendshipTable;
use spur_api::ids::UserIdPair;
use spur_api::insertion::InsertionError;

fn make_post_info() -> PostInfo {
    PostInfo {
        id: 245,
        author_id: 99,
        author_username: String::from("any_username"),
        body: String::from("super cool post body"),
        created_at: 0,
        edited_at: None,
        prompt_id: 1111,
        prompt_author_username: String::from("any username"),
        prompt_body: String::from("any prompt body"),
    }
}

fn make_prompt() -> PromptInfo {
    PromptInfo {
        id: 14_852,
        author_id: 558,
        author_username: String::from("kenny_kane_jan"),
        body: String::from("Tell me about a time"),
        created_at: 0,
    }
}

fn pool_closed() -> DbError {
    DbError { message: String::from("attempted to acquire a connection on a closed pool"), code: None, constraint: None }
}

fn friends_with(a: i32, b: i32) -> FriendshipTable {
    let mut table = FriendshipTable::new();
    assert_eq!(table.add_friend(a, b), Ok(false));
    assert_eq!(table.add_friend(b, a), Ok(true));
    table
}

#[test]
fn errors_for_failed_prompt_retrieval() {
    let (author_id, prompt_id) = (284, 9924);
    let prompt = PromptInfo { id: prompt_id, ..make_prompt() };
    let result = get_for_writing(author_id, Some(prompt), &FriendshipTable::new());
    assert!(matches!(result, Err(DomainError::Content(ContentError::NotFriends))));
}

#[test]
fn post_converts_insertion_errors_into_domain_errors() {
    let result1 = post_insertion_result(Err(InsertionError::Technical(pool_closed())));
    let result2 = post_insertion_result(Err(InsertionError::UniqueViolation(String::from(
        "any uniqueness constraint violation here",
    ))));
    assert!(matches!(result1, Err(DomainError::Technical(TechnicalError::Database(e))) if e.message == pool_closed().message));
    assert!(matches!(result2, Err(DomainError::Content(ContentError::DuplicatePost))));
}

#[test]
fn converts_to_post_with_prompt_for_successful_insertion() {
    let post_info = make_post_info();
    let post_with_prompt = PostWithPrompt::from(post_info.clone());
    let result = post_insertion_result(Ok(post_info)).expect("returned error despite successful insertion");
    assert_eq!(result, post_with_prompt);
}

#[test]
fn errors_for_nonexistent_post() {
    let result = get_for_reading(254, None, &FriendshipTable::new());
    assert!(matches!(result, Err(DomainError::Content(ContentError::NotFound))));
}

#[test]
fn disallows_post_reading_by_non_friends() {
    let post_info = make_post_info();
    let requester_id = post_info.author_id + 966;
    assert_eq!(
        reading_gate(requester_id, Some(post_info.author_id)).unwrap(),
        ReadGate::NeedsFriendship(UserIdPair::new(requester_id, post_info.author_id).unwrap())
    );
    let result = get_for_reading(requester_id, Some(post_info), &FriendshipTable::new());
    assert!(matches!(result, Err(DomainError::Content(ContentError::NotFriends))));
}

#[test]
fn converts_to_post_with_prompt_for_ones_own_post() {
    let post_info = make_post_info();
    let result = get_for_reading(post_info.author_id, Some(post_info.clone()), &FriendshipTable::new())
        .expect("failed to get one's own post for reading");
    assert_eq!(result, post_info.into());
}

#[test]
fn converts_to_post_with_prompt_for_a_friends_post() {
    let post_info = make_post_info();
    let requester_id = post_info.author_id + 61;
    let table = friends_with(requester_id, post_info.author_id);
    let result = get_for_reading(requester_id, Some(post_info.clone()), &table)
        .expect("failed to get friend's post for reading");
    assert_eq!(result, post_info.into());
}

#[test]
fn prompt_converts_insertion_errors_into_domain_errors() {
    let worker_crashed = DbError { message: String::from("worker crashed"), code: None, constraint: None };
    let result1 = prompt_insertion_result(Err(InsertionError::Technical(worker_crashed)));
    let result2 = prompt_insertion_result(Err(InsertionError::UniqueViolation(String::from(
        "any uniqueness constraint violation here",
    ))));
    assert!(matches!(result1, Err(DomainError::Technical(TechnicalError::Database(e))) if e.message == "worker crashed"));
    assert!(matches!(result2, Err(DomainError::Content(ContentError::DuplicatePrompt))));
}

#[test]
fn creates_prompt_with_author_for_successful_insertion() {
    let prompt_info_1 = PromptInfo {
        id: 354,
        author_id: 41,
        author_username: String::from("my_friend_5"),
        body: String::from("Prompt body one!"),
        created_at: 0,
    };
    let prompt_info_2 = PromptInfo {
        id: 355,
        author_id: 42,
        author_username: String::from("jill_plus_ian"),
        body: String::from("Prompt body two?"),
        created_at: 0,
    };
    let expected1 = PromptWithAuthor { id: 354, author_username: String::from("my_friend_5"), body: String::from("Prompt body one!") };
    let expected2 = PromptWithAuthor { id: 355, author_username: String::from("jill_plus_ian"), body: String::from("Prompt body two?") };
    let actual1 = prompt_insertion_result(Ok(prompt_info_1)).expect("failed to create prompt 1");
    let actual2 = prompt_insertion_result(Ok(prompt_info_2)).expect("failed to create prompt 2");
    assert_eq!(actual1, expected1);
    assert_eq!(actual2, expected2);
}

#[test]
fn errors_for_nonexistent_prompt() {
    let result = get_for_writing(9921, None, &FriendshipTable::new());
    assert!(matches!(result, Err(DomainError::Content(ContentError::NotFound))));
}

#[test]
fn disallows_responding_to_ones_own_prompt() {
    let prompt = make_prompt();
    let result = get_for_writing(prompt.author_id, Some(prompt), &FriendshipTable::new());
    assert!(matches!(result, Err(DomainError::Content(ContentError::OwnPrompt))));
}

#[test]
fn requires_confirmed_friendship_to_see_prompts() {
    let prompt = make_prompt();
    let requester_id = prompt.author_id + 10;
    let mut table = FriendshipTable::new();
    assert_eq!(table.add_friend(requester_id, prompt.author_id), Ok(false));
    let result = get_for_writing(requester_id, Some(prompt), &table);
    assert!(matches!(result, Err(DomainError::Content(ContentError::NotFriends))));
}

#[test]
fn creates_prompt_with_author_for_a_friends_existing_prompt() {
    let prompt = make_prompt();
    let requester_id = prompt.author_id + 15;
    let table = friends_with(prompt.author_id, requester_id);
    let result = get_for_writing(requester_id, Some(prompt.clone()), &table).expect("failed to get friend's existing prompt");
    assert_eq!(result, prompt.into());
}

#[test]
fn writing_gate_orders_its_checks() {
    assert!(matches!(writing_gate(3, None), Err(DomainError::Content(ContentError::NotFound))));
    assert!(matches!(writing_gate(3, Some(3)), Err(DomainError::Content(ContentError::OwnPrompt))));
    assert_eq!(writing_gate(3, Some(1)).unwrap(), UserIdPair::new(1, 3).unwrap());
}

#[test]
fn disallows_seeing_content_if_not_friends() {
    let non_friend_id = 41;
    let requester_id = non_friend_id + 55;
    let ids = friend_content_gate(requester_id, Some(non_friend_id)).unwrap();
    assert_eq!(ids, UserIdPair::new(non_friend_id, requester_id).unwrap());
    let result = friend_content_verdict(false);
    assert!(matches!(result, Err(DomainError::Content(ContentError::NotFriends))));
}

#[test]
fn gets_content_if_friends() {
    let friend_id = 42;
    let requester_id = friend_id + 25;
    let ids = friend_content_gate(requester_id, Some(friend_id)).unwrap();
    assert_eq!(ids, UserIdPair::new(friend_id, requester_id).unwrap());
    assert!(friend_content_verdict(true).is_ok());
}

#[test]
fn friend_content_needs_an_existing_other_user() {
    assert!(matches!(friend_content_gate(5, None), Err(DomainError::User(UserError::NotFound))));
    assert!(matches!(friend_content_gate(5, Some(5)), Err(DomainError::Friendship(FriendshipError::SelfFriendship))));
}

#[test]
fn rows_and_infos_convert_field_by_field() {
    let row = PostWithPromptRow {
        post_id: 7,
        post_author_username: String::from("writer"),
        post_body: String::from("answer"),
        prompt_id: 3,
        prompt_author_username: String::from("asker"),
        prompt_body: String::from("question"),
    };
    let expected = PostWithPrompt {
        id: 7,
        author_username: String::from("writer"),
        prompt: PromptWithAuthor { id: 3, author_username: String::from("asker"), body: String::from("question") },
        body: String::from("answer"),
    };
    let converted: Vec<PostWithPrompt> = vec_into(vec![row.clone(), row]);
    assert_eq!(converted, vec![expected.clone(), expected]);
    let prompts: Vec<PromptWithAuthor> = vec_into(vec![make_prompt()]);
    assert_eq!(prompts, vec![PromptWithAuthor {
        id: 14_852,
        author_username: String::from("kenny_kane_jan"),
        body: String::from("Tell me about a time"),
    }]);
    let empty: Vec<PromptWithAuthor> = vec_into(Vec::<PromptInfo>::new());
    assert!(empty.is_empty());
}
