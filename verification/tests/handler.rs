use chat_app::handler::{
    chat_reply, current_user, failure_of_post, identity_from, identity_in_path, index_reply,
    is_member, members_with, message_from_parts, new_message, split_users, user_from, user_reply,
    AppError, Failure, Reply, FAILURE_STATUS,
};

#[test]
fn identity_of_a_path_segment() {
    assert_eq!(identity_in_path("00000000-0000-0000-0000-00000000000c"), Ok(0xc));
    assert_eq!(identity_in_path("0000000000000000000000000000000c"), Ok(0xc));
    assert_eq!(identity_in_path("nowhere"), Err(AppError::new(Failure::InvalidIdentity)));
    assert_eq!(identity_in_path(""), Err(AppError::new(Failure::InvalidIdentity)));
    assert_eq!(identity_from(Some(7)), Ok(7));
    assert_eq!(identity_from(None), Err(AppError::new(Failure::InvalidIdentity)));
}
use chat_app::identity::{fresh_identity, NODE_ID};
use chat_app::producer::PublishError;
use chat_app::schema::{
    Chat, CreatMessage, CreateChat, CreateUser, LoginPayload, PandaMessage, RawPandaMessage, User,
};

const SENDER: &str = "00000000-0000-0000-0000-00000000000a";
const CHAT: &str = "00000000-0000-0000-0000-00000000000c";

fn user(user_id: u128, username: &str) -> User {
    User { user_id, username: username.to_string(), created_at: 1, updated_at: 2 }
}

#[test]
fn test_create_chat() {
    let member1: u128 = 0x11;
    let member2: u128 = 0x22;
    let current_user_id: u128 = 0x33;
    let payload = CreateChat { name: "test_chat".to_string(), members: vec![member1, member2] };
    let mut expected_members = vec![member1, member2];
    expected_members.push(current_user_id);
    let members = members_with(payload.members, current_user_id);
    assert_eq!(members, expected_members);
    let chat = Chat { chat_id: 1, members, name: payload.name, created_at: 0 };
    assert_eq!(chat.name, "test_chat");
    assert_eq!(chat.members, expected_members);
}

#[test]
fn test_post_message() {
    let create_message = CreatMessage { content: "Hello, world!".to_string() };
    let message = new_message(Some(SENDER), CHAT, create_message.content).unwrap();
    assert_eq!(message.sender_id, 0xa);
    assert_eq!(message.content, "Hello, world!");
    assert_eq!(message.chat_id, 0xc);
    assert!(made_here(message.message_id));
}

/// Whether an identity is time-based and carries the node of this crate.
fn made_here(id: u128) -> bool {
    let node = NODE_ID.iter().fold(0u128, |number, byte| number * 256 + u128::from(*byte));
    (id >> 76) & 0xf == 1 && (id >> 62) & 0x3 == 2 && id & 0xffff_ffff_ffff == node
}

#[test]
fn fresh_identities_are_time_based_and_differ() {
    assert_eq!(NODE_ID, [1, 2, 3, 4, 5, 6]);
    let first = fresh_identity();
    let second = fresh_identity();
    assert!(made_here(first));
    assert!(made_here(second));
    assert_ne!(first, second);
    assert!(!made_here(0));
    assert!(!made_here(first ^ 1));
    assert!(!made_here(first ^ (1 << 76)));
}

#[test]
fn every_post_gets_its_own_identity() {
    let first = new_message(Some(SENDER), CHAT, "a".to_string()).unwrap();
    let second = new_message(Some(SENDER), CHAT, "a".to_string()).unwrap();
    assert_ne!(first.message_id, second.message_id);
    assert_eq!(first.sender_id, second.sender_id);
    assert_eq!(first.chat_id, second.chat_id);
}

#[test]
fn failure_of_a_post() {
    assert_eq!(failure_of_post(None, None), Some(Failure::NoUserCookie));
    assert_eq!(failure_of_post(None, Some(1)), Some(Failure::NoUserCookie));
    assert_eq!(failure_of_post(Some(None), Some(1)), Some(Failure::InvalidIdentity));
    assert_eq!(failure_of_post(Some(Some(2)), None), Some(Failure::InvalidIdentity));
    assert_eq!(failure_of_post(Some(Some(2)), Some(1)), None);
}

#[test]
fn creator_is_not_added_twice() {
    assert_eq!(members_with(vec![1, 2, 3], 2), vec![1, 2, 3]);
    assert_eq!(members_with(vec![], 2), vec![2]);
    assert_eq!(members_with(vec![2], 2), vec![2]);
    assert_eq!(members_with(vec![1, 1], 2), vec![1, 1, 2]);
}

#[test]
fn membership_of_a_list() {
    assert!(is_member(&vec![1, 2, 3], 3));
    assert!(is_member(&vec![1, 2, 3], 1));
    assert!(!is_member(&vec![1, 2, 3], 4));
    assert!(!is_member(&vec![], 4));
}

#[test]
fn post_without_cookie_fails() {
    let message = new_message(None, CHAT, "x".to_string());
    assert_eq!(message, Err(AppError::new(Failure::NoUserCookie)));
    let message = new_message(None, "not a chat", "x".to_string());
    assert_eq!(message, Err(AppError::new(Failure::NoUserCookie)));
}

#[test]
fn post_with_a_bad_identity_fails() {
    let message = new_message(Some("nobody"), CHAT, "x".to_string());
    assert_eq!(message, Err(AppError::new(Failure::InvalidIdentity)));
    let message = new_message(Some(SENDER), "nowhere", "x".to_string());
    assert_eq!(message, Err(AppError::new(Failure::InvalidIdentity)));
}

#[test]
fn message_is_built_from_parts() {
    assert_eq!(
        message_from_parts(Some(Some(1)), Some(2), "t".to_string(), 3),
        Ok(PandaMessage { chat_id: 2, sender_id: 1, content: "t".to_string(), message_id: 3 })
    );
    assert_eq!(
        message_from_parts(None, None, "t".to_string(), 3),
        Err(AppError::new(Failure::NoUserCookie))
    );
    assert_eq!(
        message_from_parts(Some(None), Some(2), "t".to_string(), 3),
        Err(AppError::new(Failure::InvalidIdentity))
    );
    assert_eq!(
        message_from_parts(Some(Some(1)), None, "t".to_string(), 3),
        Err(AppError::new(Failure::InvalidIdentity))
    );
}

#[test]
fn user_of_a_request() {
    assert_eq!(current_user(Some(SENDER)), Ok(0xa));
    assert_eq!(current_user(Some("")), Err(AppError::new(Failure::InvalidIdentity)));
    assert_eq!(current_user(None), Err(AppError::new(Failure::NoUserCookie)));
    assert_eq!(user_from(Some(Some(5))), Ok(5));
    assert_eq!(user_from(Some(None)), Err(AppError::new(Failure::InvalidIdentity)));
    assert_eq!(user_from(None), Err(AppError::new(Failure::NoUserCookie)));
}

#[test]
fn users_are_split_into_current_and_others() {
    let users = vec![user(1, "ann"), user(2, "bob"), user(3, "cy")];
    let split = split_users(&users, 2);
    assert_eq!(split, Ok((user(2, "bob"), vec![user(1, "ann"), user(3, "cy")])));
    let split = split_users(&users, 1);
    assert_eq!(split, Ok((user(1, "ann"), vec![user(2, "bob"), user(3, "cy")])));
}

#[test]
fn unknown_current_user_fails() {
    let users = vec![user(1, "ann")];
    assert_eq!(split_users(&users, 9), Err(AppError::new(Failure::UnknownUser)));
    assert_eq!(split_users(&vec![], 9), Err(AppError::new(Failure::UnknownUser)));
}

#[test]
fn first_match_is_the_current_user() {
    let users = vec![user(1, "ann"), user(2, "first"), user(2, "second")];
    assert_eq!(split_users(&users, 2), Ok((user(2, "first"), vec![user(1, "ann")])));
}

#[test]
fn every_failure_answers_alike() {
    for failure in [
        Failure::NoUserCookie,
        Failure::InvalidIdentity,
        Failure::UnknownUser,
        Failure::Storage,
        Failure::Publish(PublishError::Broker),
        Failure::Publish(PublishError::Encoding),
        Failure::Render,
    ] {
        let error = AppError::new(failure);
        assert_eq!(error.failure(), failure);
        assert_eq!(error.status(), 500);
        assert_eq!(error.body(), "Internal Server Error");
    }
    assert_eq!(FAILURE_STATUS, 500);
    assert_eq!(
        AppError::from_publish(PublishError::Broker).failure(),
        Failure::Publish(PublishError::Broker)
    );
}

#[test]
fn stored_row_becomes_the_message() {
    let raw = RawPandaMessage {
        chat_id: 1,
        sender_id: 2,
        content: "text".to_string(),
        message_id: 3,
    };
    assert_eq!(
        raw.to_panda_message(),
        PandaMessage { chat_id: 1, sender_id: 2, content: "text".to_string(), message_id: 3 }
    );
}

#[test]
fn payloads_hold_their_fields() {
    assert_eq!(CreateUser { username: "test_user".to_string() }.username, "test_user");
    assert_eq!(LoginPayload { username: "test_user".to_string() }.username, "test_user");
    let copy = user(4, "dee").clone();
    assert_eq!(copy, user(4, "dee"));
    let message = PandaMessage { chat_id: 1, sender_id: 2, content: "c".to_string(), message_id: 3 };
    assert_eq!(message.clone(), message);
}

#[test]
fn index_depends_on_the_cookie() {
    assert_eq!(index_reply(true), Reply::ToDashboard);
    assert_eq!(index_reply(false), Reply::LoginPage);
}

#[test]
fn new_user_is_answered_by_kind_of_caller() {
    assert_eq!(user_reply(Some(7), true), Reply::ToDashboardAs(7));
    assert_eq!(user_reply(Some(7), false), Reply::Created);
    assert_eq!(user_reply(None, true), Reply::ErrorFragment);
    assert_eq!(user_reply(None, false), Reply::Failed);
}

#[test]
fn new_chat_is_answered_by_kind_of_caller() {
    assert_eq!(chat_reply(true), Reply::Fragment);
    assert_eq!(chat_reply(false), Reply::Created);
}
