//! The records that travel through the system.

use vstd::prelude::*;

verus! {

/// Form payload that asks for a new user.
#[derive(Debug, PartialEq, Eq)]
pub struct CreateUser {
    pub username: String,
}

/// A stored user. Instants are milliseconds since the Unix epoch.
#[derive(Debug, PartialEq, Eq)]
pub struct User {
    pub user_id: u128,
    pub username: String,
    pub created_at: i64,
    pub updated_at: i64,
}

/// A stored conversation with its members.
#[derive(Debug, PartialEq, Eq)]
pub struct Chat {
    pub chat_id: u128,
    pub members: Vec<u128>,
    pub name: String,
    pub created_at: i64,
}

/// Form payload that asks for a new conversation.
#[derive(Debug, PartialEq, Eq)]
pub struct CreateChat {
    pub name: String,
    pub members: Vec<u128>,
}

/// Form payload that carries the text of a new message.
#[derive(Debug, PartialEq, Eq)]
pub struct CreatMessage {
    pub content: String,
}

/// Form payload of a login.
#[derive(Debug, PartialEq, Eq)]
pub struct LoginPayload {
    pub username: String,
}

/// A chat message as it is published, persisted and delivered.
///
/// `message_id` is time-ordered and assigned once, before the message is
/// published; nothing in this crate changes a message after that.
#[derive(Debug, PartialEq, Eq)]
pub struct PandaMessage {
    pub chat_id: u128,
    pub sender_id: u128,
    pub content: String,
    pub message_id: u128,
}

/// A message row as storage returns it.
#[derive(Debug, PartialEq, Eq)]
pub struct RawPandaMessage {
    pub chat_id: u128,
    pub sender_id: u128,
    pub content: String,
    pub message_id: u128,
}

/// The values bound to one insert statement, in column order.
#[derive(Debug, PartialEq, Eq)]
pub struct MessageRow {
    pub message_id: u128,
    pub chat_id: u128,
    pub sender_id: u128,
    pub content: String,
}

impl Clone for PandaMessage {
    fn clone(&self) -> (copy: Self)
        ensures
            copy == *self,
    {
        PandaMessage {
            chat_id: self.chat_id,
            sender_id: self.sender_id,
            content: self.content.clone(),
            message_id: self.message_id,
        }
    }
}

impl Clone for User {
    fn clone(&self) -> (copy: Self)
        ensures
            copy == *self,
    {
        User {
            user_id: self.user_id,
            username: self.username.clone(),
            created_at: self.created_at,
            updated_at: self.updated_at,
        }
    }
}

impl RawPandaMessage {
    /// The message that a stored row stands for.
    pub fn to_panda_message(&self) -> (message: PandaMessage)
        ensures
            message.chat_id == self.chat_id,
            message.sender_id == self.sender_id,
            message.content == self.content,
            message.message_id == self.message_id,
    {
        PandaMessage {
            chat_id: self.chat_id,
            sender_id: self.sender_id,
            content: self.content.clone(),
            message_id: self.message_id,
        }
    }
}

} // verus!
