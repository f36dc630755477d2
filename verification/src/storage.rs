//! The values that go to storage with a message, and what comes back.
//!
//! Storage itself is outside this crate. Here a message becomes the row that
//! an insert binds, in column order, and a row becomes the message again.

use vstd::prelude::*;
use crate::schema::{Chat, MessageRow, PandaMessage, User};

verus! {

/// The row that an insert of `message` binds.
pub open spec fn row_of(message: PandaMessage) -> MessageRow {
    MessageRow {
        message_id: message.message_id,
        chat_id: message.chat_id,
        sender_id: message.sender_id,
        content: message.content,
    }
}

/// The message that a row stands for.
pub open spec fn message_of(row: MessageRow) -> PandaMessage {
    PandaMessage {
        chat_id: row.chat_id,
        sender_id: row.sender_id,
        content: row.content,
        message_id: row.message_id,
    }
}

/// The rows that a batch insert of `messages` binds: one for each message,
/// in order.
pub open spec fn rows_of(messages: Seq<PandaMessage>) -> Seq<MessageRow> {
    Seq::new(messages.len(), |i: int| row_of(messages[i]))
}

/// Why storage did not do what was asked.
#[derive(Clone, Copy, Debug, PartialEq, Eq, Structural)]
pub enum StorageError {
    /// The username belongs to another user already.
    UsernameTaken,
    /// A statement failed.
    Failed,
}

/// The user that comes of claiming `username` at `now`: `claimed` says
/// whether the username was free, `inserted` whether the user's row was
/// written after that.
pub fn new_user(claimed: bool, inserted: bool, user_id: u128, username: &str, now: i64) -> (user:
    Result<User, StorageError>)
    ensures
        !claimed ==> user == Err::<User, StorageError>(StorageError::UsernameTaken),
        claimed && !inserted ==> user == Err::<User, StorageError>(StorageError::Failed),
        claimed && inserted ==> {
            &&& user is Ok
            &&& user->Ok_0.user_id == user_id
            &&& user->Ok_0.username@ == username@
            &&& user->Ok_0.created_at == now
            &&& user->Ok_0.updated_at == now
        },
{
    if !claimed {
        Err(StorageError::UsernameTaken)
    } else if !inserted {
        Err(StorageError::Failed)
    } else {
        Ok(User { user_id, username: username.to_owned(), created_at: now, updated_at: now })
    }
}

/// The conversation that was created at `now` with these members.
pub fn new_chat(chat_id: u128, name: &str, members: Vec<u128>, now: i64) -> (chat: Chat)
    ensures
        chat.chat_id == chat_id,
        chat.name@ == name@,
        chat.members == members,
        chat.created_at == now,
{
    Chat { chat_id, members, name: name.to_owned(), created_at: now }
}

impl MessageRow {
    /// The row that an insert of `message` binds.
    pub fn from_message(message: &PandaMessage) -> (row: MessageRow)
        ensures
            row == row_of(*message),
    {
        MessageRow {
            message_id: message.message_id,
            chat_id: message.chat_id,
            sender_id: message.sender_id,
            content: message.content.clone(),
        }
    }

    /// The persisted message that a row stands for.
    pub fn into_message(self) -> (message: PandaMessage)
        ensures
            message == message_of(self),
    {
        PandaMessage {
            chat_id: self.chat_id,
            sender_id: self.sender_id,
            content: self.content,
            message_id: self.message_id,
        }
    }
}

/// The rows of a batch insert: one statement's values for each message, in
/// the order of the messages.
pub fn batch_rows(messages: &Vec<PandaMessage>) -> (rows: Vec<MessageRow>)
    ensures
        rows@ == rows_of(messages@),
{
    let mut rows: Vec<MessageRow> = Vec::new();
    let mut i: usize = 0;
    while i < messages.len()
        invariant
            i <= messages.len(),
            rows@ == rows_of(messages@.subrange(0, i as int)),
        decreases messages.len() - i,
    {
        rows.push(MessageRow::from_message(&messages[i]));
        i += 1;
        proof {
            assert(rows@ =~= rows_of(messages@.subrange(0, i as int)));
        }
    }
    proof {
        assert(messages@.subrange(0, i as int) == messages@);
    }
    rows
}

/// What is inserted is what was handed in: the row of a message stands for
/// that message, field by field.
pub proof fn row_keeps_message(message: PandaMessage)
    ensures
        message_of(row_of(message)) == message,
{
}

/// A batch loses and merges nothing: it has one row for each message, the
/// row at each place stands for the message at that place, and messages of
/// different conversations have rows of different conversations.
pub proof fn rows_keep_every_message(messages: Seq<PandaMessage>)
    ensures
        rows_of(messages).len() == messages.len(),
        forall|i: int|
            0 <= i < messages.len() ==> message_of(#[trigger] rows_of(messages)[i]) == messages[i],
        forall|i: int, j: int|
            0 <= i < messages.len() && 0 <= j < messages.len() && messages[i].chat_id
                != messages[j].chat_id ==> (#[trigger] rows_of(messages)[i]).chat_id != (
            #[trigger] rows_of(messages)[j]).chat_id,
{
}

} // verus!
