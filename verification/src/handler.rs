//! Decisions of the request handlers at the edge: whose request it is, which
//! message a post stands for, who belongs to a new conversation.

use vstd::prelude::*;
use crate::identity::{fresh_identity, identity_of, made_on, parsed_identity, NODE_ID};
use crate::producer::PublishError;
use crate::schema::{PandaMessage, User};

verus! {

/// Status code of every failed request.
pub const FAILURE_STATUS: u16 = 500;

/// What went wrong with a request.
#[derive(Clone, Copy, Debug, PartialEq, Eq, Structural)]
pub enum Failure {
    /// The request carries no user cookie.
    NoUserCookie,
    /// A text that should be an identity is none.
    InvalidIdentity,
    /// The user of the request is not among the stored users.
    UnknownUser,
    /// Storage failed.
    Storage,
    /// The message was not published.
    Publish(PublishError),
    /// A page could not be rendered.
    Render,
}

/// Failure of a request. The caller learns only that the server failed; the
/// cause is for the log.
#[derive(Clone, Copy, Debug, PartialEq, Eq)]
pub struct AppError(Failure);

impl AppError {
    /// The cause of the failure.
    pub closed spec fn cause(&self) -> Failure {
        self.0
    }

    /// A failure with the given cause.
    pub fn new(failure: Failure) -> (error: AppError)
        ensures
            error.cause() == failure,
    {
        AppError(failure)
    }

    /// The cause of the failure.
    pub fn failure(&self) -> (failure: Failure)
        ensures
            failure == self.cause(),
    {
        self.0
    }

    /// Status code of the response: the same for every cause.
    pub fn status(&self) -> (code: u16)
        ensures
            code == FAILURE_STATUS,
    {
        FAILURE_STATUS
    }

    /// Body of the response: the same for every cause.
    pub fn body(&self) -> (text: &'static str)
        ensures
            text@ == "Internal Server Error"@,
    {
        "Internal Server Error"
    }

    /// The failure of a publish, as the failure of the request that asked
    /// for it.
    pub fn from_publish(error: PublishError) -> (failure: AppError)
        ensures
            failure.cause() == Failure::Publish(error),
    {
        AppError(Failure::Publish(error))
    }
}

/// How a handler answers.
#[derive(Clone, Copy, Debug, PartialEq, Eq, Structural)]
pub enum Reply {
    /// Send the browser to the dashboard.
    ToDashboard,
    /// Set the user cookie and send the browser to the dashboard.
    ToDashboardAs(u128),
    /// Render the login page.
    LoginPage,
    /// Render the fragment for what was created.
    Fragment,
    /// Render the fragment that reports the failure.
    ErrorFragment,
    /// Answer with what was created, as data and with the status "created".
    Created,
    /// Fail the request.
    Failed,
}

/// Answer to a request for the index page: a visitor with a user cookie
/// goes to the dashboard, any other sees the login page.
pub fn index_reply(has_cookie: bool) -> (reply: Reply)
    ensures
        reply == (if has_cookie {
            Reply::ToDashboard
        } else {
            Reply::LoginPage
        }),
{
    if has_cookie {
        Reply::ToDashboard
    } else {
        Reply::LoginPage
    }
}

/// Answer to a request for a new user, `created` being the identity of the
/// user where one was created. A page that asked for a fragment is logged in
/// and sent to the dashboard, or shown the failure; any other caller gets the
/// user as data, or a failed request.
pub fn user_reply(created: Option<u128>, wants_fragment: bool) -> (reply: Reply)
    ensures
        reply == (match created {
            Some(user_id) => if wants_fragment {
                Reply::ToDashboardAs(user_id)
            } else {
                Reply::Created
            },
            None => if wants_fragment {
                Reply::ErrorFragment
            } else {
                Reply::Failed
            },
        }),
{
    match created {
        Some(user_id) => if wants_fragment {
            Reply::ToDashboardAs(user_id)
        } else {
            Reply::Created
        },
        None => if wants_fragment {
            Reply::ErrorFragment
        } else {
            Reply::Failed
        },
    }
}

/// Answer to a request that created a conversation: a page that asked for a
/// fragment gets the conversation rendered, any other caller gets it as data.
pub fn chat_reply(wants_fragment: bool) -> (reply: Reply)
    ensures
        reply == (if wants_fragment {
            Reply::Fragment
        } else {
            Reply::Created
        }),
{
    if wants_fragment {
        Reply::Fragment
    } else {
        Reply::Created
    }
}

/// The user that a cookie names: `cookie` is the cookie as it was read, and
/// `None` where the request has none.
pub open spec fn user_named(cookie: Option<Option<u128>>) -> Result<u128, Failure> {
    match cookie {
        None => Err(Failure::NoUserCookie),
        Some(None) => Err(Failure::InvalidIdentity),
        Some(Some(user_id)) => Ok(user_id),
    }
}

/// Why a post stands for no message, if it stands for none, given the
/// cookie and the conversation of the path as they were read. The sender is
/// looked at first.
pub open spec fn post_failure(sender: Option<Option<u128>>, chat: Option<u128>) -> Option<Failure> {
    match user_named(sender) {
        Err(failure) => Some(failure),
        Ok(_) => match chat {
            None => Some(Failure::InvalidIdentity),
            Some(_) => None,
        },
    }
}

/// The identity that a segment of the path names, given the segment as it
/// was read.
pub open spec fn identity_named(read: Option<u128>) -> Result<u128, Failure> {
    match read {
        Some(id) => Ok(id),
        None => Err(Failure::InvalidIdentity),
    }
}

/// The message that a post stands for, given the cookie and the
/// conversation of the path as they were read.
pub open spec fn posted_message(
    sender: Option<Option<u128>>,
    chat: Option<u128>,
    content: String,
    message_id: u128,
) -> Result<PandaMessage, Failure> {
    match post_failure(sender, chat) {
        Some(failure) => Err(failure),
        None => Ok(
            PandaMessage {
                chat_id: chat->Some_0,
                sender_id: sender->Some_0->Some_0,
                content,
                message_id,
            },
        ),
    }
}

/// The members of a new conversation: those that were asked for, and its
/// creator after them unless asked for already.
pub open spec fn with_creator(members: Seq<u128>, creator: u128) -> Seq<u128> {
    if members.contains(creator) {
        members
    } else {
        members.push(creator)
    }
}

/// The first of `users` with the identity `user_id`.
pub open spec fn first_user(users: Seq<User>, user_id: u128) -> Option<User>
    decreases users.len(),
{
    if users.len() == 0 {
        None
    } else if users[0].user_id == user_id {
        Some(users[0])
    } else {
        first_user(users.drop_first(), user_id)
    }
}

/// Those of `users` whose identity is not `user_id`, in order.
pub open spec fn other_users(users: Seq<User>, user_id: u128) -> Seq<User>
    decreases users.len(),
{
    if users.len() == 0 {
        Seq::empty()
    } else if users.last().user_id == user_id {
        other_users(users.drop_last(), user_id)
    } else {
        other_users(users.drop_last(), user_id).push(users.last())
    }
}

/// Reads the optional cookie text as an identity.
fn read_cookie(cookie: Option<&str>) -> (read: Option<Option<u128>>)
    ensures
        read == (match cookie {
            Some(text) => Some(parsed_identity(text@)),
            None => None,
        }),
{
    match cookie {
        Some(text) => Some(identity_of(text)),
        None => None,
    }
}

/// Decides whose request it is from the cookie as it was read: a request
/// without the cookie, or with one that is no identity, fails.
pub fn user_from(cookie: Option<Option<u128>>) -> (user: Result<u128, AppError>)
    ensures
        match user_named(cookie) {
            Ok(user_id) => user == Ok::<u128, AppError>(user_id),
            Err(failure) => user is Err && user->Err_0.cause() == failure,
        },
{
    match cookie {
        None => Err(AppError::new(Failure::NoUserCookie)),
        Some(None) => Err(AppError::new(Failure::InvalidIdentity)),
        Some(Some(user_id)) => Ok(user_id),
    }
}

/// Decides which identity a segment of the path names, from the segment as
/// it was read: a segment that is no identity fails the request.
pub fn identity_from(read: Option<u128>) -> (id: Result<u128, AppError>)
    ensures
        match identity_named(read) {
            Ok(named) => id == Ok::<u128, AppError>(named),
            Err(failure) => id is Err && id->Err_0.cause() == failure,
        },
{
    match read {
        Some(id) => Ok(id),
        None => Err(AppError::new(Failure::InvalidIdentity)),
    }
}

/// Reads the identity that a segment of the path names.
pub fn identity_in_path(segment: &str) -> (id: Result<u128, AppError>)
    ensures
        match identity_named(parsed_identity(segment@)) {
            Ok(named) => id == Ok::<u128, AppError>(named),
            Err(failure) => id is Err && id->Err_0.cause() == failure,
        },
{
    identity_from(identity_of(segment))
}

/// Decides whose request it is from the text of the user cookie.
pub fn current_user(cookie: Option<&str>) -> (user: Result<u128, AppError>)
    ensures
        match user_named(
            match cookie {
                Some(text) => Some(parsed_identity(text@)),
                None => None,
            },
        ) {
            Ok(user_id) => user == Ok::<u128, AppError>(user_id),
            Err(failure) => user is Err && user->Err_0.cause() == failure,
        },
{
    user_from(read_cookie(cookie))
}

/// Decides whether a post stands for a message, from the cookie and the
/// conversation as they were read. The sender is checked first, then the
/// conversation.
pub fn failure_of_post(sender: Option<Option<u128>>, chat: Option<u128>) -> (failure: Option<
    Failure,
>)
    ensures
        failure == post_failure(sender, chat),
{
    match sender {
        None => Some(Failure::NoUserCookie),
        Some(None) => Some(Failure::InvalidIdentity),
        Some(Some(_)) => match chat {
            None => Some(Failure::InvalidIdentity),
            Some(_) => None,
        },
    }
}

/// Builds the message of a post from the cookie and the conversation as they
/// were read. The sender is checked first, then the conversation.
pub fn message_from_parts(
    sender: Option<Option<u128>>,
    chat: Option<u128>,
    content: String,
    message_id: u128,
) -> (message: Result<PandaMessage, AppError>)
    ensures
        match posted_message(sender, chat, content, message_id) {
            Ok(posted) => message == Ok::<PandaMessage, AppError>(posted),
            Err(failure) => message is Err && message->Err_0.cause() == failure,
        },
{
    match user_from(sender) {
        Err(error) => Err(error),
        Ok(sender_id) => match chat {
            None => Err(AppError::new(Failure::InvalidIdentity)),
            Some(chat_id) => Ok(PandaMessage { chat_id, sender_id, content, message_id }),
        },
    }
}

/// Builds the message of a post from the text of the user cookie and of the
/// conversation in the path. A post that stands for a message is given its
/// identity here, once: a new time-based identity of this node.
pub fn new_message(cookie: Option<&str>, chat: &str, content: String) -> (message: Result<
    PandaMessage,
    AppError,
>)
    ensures
        match post_failure(
            match cookie {
                Some(text) => Some(parsed_identity(text@)),
                None => None,
            },
            parsed_identity(chat@),
        ) {
            Some(failure) => message is Err && message->Err_0.cause() == failure,
            None => {
                &&& message is Ok
                &&& made_on(message->Ok_0.message_id, NODE_ID@)
                &&& posted_message(
                    match cookie {
                        Some(text) => Some(parsed_identity(text@)),
                        None => None,
                    },
                    parsed_identity(chat@),
                    content,
                    message->Ok_0.message_id,
                ) == Ok::<PandaMessage, Failure>(message->Ok_0)
            },
        },
{
    let sender = read_cookie(cookie);
    let chat = identity_of(chat);
    match failure_of_post(sender, chat) {
        Some(failure) => Err(AppError::new(failure)),
        None => message_from_parts(sender, chat, content, fresh_identity()),
    }
}

/// Whether `user_id` is among `members`.
pub fn is_member(members: &Vec<u128>, user_id: u128) -> (found: bool)
    ensures
        found == members@.contains(user_id),
{
    let mut i: usize = 0;
    while i < members.len()
        invariant
            i <= members.len(),
            !members@.subrange(0, i as int).contains(user_id),
        decreases members.len() - i,
    {
        if members[i] == user_id {
            return true;
        }
        proof {
            let before = members@.subrange(0, i as int);
            let after = members@.subrange(0, i + 1);
            assert forall|k: int| 0 <= k < after.len() implies after[k] != user_id by {
                if k < i {
                    assert(before[k] == after[k]);
                    assert(before.contains(before[k]));
                }
            }
        }
        i += 1;
    }
    proof {
        assert(members@.subrange(0, i as int) == members@);
    }
    false
}

/// The members of a new conversation: the creator is added at the end
/// unless the list names the creator already.
pub fn members_with(members: Vec<u128>, creator: u128) -> (all: Vec<u128>)
    ensures
        all@ == with_creator(members@, creator),
{
    let mut all = members;
    if !is_member(&all, creator) {
        all.push(creator);
    }
    all
}

/// A user added at the end is the first match only where there was none.
proof fn first_user_push(users: Seq<User>, user: User, user_id: u128)
    ensures
        first_user(users.push(user), user_id) == (match first_user(users, user_id) {
            Some(found) => Some(found),
            None => if user.user_id == user_id {
                Some(user)
            } else {
                None
            },
        }),
    decreases users.len(),
{
    if users.len() == 0 {
        assert(users.push(user).drop_first() == Seq::<User>::empty());
    } else {
        assert(users.push(user)[0] == users[0]);
        assert(users.push(user).drop_first() == users.drop_first().push(user));
        if users[0].user_id != user_id {
            first_user_push(users.drop_first(), user, user_id);
        }
    }
}

/// Splits the stored users into the user of the request and the others, in
/// order. Fails where the user of the request is not among them.
pub fn split_users(users: &Vec<User>, current: u128) -> (split: Result<(User, Vec<User>), AppError>)
    ensures
        match first_user(users@, current) {
            Some(found) => split is Ok && split->Ok_0.0 == found && split->Ok_0.1@ == other_users(
                users@,
                current,
            ),
            None => split is Err && split->Err_0.cause() == Failure::UnknownUser,
        },
{
    let mut found: Option<User> = None;
    let mut others: Vec<User> = Vec::new();
    let mut i: usize = 0;
    while i < users.len()
        invariant
            i <= users.len(),
            found == first_user(users@.subrange(0, i as int), current),
            others@ == other_users(users@.subrange(0, i as int), current),
        decreases users.len() - i,
    {
        proof {
            assert(users@.subrange(0, i + 1) == users@.subrange(0, i as int).push(users@[i as int]));
            assert(users@.subrange(0, i + 1).drop_last() == users@.subrange(0, i as int));
            first_user_push(users@.subrange(0, i as int), users@[i as int], current);
        }
        if users[i].user_id == current {
            if found.is_none() {
                found = Some(users[i].clone());
            }
        } else {
            others.push(users[i].clone());
        }
        i += 1;
    }
    proof {
        assert(users@.subrange(0, i as int) == users@);
    }
    match found {
        Some(user) => Ok((user, others)),
        None => Err(AppError::new(Failure::UnknownUser)),
    }
}

} // verus!
