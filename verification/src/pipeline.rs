//! What happens to one record taken from the broker.
//!
//! A record is decoded, persisted, its recipients are resolved, and the
//! message is fanned out to those of them that are connected. Decoding,
//! storage and the clock are outside this crate, so the work is a state
//! machine: a `Task` says through `request` what its driver has to obtain
//! next, and the matching method takes the answer and moves the task on. A
//! task never touches another task: whatever ends one record leaves the
//! others alone.

use vstd::prelude::*;
use vstd::utf8::{decode_utf8, valid_utf8};
use crate::cache::{fresh_recipients, MembershipCache, Resolution};
use crate::registry::{possible_delivery, ConnectionRegistry, Delivery};
use crate::schema::PandaMessage;

verus! {

/// Number of records that a session works on at once.
pub const MAX_IN_FLIGHT: usize = 100;

/// Why a payload gave no message.
#[derive(Clone, Copy, Debug, PartialEq, Eq, Structural)]
pub enum DecodeFailure {
    /// The record carried no payload.
    NoPayload,
    /// The payload is not UTF-8 text.
    InvalidUtf8,
    /// The text is not a message.
    Malformed,
}

/// Why the work on a record ended before the fanout.
#[derive(Clone, Copy, Debug, PartialEq, Eq, Structural)]
pub enum RecordError {
    /// The payload could not be decoded. The record is dropped.
    Decode(DecodeFailure),
    /// Storage did not insert the message. No fanout is attempted.
    Persistence,
    /// Storage did not return the members of the conversation.
    CacheSource,
}

/// A measurement or count that the driver reports to the metrics sink.
#[derive(Clone, Copy, Debug, PartialEq, Eq, Structural)]
pub enum Signal {
    /// One more record was decoded and goes on to be persisted.
    Processed,
    /// One more record was dropped because it could not be decoded.
    Rejected,
    /// Nanoseconds spent on decoding.
    DecodeNanos(u64),
    /// Nanoseconds that the insert took.
    PersistNanos(u64),
    /// Nanoseconds from the confirmed insert to the end of the fanout.
    FanoutNanos(u64),
    /// Nanoseconds from the receipt of the record to the end of the fanout.
    TotalNanos(u64),
}

/// What the driver of a task has to do next.
#[derive(Debug, PartialEq, Eq)]
pub enum Request {
    /// Decode the text that `text` returns and report with `decoded`.
    Decode,
    /// Insert this message into storage and report with `persisted`.
    Persist(PandaMessage),
    /// Fetch the members of this conversation and report with `members_fetched`.
    MembersOf(u128),
    /// Obtain read access to the registry and call `deliver`.
    Fanout,
    /// Read the clock and call `finish`.
    Finish,
    /// The task is over.
    Nothing,
}

/// How the work on a record ended.
#[derive(Debug, PartialEq, Eq)]
pub enum Outcome {
    /// The record was given up at the stage that the error names.
    Dropped(RecordError),
    /// The message was persisted and offered to each recipient, with these
    /// results, one for each recipient in the order of the member list.
    FannedOut(Vec<Delivery>),
}

/// One record on its way through the pipeline.
///
/// `received_at` is the instant the record arrived; `since` is the instant
/// the current stage began.
#[derive(Debug, PartialEq, Eq)]
pub enum Task {
    /// The payload is text and has to be decoded.
    Decoding { text: String, received_at: u64 },
    /// Storage is asked to insert the message.
    Persisting { message: PandaMessage, received_at: u64, since: u64 },
    /// The message is stored; storage is asked for the members.
    Fetching { message: PandaMessage, received_at: u64, since: u64 },
    /// The message is stored and the recipients are known.
    Delivering { message: PandaMessage, members: Vec<u128>, received_at: u64, since: u64 },
    /// Each recipient was tried once.
    Delivered { deliveries: Vec<Delivery>, received_at: u64, since: u64 },
    /// Nothing more happens.
    Done { outcome: Outcome },
}

/// Mathematical value of an `Outcome`.
pub enum OutcomeModel {
    Dropped(RecordError),
    FannedOut(Seq<Delivery>),
}

/// Mathematical value of a `Task`.
pub enum TaskModel {
    Decoding { text: Seq<char>, received_at: u64 },
    Persisting { message: PandaMessage, received_at: u64, since: u64 },
    Fetching { message: PandaMessage, received_at: u64, since: u64 },
    Delivering { message: PandaMessage, members: Seq<u128>, received_at: u64, since: u64 },
    Delivered { deliveries: Seq<Delivery>, received_at: u64, since: u64 },
    Done { outcome: OutcomeModel },
}

impl View for Outcome {
    type V = OutcomeModel;

    open spec fn view(&self) -> OutcomeModel {
        match *self {
            Outcome::Dropped(error) => OutcomeModel::Dropped(error),
            Outcome::FannedOut(deliveries) => OutcomeModel::FannedOut(deliveries@),
        }
    }
}

impl View for Task {
    type V = TaskModel;

    open spec fn view(&self) -> TaskModel {
        match *self {
            Task::Decoding { text, received_at } => TaskModel::Decoding { text: text@, received_at },
            Task::Persisting { message, received_at, since } => TaskModel::Persisting {
                message,
                received_at,
                since,
            },
            Task::Fetching { message, received_at, since } => TaskModel::Fetching {
                message,
                received_at,
                since,
            },
            Task::Delivering { message, members, received_at, since } => TaskModel::Delivering {
                message,
                members: members@,
                received_at,
                since,
            },
            Task::Delivered { deliveries, received_at, since } => TaskModel::Delivered {
                deliveries: deliveries@,
                received_at,
                since,
            },
            Task::Done { outcome } => TaskModel::Done { outcome: outcome@ },
        }
    }
}

/// Nanoseconds from `from` to `to`; zero if `to` lies before `from`.
pub open spec fn elapsed(from: u64, to: u64) -> u64 {
    if to >= from {
        (to - from) as u64
    } else {
        0
    }
}

/// Why a payload gives no text, if it gives none.
pub open spec fn payload_failure(payload: Option<Seq<u8>>) -> Option<DecodeFailure> {
    match payload {
        None => Some(DecodeFailure::NoPayload),
        Some(bytes) => if valid_utf8(bytes) {
            None
        } else {
            Some(DecodeFailure::InvalidUtf8)
        },
    }
}

/// The task that a record with this payload, received at `now`, starts as: a
/// payload that is text has to be decoded, any other ends the record.
pub open spec fn received(payload: Option<Seq<u8>>, now: u64) -> TaskModel {
    match payload_failure(payload) {
        Some(failure) => TaskModel::Done {
            outcome: OutcomeModel::Dropped(RecordError::Decode(failure)),
        },
        None => TaskModel::Decoding { text: decode_utf8(payload->Some_0), received_at: now },
    }
}

/// The signals that go with `received`.
pub open spec fn received_signals(payload: Option<Seq<u8>>) -> Seq<Signal> {
    if payload_failure(payload) is Some {
        seq![Signal::Rejected]
    } else {
        Seq::empty()
    }
}

/// The task after its text was decoded by `now`, to `message` or, with
/// `None`, to nothing. Only a task that is decoding moves.
pub open spec fn after_decode(task: TaskModel, message: Option<PandaMessage>, now: u64) -> TaskModel {
    match task {
        TaskModel::Decoding { received_at, .. } => match message {
            Some(message) => TaskModel::Persisting { message, received_at, since: now },
            None => TaskModel::Done {
                outcome: OutcomeModel::Dropped(RecordError::Decode(DecodeFailure::Malformed)),
            },
        },
        _ => task,
    }
}

/// The signals that go with `after_decode`.
pub open spec fn after_decode_signals(task: TaskModel, message: Option<PandaMessage>, now: u64) -> Seq<
    Signal,
> {
    match task {
        TaskModel::Decoding { received_at, .. } => match message {
            Some(_) => seq![Signal::Processed, Signal::DecodeNanos(elapsed(received_at, now))],
            None => seq![Signal::Rejected],
        },
        _ => Seq::empty(),
    }
}

/// The task after storage has answered the insert at `now`, given what the
/// cache holds. Only a task that is persisting moves.
pub open spec fn after_persist(
    task: TaskModel,
    stored: bool,
    snapshots: Map<u128, (Seq<u128>, u64)>,
    now: u64,
) -> TaskModel {
    match task {
        TaskModel::Persisting { message, received_at, since } => if !stored {
            TaskModel::Done { outcome: OutcomeModel::Dropped(RecordError::Persistence) }
        } else {
            match fresh_recipients(snapshots, message.chat_id, now) {
                Some(members) => TaskModel::Delivering { message, members, received_at, since: now },
                None => TaskModel::Fetching { message, received_at, since: now },
            }
        },
        _ => task,
    }
}

/// The signals that go with `after_persist`.
pub open spec fn after_persist_signals(task: TaskModel, stored: bool, now: u64) -> Seq<Signal> {
    match task {
        TaskModel::Persisting { since, .. } => if stored {
            seq![Signal::PersistNanos(elapsed(since, now))]
        } else {
            Seq::empty()
        },
        _ => Seq::empty(),
    }
}

/// The task after storage has answered the question for the members. Only a
/// task that is fetching moves.
pub open spec fn after_members(task: TaskModel, fetched: Option<Seq<u128>>) -> TaskModel {
    match task {
        TaskModel::Fetching { message, received_at, since } => match fetched {
            Some(members) => TaskModel::Delivering { message, members, received_at, since },
            None => TaskModel::Done { outcome: OutcomeModel::Dropped(RecordError::CacheSource) },
        },
        _ => task,
    }
}

/// The cache after storage has answered the question for the members at
/// `now`: a fetching task stores the list it was given.
pub open spec fn snapshots_after_members(
    task: TaskModel,
    fetched: Option<Seq<u128>>,
    snapshots: Map<u128, (Seq<u128>, u64)>,
    now: u64,
) -> Map<u128, (Seq<u128>, u64)> {
    match (task, fetched) {
        (TaskModel::Fetching { message, .. }, Some(members)) => snapshots.insert(
            message.chat_id,
            (members, now),
        ),
        _ => snapshots,
    }
}

/// Whether `deliveries` is a possible result of offering a message once to
/// each of `members`: one result for each member, in order, and
/// `NotConnected` exactly for the members without an entry.
pub open spec fn fanout_of(
    connected: Set<u128>,
    members: Seq<u128>,
    deliveries: Seq<Delivery>,
) -> bool {
    &&& deliveries.len() == members.len()
    &&& forall|i: int|
        0 <= i < members.len() ==> possible_delivery(connected, members[i], #[trigger] deliveries[i])
}

/// The task after the clock was read at the end of the fanout. Only a task
/// whose fanout is over moves.
pub open spec fn finished(task: TaskModel) -> TaskModel {
    match task {
        TaskModel::Delivered { deliveries, .. } => TaskModel::Done {
            outcome: OutcomeModel::FannedOut(deliveries),
        },
        _ => task,
    }
}

/// The signals that go with `finished`.
pub open spec fn finished_signals(task: TaskModel, now: u64) -> Seq<Signal> {
    match task {
        TaskModel::Delivered { received_at, since, .. } => seq![
            Signal::FanoutNanos(elapsed(since, now)),
            Signal::TotalNanos(elapsed(received_at, now)),
        ],
        _ => Seq::empty(),
    }
}

/// What the driver of a task has to do next.
pub open spec fn requested(task: TaskModel) -> Request {
    match task {
        TaskModel::Decoding { .. } => Request::Decode,
        TaskModel::Persisting { message, .. } => Request::Persist(message),
        TaskModel::Fetching { message, .. } => Request::MembersOf(message.chat_id),
        TaskModel::Delivering { .. } => Request::Fanout,
        TaskModel::Delivered { .. } => Request::Finish,
        TaskModel::Done { .. } => Request::Nothing,
    }
}

/// Number of answers that a task still needs, at most, before it is done.
pub open spec fn steps_left(task: TaskModel) -> nat {
    match task {
        TaskModel::Decoding { .. } => 5,
        TaskModel::Persisting { .. } => 4,
        TaskModel::Fetching { .. } => 3,
        TaskModel::Delivering { .. } => 2,
        TaskModel::Delivered { .. } => 1,
        TaskModel::Done { .. } => 0,
    }
}

/// Calls `core::str::from_utf8`, which checks that the bytes are UTF-8 and,
/// if they are, hands them back as the text they encode; bytes that are not
/// UTF-8 are an error, here `None`.
#[verifier::external_body]
fn utf8_text(bytes: &[u8]) -> (text: Option<&str>)
    ensures
        match text {
            Some(text) => valid_utf8(bytes@) && text@ == decode_utf8(bytes@),
            None => !valid_utf8(bytes@),
        },
{
    match core::str::from_utf8(bytes) {
        Ok(text) => Some(text),
        Err(_) => None,
    }
}

/// Nanoseconds from `from` to `to`; zero if `to` lies before `from`.
pub fn elapsed_nanos(from: u64, to: u64) -> (nanos: u64)
    ensures
        nanos == elapsed(from, to),
{
    to.saturating_sub(from)
}

/// Offers `message` once, without waiting, to each of `members`, in order.
/// A member without an entry in the registry, or whose mailbox does not take
/// the message, is passed over: nothing is retried and nothing fails.
pub fn fan_out(registry: &ConnectionRegistry, members: &Vec<u128>, message: &PandaMessage) -> (deliveries:
    Vec<Delivery>)
    ensures
        fanout_of(registry.connected(), members@, deliveries@),
{
    let mut deliveries: Vec<Delivery> = Vec::new();
    let mut i: usize = 0;
    while i < members.len()
        invariant
            i <= members.len(),
            fanout_of(registry.connected(), members@.subrange(0, i as int), deliveries@),
        decreases members.len() - i,
    {
        let delivery = registry.try_deliver(members[i], message.clone());
        deliveries.push(delivery);
        i += 1;
    }
    proof {
        assert(members@.subrange(0, i as int) == members@);
    }
    deliveries
}

impl Task {
    /// Starts the work on a record that arrived at `now`. A payload that is
    /// UTF-8 text goes on to be decoded; a record without payload, or with one
    /// that is no text, ends here, and only this record is dropped.
    pub fn receive(payload: Option<&[u8]>, now: u64) -> (started: (Task, Vec<Signal>))
        ensures
            started.0@ == received(
                match payload {
                    Some(bytes) => Some(bytes@),
                    None => None,
                },
                now,
            ),
            started.1@ == received_signals(
                match payload {
                    Some(bytes) => Some(bytes@),
                    None => None,
                },
            ),
    {
        let failure = match payload {
            None => DecodeFailure::NoPayload,
            Some(bytes) => match utf8_text(bytes) {
                Some(text) => {
                    return (Task::Decoding { text: text.to_owned(), received_at: now }, Vec::new());
                },
                None => DecodeFailure::InvalidUtf8,
            },
        };
        let signals = vec![Signal::Rejected];
        (Task::Done { outcome: Outcome::Dropped(RecordError::Decode(failure)) }, signals)
    }

    /// The text that has to be decoded, while the task is decoding.
    pub fn text(&self) -> (text: Option<&str>)
        ensures
            match self@ {
                TaskModel::Decoding { text: expected, .. } => text is Some && text->Some_0@
                    == expected,
                _ => text is None,
            },
    {
        match self {
            Task::Decoding { text, .. } => Some(text.as_str()),
            _ => None,
        }
    }

    /// Takes the result of decoding, read off the clock at `now`: the message
    /// that the text stands for, or `None` where it stands for none. A message
    /// goes on to be persisted; without one the record is dropped. A task in
    /// another stage stays as it is.
    pub fn decoded(self, message: Option<PandaMessage>, now: u64) -> (moved: (Task, Vec<Signal>))
        ensures
            moved.0@ == after_decode(self@, message, now),
            moved.1@ == after_decode_signals(self@, message, now),
    {
        match self {
            Task::Decoding { text, received_at } => match message {
                Some(message) => {
                    let signals = vec![
                        Signal::Processed,
                        Signal::DecodeNanos(elapsed_nanos(received_at, now)),
                    ];
                    (Task::Persisting { message, received_at, since: now }, signals)
                },
                None => {
                    let signals = vec![Signal::Rejected];
                    (
                        Task::Done {
                            outcome: Outcome::Dropped(RecordError::Decode(DecodeFailure::Malformed)),
                        },
                        signals,
                    )
                },
            },
            other => (other, Vec::new()),
        }
    }

    /// What the driver has to do next.
    pub fn request(&self) -> (request: Request)
        ensures
            request == requested(self@),
    {
        match self {
            Task::Decoding { .. } => Request::Decode,
            Task::Persisting { message, .. } => Request::Persist(message.clone()),
            Task::Fetching { message, .. } => Request::MembersOf(message.chat_id),
            Task::Delivering { .. } => Request::Fanout,
            Task::Delivered { .. } => Request::Finish,
            Task::Done { .. } => Request::Nothing,
        }
    }

    /// Takes the answer of storage to the insert: `stored` says whether the
    /// message is now durable. A failed insert ends the task. After a
    /// successful one the recipients are looked up in `cache` at `now`: with a
    /// fresh snapshot the task goes straight to delivering, without one it
    /// asks storage for the members. A task in another stage stays as it is.
    pub fn persisted(self, stored: bool, cache: &MembershipCache, now: u64) -> (moved: (
        Task,
        Vec<Signal>,
    ))
        ensures
            moved.0@ == after_persist(self@, stored, cache@, now),
            moved.1@ == after_persist_signals(self@, stored, now),
    {
        match self {
            Task::Persisting { message, received_at, since } => {
                if !stored {
                    (Task::Done { outcome: Outcome::Dropped(RecordError::Persistence) }, Vec::new())
                } else {
                    let signals = vec![Signal::PersistNanos(elapsed_nanos(since, now))];
                    match cache.resolve(message.chat_id, now) {
                        Resolution::Hit(members) => (
                            Task::Delivering { message, members, received_at, since: now },
                            signals,
                        ),
                        Resolution::Miss => (
                            Task::Fetching { message, received_at, since: now },
                            signals,
                        ),
                    }
                }
            },
            other => (other, Vec::new()),
        }
    }

    /// Takes the answer of storage to the question for the members, `None`
    /// where storage failed. A list is stored in `cache` as the snapshot
    /// fetched at `now` and becomes the recipients; a failure ends the task
    /// and leaves the cache alone. A task in another stage stays as it is, and
    /// so does the cache.
    pub fn members_fetched(
        self,
        fetched: Option<Vec<u128>>,
        cache: &mut MembershipCache,
        now: u64,
    ) -> (moved: Task)
        ensures
            moved@ == after_members(
                self@,
                match fetched {
                    Some(members) => Some(members@),
                    None => None,
                },
            ),
            final(cache)@ == snapshots_after_members(
                self@,
                match fetched {
                    Some(members) => Some(members@),
                    None => None,
                },
                old(cache)@,
                now,
            ),
    {
        match self {
            Task::Fetching { message, received_at, since } => match fetched {
                Some(members) => {
                    let kept = copy_of(&members);
                    cache.refresh(message.chat_id, kept, now);
                    Task::Delivering { message, members, received_at, since }
                },
                None => Task::Done { outcome: Outcome::Dropped(RecordError::CacheSource) },
            },
            other => other,
        }
    }

    /// Offers the message to each recipient through `registry`. A task in
    /// another stage stays as it is.
    pub fn deliver(self, registry: &ConnectionRegistry) -> (moved: Task)
        ensures
            match self@ {
                TaskModel::Delivering { message, members, received_at, since } => {
                    &&& moved@ is Delivered
                    &&& steps_left(moved@) < steps_left(self@)
                    &&& moved@->Delivered_received_at == received_at
                    &&& moved@->Delivered_since == since
                    &&& fanout_of(registry.connected(), members, moved@->Delivered_deliveries)
                },
                _ => moved@ == self@,
            },
    {
        match self {
            Task::Delivering { message, members, received_at, since } => {
                let deliveries = fan_out(registry, &members, &message);
                Task::Delivered { deliveries, received_at, since }
            },
            other => other,
        }
    }

    /// Ends a task whose fanout is over, with the clock read at `now`. A task
    /// in another stage stays as it is.
    pub fn finish(self, now: u64) -> (moved: (Task, Vec<Signal>))
        ensures
            moved.0@ == finished(self@),
            moved.1@ == finished_signals(self@, now),
    {
        match self {
            Task::Delivered { deliveries, received_at, since } => {
                let signals = vec![
                    Signal::FanoutNanos(elapsed_nanos(since, now)),
                    Signal::TotalNanos(elapsed_nanos(received_at, now)),
                ];
                (Task::Done { outcome: Outcome::FannedOut(deliveries) }, signals)
            },
            other => (other, Vec::new()),
        }
    }

    /// Whether the work on the record is over.
    pub fn is_done(&self) -> (done: bool)
        ensures
            done == (self@ is Done),
    {
        match self {
            Task::Done { .. } => true,
            _ => false,
        }
    }
}

/// A copy of a list of identities.
pub fn copy_of(list: &Vec<u128>) -> (copy: Vec<u128>)
    ensures
        copy@ == list@,
{
    let mut copy: Vec<u128> = Vec::new();
    let mut i: usize = 0;
    while i < list.len()
        invariant
            i <= list.len(),
            copy@ == list@.subrange(0, i as int),
        decreases list.len() - i,
    {
        copy.push(list[i]);
        i += 1;
    }
    proof {
        assert(list@.subrange(0, i as int) == list@);
    }
    copy
}

/// A record whose payload decodes to a message asks storage, before anything
/// else, to insert exactly that message.
pub proof fn decoded_record_asks_for_its_insert(
    payload: Seq<u8>,
    message: PandaMessage,
    received_at: u64,
    now: u64,
)
    requires
        valid_utf8(payload),
    ensures
        after_decode(received(Some(payload), received_at), Some(message), now) == (
        TaskModel::Persisting { message, received_at, since: now }),
        requested(after_decode(received(Some(payload), received_at), Some(message), now))
            == Request::Persist(message),
{
}

/// Every answer that a task asked for brings it closer to its end, whatever
/// the answer is: a record is done after five answers at most, and asks for
/// nothing exactly when it is done.
pub proof fn answered_task_makes_progress(
    task: TaskModel,
    message: Option<PandaMessage>,
    stored: bool,
    fetched: Option<Seq<u128>>,
    snapshots: Map<u128, (Seq<u128>, u64)>,
    now: u64,
)
    ensures
        task is Decoding ==> steps_left(after_decode(task, message, now)) < steps_left(task),
        task is Persisting ==> steps_left(after_persist(task, stored, snapshots, now))
            < steps_left(task),
        task is Fetching ==> steps_left(after_members(task, fetched)) < steps_left(task),
        task is Delivered ==> steps_left(finished(task)) < steps_left(task),
        steps_left(task) <= 5,
        requested(task) == Request::Nothing <==> steps_left(task) == 0,
{
}

/// A task that is done stays done: no event moves it, it asks for nothing,
/// and it leaves the cache as it was.
pub proof fn done_task_stays_done(
    outcome: OutcomeModel,
    message: Option<PandaMessage>,
    stored: bool,
    fetched: Option<Seq<u128>>,
    snapshots: Map<u128, (Seq<u128>, u64)>,
    now: u64,
)
    ensures
        requested(TaskModel::Done { outcome }) == Request::Nothing,
        after_decode(TaskModel::Done { outcome }, message, now) == (TaskModel::Done { outcome }),
        after_persist(TaskModel::Done { outcome }, stored, snapshots, now) == (TaskModel::Done {
            outcome,
        }),
        after_members(TaskModel::Done { outcome }, fetched) == (TaskModel::Done { outcome }),
        snapshots_after_members(TaskModel::Done { outcome }, fetched, snapshots, now) == snapshots,
        finished(TaskModel::Done { outcome }) == (TaskModel::Done { outcome }),
{
}

/// A record that cannot be decoded is dropped by itself. Whether it has no
/// payload, one that is no text, or text that is no message: its task is done
/// with a decode error before anything was asked of storage or of the
/// registry.
pub proof fn undecodable_record_is_dropped_alone(payload: Option<Seq<u8>>, received_at: u64, now: u64)
    ensures
        match payload_failure(payload) {
            Some(failure) => received(payload, received_at) == (TaskModel::Done {
                outcome: OutcomeModel::Dropped(RecordError::Decode(failure)),
            }),
            None => requested(received(payload, received_at)) == Request::Decode && after_decode(
                received(payload, received_at),
                None,
                now,
            ) == (TaskModel::Done {
                outcome: OutcomeModel::Dropped(RecordError::Decode(DecodeFailure::Malformed)),
            }),
        },
{
}

/// Whatever became of earlier records, and whatever the cache holds, a record
/// that decodes to a message and whose insert succeeds goes on to the fanout
/// of that message: to the recipients of a fresh snapshot where there is one,
/// else to the members that storage returns.
pub proof fn stored_record_reaches_fanout(
    payload: Seq<u8>,
    message: PandaMessage,
    received_at: u64,
    decoded_at: u64,
    stored_at: u64,
    snapshots: Map<u128, (Seq<u128>, u64)>,
    fetched: Seq<u128>,
)
    requires
        valid_utf8(payload),
    ensures
        after_members(
            after_persist(
                after_decode(received(Some(payload), received_at), Some(message), decoded_at),
                true,
                snapshots,
                stored_at,
            ),
            Some(fetched),
        ) == (TaskModel::Delivering {
            message,
            members: match fresh_recipients(snapshots, message.chat_id, stored_at) {
                Some(members) => members,
                None => fetched,
            },
            received_at,
            since: stored_at,
        }),
{
}

/// A record whose insert fails ends there: no fanout is attempted and the
/// members are not asked for.
pub proof fn failed_insert_ends_record(
    message: PandaMessage,
    received_at: u64,
    since: u64,
    snapshots: Map<u128, (Seq<u128>, u64)>,
    now: u64,
)
    ensures
        after_persist(
            TaskModel::Persisting { message, received_at, since },
            false,
            snapshots,
            now,
        ) == (TaskModel::Done { outcome: OutcomeModel::Dropped(RecordError::Persistence) }),
        after_persist_signals(TaskModel::Persisting { message, received_at, since }, false, now)
            == Seq::<Signal>::empty(),
{
}

/// A record whose members cannot be fetched ends there, and the cache keeps
/// what it held.
pub proof fn failed_fetch_ends_record(
    message: PandaMessage,
    received_at: u64,
    since: u64,
    snapshots: Map<u128, (Seq<u128>, u64)>,
    now: u64,
)
    ensures
        after_members(TaskModel::Fetching { message, received_at, since }, None) == (
        TaskModel::Done { outcome: OutcomeModel::Dropped(RecordError::CacheSource) }),
        snapshots_after_members(
            TaskModel::Fetching { message, received_at, since },
            None,
            snapshots,
            now,
        ) == snapshots,
{
}

/// With a fresh snapshot in the cache a stored record needs no second
/// question to storage: it goes straight to the fanout.
pub proof fn fresh_snapshot_spares_storage(
    message: PandaMessage,
    received_at: u64,
    since: u64,
    snapshots: Map<u128, (Seq<u128>, u64)>,
    now: u64,
)
    requires
        fresh_recipients(snapshots, message.chat_id, now) is Some,
    ensures
        requested(
            after_persist(
                TaskModel::Persisting { message, received_at, since },
                true,
                snapshots,
                now,
            ),
        ) == Request::Fanout,
{
}

/// A fanout is over after one attempt for each recipient, whatever the
/// attempts came to: a recipient without a connection is `NotConnected`, and
/// the record still ends as fanned out.
pub proof fn missed_recipients_are_no_errors(
    connected: Set<u128>,
    members: Seq<u128>,
    deliveries: Seq<Delivery>,
    received_at: u64,
    since: u64,
    recipient: int,
)
    requires
        fanout_of(connected, members, deliveries),
        0 <= recipient < members.len(),
    ensures
        !connected.contains(members[recipient]) ==> deliveries[recipient]
            == Delivery::NotConnected,
        connected.contains(members[recipient]) ==> deliveries[recipient]
            != Delivery::NotConnected,
        finished(TaskModel::Delivered { deliveries, received_at, since }) == (TaskModel::Done {
            outcome: OutcomeModel::FannedOut(deliveries),
        }),
{
}

} // verus!
