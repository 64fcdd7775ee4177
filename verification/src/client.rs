//! The client's bookkeeping: the current connection and its generation, the
//! remote handle each declared object is bound to, the reconnection back-off,
//! the queries a queryable still has to answer, and what a background worker
//! does with the outcome of each call.

use std::collections::HashMap;
use vstd::prelude::*;
use vstd::std_specs::hash::*;

use crate::args::{QueryReplyArgs, QueryReplyDeleteArgs, QueryReplyErrArgs};
use crate::connect::ClientError;
use crate::registry::HandleCounter;
use crate::queue::{lemma_pending_is_outstanding, lemma_wf_bounds, DropOldestQueue};
use crate::status::{
    is_disconnect_status, is_stale_status, spec_is_disconnect, spec_is_stale, status, GrpcStatus,
    StatusCode,
};

verus! {

broadcast use group_hash_axioms;

pub const SEND_QUEUE_CAPACITY: usize = 256;

pub const RECV_QUEUE_CAPACITY: usize = 256;

/// Between two heartbeats; shorter than the server's client lease.
pub const HEARTBEAT_INTERVAL_MS: u64 = 2000;

pub const RECONNECT_DELAY_INITIAL_MS: u64 = 200;

pub const RECONNECT_DELAY_MAX_MS: u64 = 2000;

pub const INITIAL_CONNECT_TIMEOUT_MS: u64 = 200;

pub const STREAM_READY_TIMEOUT_MS: u64 = 500;

pub const DISCONNECTED_WARNING: &'static str =
    "zenoh-grpc-client-rs: disconnected from zenoh gRPC server, reconnecting in background";

/// The wait before the next reconnection attempt: twice the last wait, but
/// never more than the maximum.
pub open spec fn spec_next_reconnect_delay(delay_ms: u64) -> u64 {
    if 2 * delay_ms > RECONNECT_DELAY_MAX_MS {
        RECONNECT_DELAY_MAX_MS
    } else {
        (2 * delay_ms) as u64
    }
}

pub fn next_reconnect_delay_ms(delay_ms: u64) -> (r: u64)
    ensures
        r == spec_next_reconnect_delay(delay_ms),
{
    if delay_ms > RECONNECT_DELAY_MAX_MS / 2 {
        RECONNECT_DELAY_MAX_MS
    } else {
        let d = delay_ms * 2;
        if d > RECONNECT_DELAY_MAX_MS {
            RECONNECT_DELAY_MAX_MS
        } else {
            d
        }
    }
}

/// The waits after `n` failed attempts in a row, starting from the initial
/// wait.
pub open spec fn backoff(n: nat) -> u64
    decreases n,
{
    if n == 0 {
        RECONNECT_DELAY_INITIAL_MS
    } else {
        spec_next_reconnect_delay(backoff((n - 1) as nat))
    }
}

/// The waits between reconnection attempts never fall below the initial
/// wait nor exceed the maximum, never shrink, and reach the maximum after
/// four failures.
pub proof fn lemma_backoff_bounded(n: nat)
    ensures
        RECONNECT_DELAY_INITIAL_MS <= backoff(n) <= RECONNECT_DELAY_MAX_MS,
        backoff(n) <= backoff(n + 1),
        n >= 4 ==> backoff(n) == RECONNECT_DELAY_MAX_MS,
    decreases n,
{
    if n > 0 {
        lemma_backoff_bounded((n - 1) as nat);
    }
    reveal_with_fuel(backoff, 5);
}

/// A lowercase hexadecimal digit.
pub open spec fn is_lower_hex(c: char) -> bool {
    ('0' <= c && c <= '9') || ('a' <= c && c <= 'f')
}

/// The hyphenated lowercase text of a random (version 4) UUID: five groups
/// of 8, 4, 4, 4 and 12 hex digits, the third group starting with the
/// version digit `4` and the fourth with a variant digit `8` to `b`.
pub open spec fn is_v4_uuid_text(t: Seq<char>) -> bool {
    &&& t.len() == 36
    &&& forall|i: int|
        0 <= i < 36 ==> #[trigger] t[i] == '-' <==> (i == 8 || i == 13 || i == 18 || i == 23)
    &&& forall|i: int|
        0 <= i < 36 && !(i == 8 || i == 13 || i == 18 || i == 23) ==> is_lower_hex(
            #[trigger] t[i],
        )
    &&& t[14] == '4'
    &&& (t[19] == '8' || t[19] == '9' || t[19] == 'a' || t[19] == 'b')
}

/// Calls `uuid::Uuid::new_v4()` and displays the result. The value is
/// random; what holds of every outcome is that it is written as the
/// hyphenated lowercase text of a version-4 UUID. `new_v4` panics when the
/// system's random source fails, which no argument can rule out.
#[verifier::external_body]
fn new_client_id() -> (id: String)
    ensures
        is_v4_uuid_text(id@),
{
    uuid::Uuid::new_v4().to_string()
}

/// What a session tells the server about itself, and the local handles it
/// gives the objects it declares: 1, 2, 3, ... in turn.
pub struct SessionIds {
    client_id: String,
    local_handles: HandleCounter,
}

impl SessionIds {
    /// The id the session sends with every request.
    pub closed spec fn client_id(&self) -> Seq<char> {
        self.client_id@
    }

    /// The local handle the next declared object gets.
    pub closed spec fn next_local_handle(&self) -> u64 {
        self.local_handles.next()
    }

    /// A fresh random client id; local handles start at 1.
    pub fn new() -> (s: Self)
        ensures
            is_v4_uuid_text(s.client_id()),
            s.next_local_handle() == 1,
    {
        SessionIds { client_id: new_client_id(), local_handles: HandleCounter::new() }
    }

    /// A copy of the client id, for a request.
    pub fn client_id_owned(&self) -> (id: String)
        ensures
            id@ == self.client_id(),
    {
        self.client_id.clone()
    }

    /// The local handle of a newly declared object.
    pub fn alloc_local_handle(&mut self) -> (h: u64)
        ensures
            h == old(self).next_local_handle(),
            final(self).next_local_handle() == vstd::wrapping::u64_specs::wrapping_add(
                old(self).next_local_handle(),
                1,
            ),
            final(self).client_id() == old(self).client_id(),
    {
        self.local_handles.alloc_handle()
    }
}

/// The connection a client currently has, if any, and its generation: the
/// number of connections made so far.
pub struct ConnectionState<C> {
    channel: Option<C>,
    generation: u64,
}

impl<C> ConnectionState<C> {
    pub closed spec fn channel(&self) -> Option<C> {
        self.channel
    }

    pub closed spec fn generation(&self) -> u64 {
        self.generation
    }

    /// Not connected yet.
    pub fn new() -> (s: Self)
        ensures
            s.channel() is None,
            s.generation() == 0,
    {
        ConnectionState { channel: None, generation: 0 }
    }

    /// The current connection and its generation.
    pub fn current(&self) -> (r: Option<(&C, u64)>)
        ensures
            match self.channel() {
                Some(c) => r == Some((&c, self.generation())),
                None => r is None,
            },
    {
        match &self.channel {
            Some(c) => Some((c, self.generation)),
            None => None,
        }
    }

    /// Records a new connection, which starts the next generation.
    pub fn set_connected(&mut self, channel: C) -> (generation: u64)
        requires
            old(self).generation() < u64::MAX,
        ensures
            generation == old(self).generation() + 1,
            final(self).generation() == generation,
            final(self).channel() == Some(channel),
    {
        self.generation = self.generation + 1;
        self.channel = Some(channel);
        self.generation
    }

    /// Drops the connection of `generation` when it is still the current
    /// one; a failure seen on an older connection leaves a newer one alone.
    /// Returns whether the connection was dropped.
    pub fn mark_disconnected(&mut self, generation: u64) -> (dropped: bool)
        ensures
            dropped == (old(self).generation() == generation && old(self).channel() is Some),
            final(self).generation() == old(self).generation(),
            final(self).channel() == after_failure(
                old(self).channel(),
                old(self).generation(),
                generation,
            ),
    {
        if self.generation == generation && self.channel.is_some() {
            self.channel = None;
            true
        } else {
            false
        }
    }
}

/// The connection left after a failure seen on the connection of
/// generation `seen`, when the current one has generation `current`.
pub open spec fn after_failure<C>(channel: Option<C>, current: u64, seen: u64) -> Option<C> {
    if current == seen {
        None
    } else {
        channel
    }
}

/// A failure seen on any connection made before the current one leaves the
/// current connection in place: after `set_connected` starts generation
/// `g + 1`, no failure of generations up to `g` drops it.
pub proof fn lemma_old_failures_keep_new_connection<C>(c: C, g: u64, seen: u64)
    requires
        g < u64::MAX,
        seen <= g,
    ensures
        after_failure(Some(c), (g + 1) as u64, seen) == Some(c),
{
}

/// Remembers whether the "disconnected" warning was printed since the last
/// connection, so that it is printed once per outage.
pub struct WarningLatch {
    issued: bool,
}

impl WarningLatch {
    pub closed spec fn issued(&self) -> bool {
        self.issued
    }

    pub fn new() -> (l: Self)
        ensures
            !l.issued(),
    {
        WarningLatch { issued: false }
    }

    /// Whether to print the warning now: only the first time since the last
    /// reconnection.
    pub fn should_warn(&mut self) -> (warn: bool)
        ensures
            warn == !old(self).issued(),
            final(self).issued(),
    {
        let warn = !self.issued;
        self.issued = true;
        warn
    }

    /// Whether to announce a reconnection: only after a warning.
    pub fn reconnected(&mut self) -> (announce: bool)
        ensures
            announce == old(self).issued(),
            !final(self).issued(),
    {
        let announce = self.issued;
        self.issued = false;
        announce
    }
}

/// Two warnings in a row without a reconnection in between: the second one
/// is not printed.
pub proof fn lemma_warn_once(l0: WarningLatch, l1: WarningLatch, w1: bool, l2: WarningLatch, w2: bool)
    requires
        w1 == !l0.issued(),
        l1.issued(),
        w2 == !l1.issued(),
        l2.issued(),
    ensures
        !w2,
{
}

/// The handle that the server gave a declared object, and the connection
/// generation it was obtained on.
pub struct RemoteBinding {
    handle: Option<u64>,
    generation: u64,
}

impl RemoteBinding {
    pub closed spec fn handle(&self) -> Option<u64> {
        self.handle
    }

    pub closed spec fn generation(&self) -> u64 {
        self.generation
    }

    /// Not declared on the server yet.
    pub fn new() -> (b: Self)
        ensures
            b.handle() is None,
            b.generation() == 0,
    {
        RemoteBinding { handle: None, generation: 0 }
    }

    /// The handle to use, if the object is declared on the server.
    pub fn cached(&self) -> (h: Option<u64>)
        ensures
            h == self.handle(),
    {
        self.handle
    }

    /// Records the handle that a declaration on `generation` returned.
    pub fn bind(&mut self, handle: u64, generation: u64)
        ensures
            final(self).handle() == Some(handle),
            final(self).generation() == generation,
    {
        self.handle = Some(handle);
        self.generation = generation;
    }

    /// Forgets `handle` after the server disowned it, unless the object was
    /// bound to another handle since.
    pub fn invalidate(&mut self, handle: u64)
        ensures
            final(self).generation() == old(self).generation(),
            old(self).handle() == Some(handle) ==> final(self).handle() is None,
            old(self).handle() != Some(handle) ==> final(self).handle() == old(self).handle(),
    {
        if self.handle == Some(handle) {
            self.handle = None;
        }
    }

    /// Takes the handle out, for an undeclaration.
    pub fn take(&mut self) -> (h: Option<u64>)
        ensures
            h == old(self).handle(),
            final(self).handle() is None,
            final(self).generation() == old(self).generation(),
    {
        let h = self.handle;
        self.handle = None;
        h
    }
}

/// How the application consumes a subscriber's or a queryable's events.
#[derive(Debug, Clone, Copy, PartialEq, Eq, Structural)]
pub enum ConsumerMode {
    /// The application receives them.
    Pull,
    /// A callback is handed each of them.
    Callback,
}

/// The mode of an object declared with or without a callback.
pub fn consumer_mode(has_callback: bool) -> (m: ConsumerMode)
    ensures
        m == (if has_callback {
            ConsumerMode::Callback
        } else {
            ConsumerMode::Pull
        }),
{
    if has_callback {
        ConsumerMode::Callback
    } else {
        ConsumerMode::Pull
    }
}

/// Receiving is refused on an object whose events go to a callback.
pub fn ensure_pull_mode(mode: ConsumerMode, kind: &'static str) -> (r: Result<(), ClientError>)
    ensures
        mode == ConsumerMode::Pull ==> r is Ok,
        mode == ConsumerMode::Callback ==> (r matches Err(ClientError::CallbackDriven { kind: k })
            && k == kind),
{
    match mode {
        ConsumerMode::Callback => Err(ClientError::CallbackDriven { kind }),
        ConsumerMode::Pull => Ok(()),
    }
}

/// A query as the server knows it: the queryable handle it came through
/// and the id the server gave it.
#[derive(Debug, Clone, Copy, PartialEq, Eq, Structural)]
pub struct QueryIdentity {
    pub remote_handle: u64,
    pub query_id: u64,
}

/// A reply, error reply, delete reply or end of answers for one query, on
/// its way to the server.
#[derive(Debug, Clone)]
pub enum QueryableCommand {
    Reply { identity: QueryIdentity, args: QueryReplyArgs },
    ReplyErr { identity: QueryIdentity, args: QueryReplyErrArgs },
    ReplyDelete { identity: QueryIdentity, args: QueryReplyDeleteArgs },
    Finish { identity: QueryIdentity },
}

impl QueryableCommand {
    pub open spec fn spec_identity(self) -> QueryIdentity {
        match self {
            QueryableCommand::Reply { identity, .. } => identity,
            QueryableCommand::ReplyErr { identity, .. } => identity,
            QueryableCommand::ReplyDelete { identity, .. } => identity,
            QueryableCommand::Finish { identity } => identity,
        }
    }

    /// The query the command is for.
    pub fn identity(&self) -> (i: QueryIdentity)
        ensures
            i == self.spec_identity(),
            self matches QueryableCommand::Reply { identity, .. } ==> i == identity,
            self matches QueryableCommand::ReplyErr { identity, .. } ==> i == identity,
            self matches QueryableCommand::ReplyDelete { identity, .. } ==> i == identity,
            self matches QueryableCommand::Finish { identity } ==> i == identity,
    {
        match self {
            QueryableCommand::Reply { identity, .. } => *identity,
            QueryableCommand::ReplyErr { identity, .. } => *identity,
            QueryableCommand::ReplyDelete { identity, .. } => *identity,
            QueryableCommand::Finish { identity } => *identity,
        }
    }
}

/// The queries a queryable has received and may still answer, by query
/// id, and the queries the server no longer knows, whose pending answers are
/// dropped.
pub struct QueryBook {
    active: HashMap<u64, QueryIdentity>,
    stale: Vec<QueryIdentity>,
}

/// The status a reply for an unknown query id is refused with.
pub open spec fn query_not_found(e: ClientError) -> bool {
    e matches ClientError::Status(s) && s.code == StatusCode::NotFound && s.message@
        == "query not found"@
}

impl QueryBook {
    pub closed spec fn active(&self) -> Map<u64, QueryIdentity> {
        self.active@
    }

    pub closed spec fn stale(&self) -> Seq<QueryIdentity> {
        self.stale@
    }

    /// No stale query is listed twice.
    pub closed spec fn wf(&self) -> bool {
        self.stale@.no_duplicates()
    }

    pub fn new() -> (b: Self)
        ensures
            b.wf(),
            b.active() == Map::<u64, QueryIdentity>::empty(),
            b.stale() == Seq::<QueryIdentity>::empty(),
    {
        QueryBook { active: HashMap::new(), stale: Vec::new() }
    }

    /// Records a query that was handed to the application.
    pub fn remember(&mut self, identity: QueryIdentity)
        requires
            old(self).wf(),
        ensures
            final(self).wf(),
            final(self).active() == old(self).active().insert(identity.query_id, identity),
            final(self).stale() == old(self).stale(),
    {
        let _ = self.active.insert(identity.query_id, identity);
    }

    /// Forgets a query once its end of answers reached the server.
    pub fn forget(&mut self, query_id: u64)
        requires
            old(self).wf(),
        ensures
            final(self).wf(),
            final(self).active() == old(self).active().remove(query_id),
            final(self).stale() == old(self).stale(),
    {
        let _ = self.active.remove(&query_id);
    }

    /// The identity of an active query.
    pub fn identity_of(&self, query_id: u64) -> (r: Option<QueryIdentity>)
        ensures
            self.active().contains_key(query_id) ==> r == Some(self.active()[query_id]),
            !self.active().contains_key(query_id) ==> r is None,
    {
        match self.active.get(&query_id) {
            Some(i) => Some(*i),
            None => None,
        }
    }

    /// Whether the server no longer knows the query.
    pub fn is_stale(&self, identity: QueryIdentity) -> (r: bool)
        ensures
            r == self.stale().contains(identity),
    {
        let n = self.stale.len();
        let mut i: usize = 0;
        while i < n
            invariant
                n == self.stale@.len(),
                i <= n,
                forall|j: int| 0 <= j < i ==> self.stale@[j] != identity,
            decreases n - i,
        {
            if self.stale[i] == identity {
                return true;
            }
            i = i + 1;
        }
        false
    }

    /// Records that the server no longer knows the query: it stops being
    /// active and its pending answers are dropped. Returns whether it was not
    /// known as stale before.
    pub fn mark_stale(&mut self, identity: QueryIdentity) -> (newly: bool)
        requires
            old(self).wf(),
        ensures
            final(self).wf(),
            final(self).active() == old(self).active().remove(identity.query_id),
            newly == !old(self).stale().contains(identity),
            newly ==> final(self).stale() == old(self).stale().push(identity),
            !newly ==> final(self).stale() == old(self).stale(),
    {
        let _ = self.active.remove(&identity.query_id);
        if self.is_stale(identity) {
            false
        } else {
            self.stale.push(identity);
            true
        }
    }

    fn lookup(&self, query_id: u64) -> (r: Result<QueryIdentity, ClientError>)
        ensures
            self.active().contains_key(query_id) ==> r == Ok::<QueryIdentity, ClientError>(
                self.active()[query_id],
            ),
            !self.active().contains_key(query_id) ==> (r matches Err(e) && query_not_found(e)),
    {
        match self.identity_of(query_id) {
            Some(i) => Ok(i),
            None => Err(ClientError::Status(status(StatusCode::NotFound, "query not found"))),
        }
    }

    /// The command that sends a reply for an active query.
    pub fn reply_command(&self, args: QueryReplyArgs) -> (r: Result<QueryableCommand, ClientError>)
        ensures
            self.active().contains_key(args.query_id) ==> (r matches Ok(
                QueryableCommand::Reply { identity, args: a },
            ) && identity == self.active()[args.query_id] && a == args),
            !self.active().contains_key(args.query_id) ==> (r matches Err(e) && query_not_found(
                e,
            )),
    {
        match self.lookup(args.query_id) {
            Ok(identity) => Ok(QueryableCommand::Reply { identity, args }),
            Err(e) => Err(e),
        }
    }

    /// The command that sends an error reply for an active query.
    pub fn reply_err_command(&self, args: QueryReplyErrArgs) -> (r: Result<
        QueryableCommand,
        ClientError,
    >)
        ensures
            self.active().contains_key(args.query_id) ==> (r matches Ok(
                QueryableCommand::ReplyErr { identity, args: a },
            ) && identity == self.active()[args.query_id] && a == args),
            !self.active().contains_key(args.query_id) ==> (r matches Err(e) && query_not_found(
                e,
            )),
    {
        match self.lookup(args.query_id) {
            Ok(identity) => Ok(QueryableCommand::ReplyErr { identity, args }),
            Err(e) => Err(e),
        }
    }

    /// The command that sends a delete reply for an active query.
    pub fn reply_delete_command(&self, args: QueryReplyDeleteArgs) -> (r: Result<
        QueryableCommand,
        ClientError,
    >)
        ensures
            self.active().contains_key(args.query_id) ==> (r matches Ok(
                QueryableCommand::ReplyDelete { identity, args: a },
            ) && identity == self.active()[args.query_id] && a == args),
            !self.active().contains_key(args.query_id) ==> (r matches Err(e) && query_not_found(
                e,
            )),
    {
        match self.lookup(args.query_id) {
            Ok(identity) => Ok(QueryableCommand::ReplyDelete { identity, args }),
            Err(e) => Err(e),
        }
    }
}

/// Whether the end of answers of a query was already sent; it is sent once,
/// by an explicit finish or when the query is dropped.
pub struct FinishLatch {
    finished: bool,
}

impl FinishLatch {
    pub closed spec fn finished(&self) -> bool {
        self.finished
    }

    pub fn new() -> (l: Self)
        ensures
            !l.finished(),
    {
        FinishLatch { finished: false }
    }

    /// Whether this call is the one that finishes the query.
    pub fn mark_finished(&mut self) -> (first: bool)
        ensures
            first == !old(self).finished(),
            final(self).finished(),
    {
        let first = !self.finished;
        self.finished = true;
        first
    }
}

/// Which background worker runs a command.
#[derive(Debug, Clone, Copy, PartialEq, Eq, Structural)]
pub enum WorkerKind {
    /// Session-level puts and deletes.
    Session,
    /// Puts and deletes through a declared publisher.
    Publisher,
    /// Replies and ends of answers of a queryable.
    Queryable,
}

/// What a worker does after a call for a queued command returned.
#[derive(Debug, Clone, Copy, PartialEq, Eq, Structural)]
pub enum CommandStep {
    /// The command is done.
    Done,
    /// The connection was lost: mark it so and send the command again once
    /// reconnected.
    RetryAfterReconnect,
    /// The server disowned the publisher's handle: forget it and send the
    /// command again, which declares the publisher anew.
    RetryAfterRedeclare,
    /// The server no longer knows the query: mark it stale and drop the
    /// command with the query's other pending answers.
    DropStaleQuery,
    /// The call failed for another reason: report it and drop the command.
    DropWithWarning,
}

pub open spec fn spec_command_step(kind: WorkerKind, outcome: Result<(), StatusCode>) -> CommandStep {
    match outcome {
        Ok(()) => CommandStep::Done,
        Err(code) => if spec_is_disconnect(code) {
            CommandStep::RetryAfterReconnect
        } else if spec_is_stale(code) && kind == WorkerKind::Publisher {
            CommandStep::RetryAfterRedeclare
        } else if spec_is_stale(code) && kind == WorkerKind::Queryable {
            CommandStep::DropStaleQuery
        } else {
            CommandStep::DropWithWarning
        },
    }
}

/// The code of a call's outcome.
pub open spec fn outcome_code(r: Result<(), GrpcStatus>) -> Result<(), StatusCode> {
    match r {
        Ok(()) => Ok(()),
        Err(s) => Err(s.code),
    }
}

/// Decides what a worker of `kind` does after sending one command.
pub fn command_step(kind: WorkerKind, outcome: &Result<(), GrpcStatus>) -> (step: CommandStep)
    ensures
        step == spec_command_step(kind, outcome_code(*outcome)),
        outcome is Ok <==> step == CommandStep::Done,
        step == CommandStep::RetryAfterReconnect <==> (outcome matches Err(s) && (s.code
            == StatusCode::Unavailable || s.code == StatusCode::Unknown || s.code
            == StatusCode::Cancelled)),
{
    match outcome {
        Ok(()) => CommandStep::Done,
        Err(s) => {
            if is_disconnect_status(s) {
                CommandStep::RetryAfterReconnect
            } else if is_stale_status(s) && kind == WorkerKind::Publisher {
                CommandStep::RetryAfterRedeclare
            } else if is_stale_status(s) && kind == WorkerKind::Queryable {
                CommandStep::DropStaleQuery
            } else {
                CommandStep::DropWithWarning
            }
        },
    }
}

/// A command is sent again only after a lost connection or, for a
/// publisher, after the server disowned its handle; every other outcome
/// ends it, so the queue's pending count drops by one for it.
pub proof fn lemma_command_retries(kind: WorkerKind, outcome: Result<(), StatusCode>)
    ensures
        (spec_command_step(kind, outcome) == CommandStep::RetryAfterReconnect
            || spec_command_step(kind, outcome) == CommandStep::RetryAfterRedeclare) <==> (
        outcome matches Err(c) && (spec_is_disconnect(c) || (spec_is_stale(c) && kind
            == WorkerKind::Publisher))),
        kind == WorkerKind::Session ==> spec_command_step(kind, outcome)
            != CommandStep::RetryAfterRedeclare && spec_command_step(kind, outcome)
            != CommandStep::DropStaleQuery,
{
}

/// The three ways a call can fail, as far as the client cares.
#[derive(Debug, Clone, Copy, PartialEq, Eq, Structural)]
pub enum FailureClass {
    /// The connection was lost.
    Disconnected,
    /// The server no longer knows the handle or query.
    Stale,
    /// Any other failure.
    Other,
}

pub open spec fn spec_classify(code: StatusCode) -> FailureClass {
    if spec_is_disconnect(code) {
        FailureClass::Disconnected
    } else if spec_is_stale(code) {
        FailureClass::Stale
    } else {
        FailureClass::Other
    }
}

pub fn classify_failure(s: &GrpcStatus) -> (c: FailureClass)
    ensures
        c == spec_classify(s.code),
{
    if is_disconnect_status(s) {
        FailureClass::Disconnected
    } else if is_stale_status(s) {
        FailureClass::Stale
    } else {
        FailureClass::Other
    }
}

/// The phases of the loop that keeps a subscriber's or queryable's event
/// stream open.
#[derive(Debug, Clone, Copy, PartialEq, Eq, Structural)]
pub enum EventPhase {
    /// Declaring the object on the server.
    Declare,
    /// Opening the event stream of the declared object.
    Open,
    /// Reading the next event of the open stream.
    Read,
}

/// What the event loop does next.
#[derive(Debug, Clone, Copy, PartialEq, Eq, Structural)]
pub enum EventStep {
    /// Go on to the next phase (or, while reading, hand the event over).
    Proceed,
    /// The stream ended cleanly: the server went away, so mark the
    /// connection lost and start over once reconnected.
    EndOfStream,
    /// Mark the connection lost and start over once reconnected.
    RetryAfterReconnect,
    /// Forget the handle and start over, which declares the object anew.
    RetryAfterRedeclare,
    /// Report the failure, wait the initial reconnection delay, and start
    /// over.
    RetryLater,
    /// Report the failure and start over at once.
    Restart,
}

/// The outcome of one step of the event loop: a call that succeeded (with,
/// while reading, whether an event came or the stream ended) or failed.
pub open spec fn spec_event_step(phase: EventPhase, outcome: Result<bool, StatusCode>) -> EventStep {
    match outcome {
        Ok(more) => if phase == EventPhase::Read && !more {
            EventStep::EndOfStream
        } else {
            EventStep::Proceed
        },
        Err(code) => match spec_classify(code) {
            FailureClass::Disconnected => EventStep::RetryAfterReconnect,
            FailureClass::Stale => if phase == EventPhase::Declare {
                EventStep::RetryLater
            } else {
                EventStep::RetryAfterRedeclare
            },
            FailureClass::Other => if phase == EventPhase::Read {
                EventStep::Restart
            } else {
                EventStep::RetryLater
            },
        },
    }
}

pub open spec fn event_outcome_code(r: Result<bool, GrpcStatus>) -> Result<bool, StatusCode> {
    match r {
        Ok(b) => Ok(b),
        Err(s) => Err(s.code),
    }
}

/// Decides what the event loop does after a call of the given phase; for
/// `Read`, `Ok(true)` is an event and `Ok(false)` the end of the stream.
pub fn event_step(phase: EventPhase, outcome: &Result<bool, GrpcStatus>) -> (step: EventStep)
    ensures
        step == spec_event_step(phase, event_outcome_code(*outcome)),
        outcome matches Err(s) && phase != EventPhase::Declare && (s.code == StatusCode::NotFound
            || s.code == StatusCode::PermissionDenied) ==> step == EventStep::RetryAfterRedeclare,
{
    match outcome {
        Ok(more) => {
            if phase == EventPhase::Read && !*more {
                EventStep::EndOfStream
            } else {
                EventStep::Proceed
            }
        },
        Err(s) => match classify_failure(s) {
            FailureClass::Disconnected => EventStep::RetryAfterReconnect,
            FailureClass::Stale => {
                if phase == EventPhase::Declare {
                    EventStep::RetryLater
                } else {
                    EventStep::RetryAfterRedeclare
                }
            },
            FailureClass::Other => {
                if phase == EventPhase::Read {
                    EventStep::Restart
                } else {
                    EventStep::RetryLater
                }
            },
        },
    }
}

/// The event loop never gives up: every failure leads back to declaring
/// and opening the stream, and only a lost connection or a clean end of
/// the stream marks the connection lost.
pub proof fn lemma_event_loop_retries(phase: EventPhase, code: StatusCode, more: bool)
    ensures
        spec_event_step(phase, Err(code)) != EventStep::Proceed,
        spec_event_step(phase, Err(code)) != EventStep::EndOfStream,
        (spec_event_step(phase, Err(code)) == EventStep::RetryAfterReconnect) == spec_is_disconnect(
            code,
        ),
        spec_event_step(phase, Ok(more)) == EventStep::EndOfStream <==> (phase == EventPhase::Read
            && !more),
{
}

/// Where a get is sent.
#[derive(Debug, Clone, Copy, PartialEq, Eq, Structural)]
pub enum GetSource {
    Session,
    Querier,
}

/// What a get makes of the server's answer.
#[derive(Debug, Clone, Copy, PartialEq, Eq, Structural)]
pub enum GetStep {
    /// Stream the replies.
    Stream,
    /// The connection was lost: mark it so and hand back a closed, empty
    /// reply stream.
    EmptyAfterDisconnect,
    /// The server disowned the querier's handle: forget it and hand back a
    /// closed, empty reply stream.
    EmptyAfterRedeclare,
    /// The get fails with the server's status.
    Fail,
}

pub open spec fn spec_get_step(source: GetSource, outcome: Result<(), StatusCode>) -> GetStep {
    match outcome {
        Ok(()) => GetStep::Stream,
        Err(code) => match spec_classify(code) {
            FailureClass::Disconnected => GetStep::EmptyAfterDisconnect,
            FailureClass::Stale => if source == GetSource::Querier {
                GetStep::EmptyAfterRedeclare
            } else {
                GetStep::Fail
            },
            FailureClass::Other => GetStep::Fail,
        },
    }
}

/// Decides what a get does after its call returned.
pub fn get_step(source: GetSource, outcome: &Result<(), GrpcStatus>) -> (step: GetStep)
    ensures
        step == spec_get_step(source, outcome_code(*outcome)),
        outcome is Ok <==> step == GetStep::Stream,
{
    match outcome {
        Ok(()) => GetStep::Stream,
        Err(s) => match classify_failure(s) {
            FailureClass::Disconnected => GetStep::EmptyAfterDisconnect,
            FailureClass::Stale => {
                if source == GetSource::Querier {
                    GetStep::EmptyAfterRedeclare
                } else {
                    GetStep::Fail
                }
            },
            FailureClass::Other => GetStep::Fail,
        },
    }
}

/// What an undeclaration makes of the server's answer: whether to mark the
/// connection lost, and what the caller gets. A lost connection or a handle
/// the server no longer knows counts as undeclared.
pub fn undeclare_outcome(outcome: Result<(), GrpcStatus>) -> (r: (bool, Result<(), ClientError>))
    ensures
        r.0 == (outcome matches Err(s) && spec_is_disconnect(s.code)),
        match outcome {
            Ok(()) => r.1 is Ok,
            Err(s) => if spec_is_disconnect(s.code) || spec_is_stale(s.code) {
                r.1 is Ok
            } else {
                r.1 matches Err(ClientError::Status(t)) && t.code == s.code && t.message@
                    == s.message@
            },
        },
{
    match outcome {
        Ok(()) => (false, Ok(())),
        Err(s) => {
            if is_disconnect_status(&s) {
                (true, Ok(()))
            } else if is_stale_status(&s) {
                (false, Ok(()))
            } else {
                (false, Err(ClientError::Status(s)))
            }
        },
    }
}

/// What a session cleanup makes of the server's answer: whether to mark
/// the connection lost, and what the caller gets. A lost connection counts
/// as cleaned up; every other failure is reported.
pub fn cleanup_outcome(outcome: Result<(), GrpcStatus>) -> (r: (bool, Result<(), ClientError>))
    ensures
        r.0 == (outcome matches Err(s) && spec_is_disconnect(s.code)),
        match outcome {
            Ok(()) => r.1 is Ok,
            Err(s) => if spec_is_disconnect(s.code) {
                r.1 is Ok
            } else {
                r.1 matches Err(ClientError::Status(t)) && t.code == s.code && t.message@
                    == s.message@
            },
        },
{
    match outcome {
        Ok(()) => (false, Ok(())),
        Err(s) => {
            if is_disconnect_status(&s) {
                (true, Ok(()))
            } else {
                (false, Err(ClientError::Status(s)))
            }
        },
    }
}

/// What a worker does after it asked the server to declare its object.
#[derive(Debug, Clone, Copy, PartialEq, Eq, Structural)]
pub enum DeclareStep {
    /// The object is declared: go on with the handle.
    Proceed,
    /// The connection was lost: mark it so and declare again once
    /// reconnected.
    RetryAfterReconnect,
    /// The declaration failed for another reason: report it and drop the
    /// command that needed it.
    DropWithWarning,
}

pub open spec fn spec_publisher_declare_step(outcome: Result<(), StatusCode>) -> DeclareStep {
    match outcome {
        Ok(()) => DeclareStep::Proceed,
        Err(code) => if spec_is_disconnect(code) {
            DeclareStep::RetryAfterReconnect
        } else {
            DeclareStep::DropWithWarning
        },
    }
}

/// Decides what the publisher's worker does after declaring the publisher
/// for a queued put or delete: any failure other than a lost connection,
/// a stale-handle code included, drops the command.
pub fn publisher_declare_step(outcome: &Result<(), GrpcStatus>) -> (step: DeclareStep)
    ensures
        step == spec_publisher_declare_step(outcome_code(*outcome)),
{
    match outcome {
        Ok(()) => DeclareStep::Proceed,
        Err(s) => {
            if is_disconnect_status(s) {
                DeclareStep::RetryAfterReconnect
            } else {
                DeclareStep::DropWithWarning
            }
        },
    }
}

pub open spec fn spec_querier_declare_step(outcome: Result<(), StatusCode>) -> GetStep {
    match outcome {
        Ok(()) => GetStep::Stream,
        Err(code) => if spec_is_disconnect(code) {
            GetStep::EmptyAfterDisconnect
        } else {
            GetStep::Fail
        },
    }
}

/// Decides what a querier's get does after declaring the querier: a lost
/// connection gives a closed, empty reply stream; any other failure, a
/// stale-handle code included, fails the get with the server's status; on
/// success the get goes on (`Stream`) to its Get call.
pub fn querier_declare_step(outcome: &Result<(), GrpcStatus>) -> (step: GetStep)
    ensures
        step == spec_querier_declare_step(outcome_code(*outcome)),
        outcome matches Err(s) && spec_is_stale(s.code) ==> step == GetStep::Fail,
{
    match outcome {
        Ok(()) => GetStep::Stream,
        Err(s) => {
            if is_disconnect_status(s) {
                GetStep::EmptyAfterDisconnect
            } else {
                GetStep::Fail
            }
        },
    }
}

/// The reconnection back-off: the wait before the next attempt after a run
/// of failed attempts, reset by a successful connection.
pub struct Backoff {
    delay_ms: u64,
    failures: Ghost<nat>,
}

impl Backoff {
    /// The failed attempts since the last success.
    pub closed spec fn failures(&self) -> nat {
        self.failures@
    }

    /// The wait after the next failure.
    pub closed spec fn delay(&self) -> u64 {
        self.delay_ms
    }

    /// The wait is the one the run of failures calls for.
    pub closed spec fn wf(&self) -> bool {
        self.delay_ms == backoff(self.failures@)
    }

    pub fn new() -> (b: Self)
        ensures
            b.wf(),
            b.failures() == 0,
            b.delay() == RECONNECT_DELAY_INITIAL_MS,
    {
        Backoff { delay_ms: RECONNECT_DELAY_INITIAL_MS, failures: Ghost(0) }
    }

    /// Records a failed attempt and returns how long to wait before the next
    /// one: the `n`-th failure in a row waits `backoff(n - 1)`.
    pub fn after_failure(&mut self) -> (wait_ms: u64)
        requires
            old(self).wf(),
        ensures
            final(self).wf(),
            wait_ms == backoff(old(self).failures()),
            final(self).failures() == old(self).failures() + 1,
    {
        let wait_ms = self.delay_ms;
        self.delay_ms = next_reconnect_delay_ms(self.delay_ms);
        self.failures = Ghost(self.failures@ + 1);
        wait_ms
    }

    /// Records a successful connection: the next failure waits the initial
    /// delay again.
    pub fn after_success(&mut self)
        ensures
            final(self).wf(),
            final(self).failures() == 0,
            final(self).delay() == RECONNECT_DELAY_INITIAL_MS,
    {
        self.delay_ms = RECONNECT_DELAY_INITIAL_MS;
        self.failures = Ghost(0);
    }
}

/// What the reconnection worker does next.
#[derive(Debug, Clone, Copy, PartialEq, Eq, Structural)]
pub enum ReconnectAction {
    /// The session is closed: the worker ends.
    Stop,
    /// A connection is up: wait until it changes.
    WaitForChange,
    /// No connection: try to connect, and on failure wait the back-off.
    Attempt,
}

/// Decides the reconnection worker's next move: it ends once the session is
/// closed, never attempts while connected, and attempts otherwise.
pub fn reconnect_action(closed: bool, connected: bool) -> (a: ReconnectAction)
    ensures
        closed ==> a == ReconnectAction::Stop,
        !closed && connected ==> a == ReconnectAction::WaitForChange,
        !closed && !connected ==> a == ReconnectAction::Attempt,
{
    if closed {
        ReconnectAction::Stop
    } else if connected {
        ReconnectAction::WaitForChange
    } else {
        ReconnectAction::Attempt
    }
}

/// A background worker that sends the commands of one send queue, one at a
/// time and oldest first, and acknowledges each exactly once: after it
/// succeeded, after it failed for good, or when it is dropped without a
/// call.
pub struct CommandWorker<C> {
    kind: WorkerKind,
    current: Option<C>,
    taken: Ghost<Seq<C>>,
    acknowledged: Ghost<nat>,
}

impl<C> CommandWorker<C> {
    pub closed spec fn kind(&self) -> WorkerKind {
        self.kind
    }

    /// The command being sent, if any.
    pub closed spec fn current(&self) -> Option<C> {
        self.current
    }

    /// Every command taken from the queue so far, in the order taken.
    pub closed spec fn taken(&self) -> Seq<C> {
        self.taken@
    }

    /// How many taken commands were acknowledged.
    pub closed spec fn acknowledged(&self) -> nat {
        self.acknowledged@
    }

    /// Every taken command but the one being sent was acknowledged once,
    /// and the one being sent is the last taken.
    pub open spec fn wf(&self) -> bool {
        &&& self.acknowledged() + (if self.current() is Some {
            1nat
        } else {
            0nat
        }) == self.taken().len()
        &&& self.current() matches Some(c) ==> c == self.taken().last()
    }

    pub fn new(kind: WorkerKind) -> (w: Self)
        ensures
            w.wf(),
            w.kind() == kind,
            w.current() is None,
            w.taken() == Seq::<C>::empty(),
            w.acknowledged() == 0,
    {
        CommandWorker { kind, current: None, taken: Ghost(Seq::empty()), acknowledged: Ghost(0) }
    }

    /// The command being sent.
    pub fn current_command(&self) -> (c: Option<&C>)
        ensures
            match self.current() {
                Some(x) => c == Some(&x),
                None => c is None,
            },
    {
        match &self.current {
            Some(c) => Some(c),
            None => None,
        }
    }

    /// When idle, takes the oldest queued command; returns whether there was
    /// one.
    pub fn take_next(&mut self, q: &mut DropOldestQueue<C>) -> (got: bool)
        requires
            old(self).wf(),
            old(self).current() is None,
            old(q).wf(),
        ensures
            final(self).wf(),
            final(q).wf(),
            final(self).kind() == old(self).kind(),
            final(self).acknowledged() == old(self).acknowledged(),
            final(q).capacity() == old(q).capacity(),
            final(q).dropped() == old(q).dropped(),
            final(q).pending() == old(q).pending(),
            final(q).senders() == old(q).senders(),
            final(q).pushed() == old(q).pushed(),
            final(q).evicted() == old(q).evicted(),
            final(q).processed() + old(self).acknowledged() == old(q).processed()
                + final(self).acknowledged(),
            sole_consumer(*old(self), *old(q)) ==> sole_consumer(*final(self), *final(q)),
            got == (old(q).contents().len() > 0),
            got ==> {
                &&& final(self).current() == Some(old(q).contents()[0])
                &&& final(self).taken() == old(self).taken().push(old(q).contents()[0])
                &&& final(q).contents() == old(q).contents().drop_first()
            },
            !got ==> {
                &&& final(self).current() is None
                &&& final(self).taken() == old(self).taken()
                &&& final(q).contents() == old(q).contents()
            },
    {
        match q.try_recv() {
            Ok(c) => {
                self.taken = Ghost(self.taken@.push(c));
                self.current = Some(c);
                true
            },
            Err(_) => false,
        }
    }

    fn acknowledge(&mut self, q: &mut DropOldestQueue<C>)
        requires
            old(self).wf(),
            old(self).current() is Some,
            old(q).wf(),
        ensures
            final(self).wf(),
            final(self).kind() == old(self).kind(),
            final(self).current() is None,
            final(self).taken() == old(self).taken(),
            final(self).acknowledged() == old(self).acknowledged() + 1,
            final(q).wf(),
            final(q).contents() == old(q).contents(),
            final(q).capacity() == old(q).capacity(),
            final(q).dropped() == old(q).dropped(),
            final(q).senders() == old(q).senders(),
            final(q).pushed() == old(q).pushed(),
            final(q).evicted() == old(q).evicted(),
            final(q).processed() + old(self).acknowledged() == old(q).processed()
                + final(self).acknowledged(),
            sole_consumer(*old(self), *old(q)) ==> sole_consumer(*final(self), *final(q)),
            final(q).pending() == vstd::wrapping::u64_specs::wrapping_sub(old(q).pending(), 1),
    {
        self.current = None;
        self.acknowledged = Ghost(self.acknowledged@ + 1);
        q.processed_one();
    }

    /// Acknowledges the current command without a call: the object or the
    /// session was closed, or the query it answers is stale.
    pub fn drop_current(&mut self, q: &mut DropOldestQueue<C>)
        requires
            old(self).wf(),
            old(self).current() is Some,
            old(q).wf(),
        ensures
            final(self).wf(),
            final(self).kind() == old(self).kind(),
            final(self).current() is None,
            final(self).taken() == old(self).taken(),
            final(self).acknowledged() == old(self).acknowledged() + 1,
            final(q).wf(),
            final(q).contents() == old(q).contents(),
            final(q).capacity() == old(q).capacity(),
            final(q).dropped() == old(q).dropped(),
            final(q).senders() == old(q).senders(),
            final(q).pushed() == old(q).pushed(),
            final(q).evicted() == old(q).evicted(),
            final(q).processed() + old(self).acknowledged() == old(q).processed()
                + final(self).acknowledged(),
            sole_consumer(*old(self), *old(q)) ==> sole_consumer(*final(self), *final(q)),
            final(q).pending() == vstd::wrapping::u64_specs::wrapping_sub(old(q).pending(), 1),
    {
        self.acknowledge(q);
    }

    /// Handles the outcome of the call that sent the current command: a
    /// retried command stays current and unacknowledged, every other
    /// outcome acknowledges it.
    pub fn on_outcome(&mut self, q: &mut DropOldestQueue<C>, outcome: &Result<(), GrpcStatus>) -> (step: CommandStep)
        requires
            old(self).wf(),
            old(self).current() is Some,
            old(q).wf(),
        ensures
            final(self).wf(),
            final(self).kind() == old(self).kind(),
            final(self).taken() == old(self).taken(),
            final(q).wf(),
            final(q).contents() == old(q).contents(),
            final(q).capacity() == old(q).capacity(),
            final(q).dropped() == old(q).dropped(),
            final(q).senders() == old(q).senders(),
            final(q).pushed() == old(q).pushed(),
            final(q).evicted() == old(q).evicted(),
            final(q).processed() + old(self).acknowledged() == old(q).processed()
                + final(self).acknowledged(),
            sole_consumer(*old(self), *old(q)) ==> sole_consumer(*final(self), *final(q)),
            step == spec_command_step(old(self).kind(), outcome_code(*outcome)),
            (step == CommandStep::RetryAfterReconnect || step == CommandStep::RetryAfterRedeclare)
                ==> {
                &&& final(self).current() == old(self).current()
                &&& final(self).acknowledged() == old(self).acknowledged()
                &&& final(q).pending() == old(q).pending()
            },
            !(step == CommandStep::RetryAfterReconnect || step == CommandStep::RetryAfterRedeclare)
                ==> {
                &&& final(self).current() is None
                &&& final(self).acknowledged() == old(self).acknowledged() + 1
                &&& final(q).pending() == vstd::wrapping::u64_specs::wrapping_sub(
                    old(q).pending(),
                    1,
                )
            },
    {
        let step = command_step(self.kind, outcome);
        match step {
            CommandStep::RetryAfterReconnect | CommandStep::RetryAfterRedeclare => {},
            _ => {
                self.acknowledge(q);
            },
        }
        step
    }

    /// Handles the outcome of the declaration the current command needed: a
    /// lost connection keeps the command, another failure drops and
    /// acknowledges it, and success leaves it to be sent.
    pub fn on_declare_outcome(&mut self, q: &mut DropOldestQueue<C>, outcome: &Result<(), GrpcStatus>) -> (step: DeclareStep)
        requires
            old(self).wf(),
            old(self).current() is Some,
            old(q).wf(),
        ensures
            final(self).wf(),
            final(self).kind() == old(self).kind(),
            final(self).taken() == old(self).taken(),
            final(q).wf(),
            final(q).contents() == old(q).contents(),
            final(q).capacity() == old(q).capacity(),
            final(q).dropped() == old(q).dropped(),
            final(q).senders() == old(q).senders(),
            final(q).pushed() == old(q).pushed(),
            final(q).evicted() == old(q).evicted(),
            final(q).processed() + old(self).acknowledged() == old(q).processed()
                + final(self).acknowledged(),
            sole_consumer(*old(self), *old(q)) ==> sole_consumer(*final(self), *final(q)),
            step == spec_publisher_declare_step(outcome_code(*outcome)),
            step != DeclareStep::DropWithWarning ==> {
                &&& final(self).current() == old(self).current()
                &&& final(self).acknowledged() == old(self).acknowledged()
                &&& final(q).pending() == old(q).pending()
            },
            step == DeclareStep::DropWithWarning ==> {
                &&& final(self).current() is None
                &&& final(self).acknowledged() == old(self).acknowledged() + 1
                &&& final(q).pending() == vstd::wrapping::u64_specs::wrapping_sub(
                    old(q).pending(),
                    1,
                )
            },
    {
        let step = publisher_declare_step(outcome);
        if step == DeclareStep::DropWithWarning {
            self.acknowledge(q);
        }
        step
    }
}

/// The worker acknowledged its current command: it is idle, one more
/// command counts as acknowledged, and the queue recorded one more processed
/// item.
pub open spec fn acknowledged_current<C>(
    w0: CommandWorker<C>,
    q0: DropOldestQueue<C>,
    w1: CommandWorker<C>,
    q1: DropOldestQueue<C>,
) -> bool {
    &&& w1.wf()
    &&& q1.wf()
    &&& w1.kind() == w0.kind()
    &&& w1.current() is None
    &&& w1.taken() == w0.taken()
    &&& w1.acknowledged() == w0.acknowledged() + 1
    &&& q1.contents() == q0.contents()
    &&& q1.capacity() == q0.capacity()
    &&& q1.dropped() == q0.dropped()
    &&& q1.senders() == q0.senders()
    &&& q1.pushed() == q0.pushed()
    &&& q1.evicted() == q0.evicted()
    &&& q1.processed() == q0.processed() + 1
    &&& q1.pending() == vstd::wrapping::u64_specs::wrapping_sub(q0.pending(), 1)
}

/// The worker keeps its current command for another attempt: neither the
/// worker nor the queue changed.
pub open spec fn kept_current<C>(
    w0: CommandWorker<C>,
    q0: DropOldestQueue<C>,
    w1: CommandWorker<C>,
    q1: DropOldestQueue<C>,
) -> bool {
    &&& w1.wf()
    &&& q1.wf()
    &&& w1.kind() == w0.kind()
    &&& w1.current() == w0.current()
    &&& w1.taken() == w0.taken()
    &&& w1.acknowledged() == w0.acknowledged()
    &&& q1.contents() == q0.contents()
    &&& q1.capacity() == q0.capacity()
    &&& q1.dropped() == q0.dropped()
    &&& q1.senders() == q0.senders()
    &&& q1.pushed() == q0.pushed()
    &&& q1.evicted() == q0.evicted()
    &&& q1.processed() == q0.processed()
    &&& q1.pending() == q0.pending()
}

/// Whether a step sends the same command again.
pub open spec fn is_retry(step: CommandStep) -> bool {
    step == CommandStep::RetryAfterReconnect || step == CommandStep::RetryAfterRedeclare
}

/// The code of a declaration's outcome.
pub open spec fn declare_code(r: Result<u64, GrpcStatus>) -> Result<(), StatusCode> {
    match r {
        Ok(_) => Ok(()),
        Err(s) => Err(s.code),
    }
}

impl<C> CommandWorker<C> {
    /// Before each attempt to send the current command: once its object or
    /// the session is closed, the command is acknowledged without a call.
    pub fn before_attempt(&mut self, q: &mut DropOldestQueue<C>, closed: bool) -> (go: bool)
        requires
            old(self).wf(),
            old(self).current() is Some,
            old(q).wf(),
        ensures
            go == !closed,
            go ==> kept_current(*old(self), *old(q), *final(self), *final(q)),
            !go ==> acknowledged_current(*old(self), *old(q), *final(self), *final(q)),
            sole_consumer(*old(self), *old(q)) ==> sole_consumer(*final(self), *final(q)),
    {
        if closed {
            self.drop_current(q);
            false
        } else {
            true
        }
    }

    /// After the call that sent the current command on the connection of
    /// `generation`: a lost connection is marked lost and the command stays
    /// for the next one; a publisher's command also stays after a stale
    /// handle; every other outcome acknowledges it.
    pub fn after_call<Ch>(
        &mut self,
        q: &mut DropOldestQueue<C>,
        conn: &mut ConnectionState<Ch>,
        generation: u64,
        outcome: &Result<(), GrpcStatus>,
    ) -> (step: CommandStep)
        requires
            old(self).wf(),
            old(self).current() is Some,
            old(q).wf(),
        ensures
            step == spec_command_step(old(self).kind(), outcome_code(*outcome)),
            is_retry(step) ==> kept_current(*old(self), *old(q), *final(self), *final(q)),
            !is_retry(step) ==> acknowledged_current(*old(self), *old(q), *final(self), *final(q)),
            final(conn).generation() == old(conn).generation(),
            step == CommandStep::RetryAfterReconnect ==> final(conn).channel() == after_failure(
                old(conn).channel(),
                old(conn).generation(),
                generation,
            ),
            step != CommandStep::RetryAfterReconnect ==> final(conn).channel() == old(conn).channel(),
            sole_consumer(*old(self), *old(q)) ==> sole_consumer(*final(self), *final(q)),
    {
        let step = self.on_outcome(q, outcome);
        if step == CommandStep::RetryAfterReconnect {
            let _ = conn.mark_disconnected(generation);
        }
        step
    }

    /// After a publisher's declaration on the connection of `generation`,
    /// which its current command needed: the returned handle is bound; a lost
    /// connection is marked lost and the command stays; any other failure
    /// acknowledges the command without sending it.
    pub fn publisher_after_declare<Ch>(
        &mut self,
        q: &mut DropOldestQueue<C>,
        conn: &mut ConnectionState<Ch>,
        binding: &mut RemoteBinding,
        generation: u64,
        outcome: &Result<u64, GrpcStatus>,
    ) -> (step: DeclareStep)
        requires
            old(self).wf(),
            old(self).current() is Some,
            old(q).wf(),
        ensures
            step == spec_publisher_declare_step(declare_code(*outcome)),
            step == DeclareStep::DropWithWarning ==> acknowledged_current(
                *old(self),
                *old(q),
                *final(self),
                *final(q),
            ),
            step != DeclareStep::DropWithWarning ==> kept_current(
                *old(self),
                *old(q),
                *final(self),
                *final(q),
            ),
            outcome matches Ok(h) ==> final(binding).handle() == Some(*h) && final(binding).generation() == generation,
            outcome is Err ==> final(binding).handle() == old(binding).handle() && final(binding).generation() == old(binding).generation(),
            final(conn).generation() == old(conn).generation(),
            step == DeclareStep::RetryAfterReconnect ==> final(conn).channel() == after_failure(
                old(conn).channel(),
                old(conn).generation(),
                generation,
            ),
            step != DeclareStep::RetryAfterReconnect ==> final(conn).channel() == old(conn).channel(),
            sole_consumer(*old(self), *old(q)) ==> sole_consumer(*final(self), *final(q)),
    {
        match outcome {
            Ok(h) => {
                binding.bind(*h, generation);
                DeclareStep::Proceed
            },
            Err(s) => {
                if is_disconnect_status(s) {
                    let _ = conn.mark_disconnected(generation);
                    DeclareStep::RetryAfterReconnect
                } else {
                    self.acknowledge(q);
                    DeclareStep::DropWithWarning
                }
            },
        }
    }

    /// After a publisher sent its current command through `handle` on the
    /// connection of `generation`: as `after_call`, and a stale handle is
    /// forgotten so that the retry declares the publisher anew.
    pub fn publisher_after_call<Ch>(
        &mut self,
        q: &mut DropOldestQueue<C>,
        conn: &mut ConnectionState<Ch>,
        binding: &mut RemoteBinding,
        generation: u64,
        handle: u64,
        outcome: &Result<(), GrpcStatus>,
    ) -> (step: CommandStep)
        requires
            old(self).wf(),
            old(self).current() is Some,
            old(self).kind() == WorkerKind::Publisher,
            old(q).wf(),
        ensures
            step == spec_command_step(WorkerKind::Publisher, outcome_code(*outcome)),
            is_retry(step) ==> kept_current(*old(self), *old(q), *final(self), *final(q)),
            !is_retry(step) ==> acknowledged_current(*old(self), *old(q), *final(self), *final(q)),
            final(conn).generation() == old(conn).generation(),
            step == CommandStep::RetryAfterReconnect ==> final(conn).channel() == after_failure(
                old(conn).channel(),
                old(conn).generation(),
                generation,
            ),
            step != CommandStep::RetryAfterReconnect ==> final(conn).channel() == old(conn).channel(),
            final(binding).generation() == old(binding).generation(),
            step == CommandStep::RetryAfterRedeclare && old(binding).handle() == Some(handle)
                ==> final(binding).handle() is None,
            !(step == CommandStep::RetryAfterRedeclare && old(binding).handle() == Some(handle))
                ==> final(binding).handle() == old(binding).handle(),
            sole_consumer(*old(self), *old(q)) ==> sole_consumer(*final(self), *final(q)),
    {
        let step = self.after_call(q, conn, generation, outcome);
        if step == CommandStep::RetryAfterRedeclare {
            binding.invalidate(handle);
        }
        step
    }
}

impl CommandWorker<QueryableCommand> {
    /// Before the first attempt to send the current command: a command for a
    /// query the server no longer knows is acknowledged without a call.
    pub fn skip_if_stale(&mut self, q: &mut DropOldestQueue<QueryableCommand>, book: &QueryBook) -> (skipped: bool)
        requires
            old(self).wf(),
            old(self).current() is Some,
            old(q).wf(),
        ensures
            skipped == book.stale().contains(old(self).current().unwrap().spec_identity()),
            skipped ==> acknowledged_current(*old(self), *old(q), *final(self), *final(q)),
            !skipped ==> kept_current(*old(self), *old(q), *final(self), *final(q)),
            sole_consumer(*old(self), *old(q)) ==> sole_consumer(*final(self), *final(q)),
    {
        let identity = match &self.current {
            Some(c) => c.identity(),
            None => QueryIdentity { remote_handle: 0, query_id: 0 },
        };
        if book.is_stale(identity) {
            self.drop_current(q);
            true
        } else {
            false
        }
    }

    /// After the call that sent the current reply, error reply, delete reply
    /// or end of answers: as `after_call`; in addition a stale-query answer
    /// marks the query stale, and a successful end of answers forgets the
    /// query, so that later replies to it are refused.
    pub fn queryable_after_call<Ch>(
        &mut self,
        q: &mut DropOldestQueue<QueryableCommand>,
        conn: &mut ConnectionState<Ch>,
        book: &mut QueryBook,
        generation: u64,
        outcome: &Result<(), GrpcStatus>,
    ) -> (step: CommandStep)
        requires
            old(self).wf(),
            old(self).current() is Some,
            old(self).kind() == WorkerKind::Queryable,
            old(q).wf(),
            old(book).wf(),
        ensures
            step == spec_command_step(WorkerKind::Queryable, outcome_code(*outcome)),
            is_retry(step) ==> kept_current(*old(self), *old(q), *final(self), *final(q)),
            !is_retry(step) ==> acknowledged_current(*old(self), *old(q), *final(self), *final(q)),
            final(conn).generation() == old(conn).generation(),
            step == CommandStep::RetryAfterReconnect ==> final(conn).channel() == after_failure(
                old(conn).channel(),
                old(conn).generation(),
                generation,
            ),
            step != CommandStep::RetryAfterReconnect ==> final(conn).channel() == old(conn).channel(),
            final(book).wf(),
            ({
                let id = old(self).current().unwrap().spec_identity();
                let finished = step == CommandStep::Done && old(self).current().unwrap() is Finish;
                &&& finished ==> final(book).active() == old(book).active().remove(id.query_id)
                    && final(book).stale() == old(book).stale()
                &&& step == CommandStep::DropStaleQuery ==> final(book).active() == old(book).active().remove(id.query_id) && final(book).stale() == (if old(book).stale().contains(id) {
                    old(book).stale()
                } else {
                    old(book).stale().push(id)
                })
                &&& !finished && step != CommandStep::DropStaleQuery ==> final(book).active()
                    == old(book).active() && final(book).stale() == old(book).stale()
            }),
            sole_consumer(*old(self), *old(q)) ==> sole_consumer(*final(self), *final(q)),
    {
        let (identity, finish) = match &self.current {
            Some(c) => (c.identity(), matches!(c, QueryableCommand::Finish { .. })),
            None => (QueryIdentity { remote_handle: 0, query_id: 0 }, false),
        };
        let step = self.after_call(q, conn, generation, outcome);
        if step == CommandStep::Done && finish {
            book.forget(identity.query_id);
        } else if step == CommandStep::DropStaleQuery {
            let _ = book.mark_stale(identity);
        }
        step
    }
}

/// The worker is the only consumer of the queue: every item ever pushed was
/// evicted, is still queued, or was taken by the worker, and every report of
/// a processed item is one of the worker's acknowledgements.
pub open spec fn sole_consumer<C>(w: CommandWorker<C>, q: DropOldestQueue<C>) -> bool {
    &&& w.wf()
    &&& q.wf()
    &&& w.acknowledged() == q.processed()
    &&& w.taken().len() + q.contents().len() + q.evicted() == q.pushed()
}

/// With the worker as the queue's only consumer, the items still pending are
/// those queued plus the one being sent, so a producer waiting for its
/// items to settle is released exactly when the queue is empty and the
/// worker idle.
pub proof fn lemma_settled_iff_idle<C>(w: CommandWorker<C>, q: DropOldestQueue<C>)
    requires
        sole_consumer(w, q),
        q.capacity() < usize::MAX,
    ensures
        q.outstanding() == q.contents().len() + if w.current() is Some {
            1int
        } else {
            0int
        },
        q.pending() == q.outstanding(),
        q.pending() == 0 <==> (q.contents().len() == 0 && w.current() is None),
{
    lemma_wf_bounds(q);
    lemma_pending_is_outstanding(q);
}

/// However a worker's calls turn out, it takes commands in queue order and
/// acknowledges each exactly once: the acknowledged ones are all it took but
/// the one it is sending, and nothing is acknowledged twice.
pub proof fn lemma_exactly_once<C>(w: CommandWorker<C>)
    requires
        w.wf(),
    ensures
        w.acknowledged() <= w.taken().len(),
        w.current() is None ==> w.acknowledged() == w.taken().len(),
        w.current() is Some ==> w.acknowledged() + 1 == w.taken().len(),
{
}


/// What a queryable command is for: every variant reports the query it was
/// built for.
pub proof fn lemma_command_identity(
    identity: QueryIdentity,
    reply: QueryReplyArgs,
    reply_err: QueryReplyErrArgs,
    reply_delete: QueryReplyDeleteArgs,
)
    ensures
        (QueryableCommand::Reply { identity, args: reply }).spec_identity() == identity,
        (QueryableCommand::ReplyErr { identity, args: reply_err }).spec_identity() == identity,
        (QueryableCommand::ReplyDelete { identity, args: reply_delete }).spec_identity()
            == identity,
        (QueryableCommand::Finish { identity }).spec_identity() == identity,
{
}

/// How failures are read: a lost connection for exactly `Unavailable`,
/// `Unknown` and `Cancelled`, a stale handle or query for exactly
/// `NotFound` and `PermissionDenied`, anything else otherwise.
pub proof fn lemma_failure_classes(code: StatusCode)
    ensures
        spec_classify(code) == FailureClass::Disconnected <==> (code == StatusCode::Unavailable || code == StatusCode::Unknown || code == StatusCode::Cancelled),
        spec_classify(code) == FailureClass::Stale <==> (code == StatusCode::NotFound || code == StatusCode::PermissionDenied),
        spec_classify(code) == FailureClass::Other <==> !(code == StatusCode::Unavailable || code == StatusCode::Unknown || code == StatusCode::Cancelled) && !(code == StatusCode::NotFound || code == StatusCode::PermissionDenied),
{
}

/// What a worker does after a call, for every kind of worker: a success
/// ends the command; exactly the lost-connection codes send it again after
/// reconnecting; a stale handle makes a publisher declare itself anew and a
/// queryable drop the query's answers; every other failure, `OutOfRange`
/// included, is reported and the command dropped.
pub proof fn lemma_command_step_table(kind: WorkerKind, code: StatusCode)
    ensures
        spec_command_step(kind, Ok(())) == CommandStep::Done,
        spec_command_step(kind, Err(code)) != CommandStep::Done,
        spec_command_step(kind, Err(code)) == CommandStep::RetryAfterReconnect <==> (code == StatusCode::Unavailable || code == StatusCode::Unknown || code == StatusCode::Cancelled),
        spec_command_step(kind, Err(code)) == CommandStep::RetryAfterRedeclare <==> (kind
            == WorkerKind::Publisher && (code == StatusCode::NotFound || code == StatusCode::PermissionDenied)),
        spec_command_step(kind, Err(code)) == CommandStep::DropStaleQuery <==> (kind
            == WorkerKind::Queryable && (code == StatusCode::NotFound || code == StatusCode::PermissionDenied)),
        spec_command_step(kind, Err(code)) == CommandStep::DropWithWarning <==> (!(code == StatusCode::Unavailable || code == StatusCode::Unknown || code == StatusCode::Cancelled) && !(
        kind != WorkerKind::Session && (code == StatusCode::NotFound || code == StatusCode::PermissionDenied))),
        spec_command_step(WorkerKind::Session, Err(StatusCode::OutOfRange))
            == CommandStep::DropWithWarning,
{
}

/// What the event loop does, for every phase: a successful call goes on,
/// except that a stream ending while reading marks the connection lost;
/// exactly the lost-connection codes retry after reconnecting; outside the
/// declaration a stale handle is forgotten and the object declared anew,
/// while a stale answer to the declaration itself is retried later; any
/// other failure restarts the stream while reading and is retried later
/// otherwise.
pub proof fn lemma_event_step_table(phase: EventPhase, code: StatusCode, more: bool)
    ensures
        spec_event_step(phase, Ok(more)) == (if phase == EventPhase::Read && !more {
            EventStep::EndOfStream
        } else {
            EventStep::Proceed
        }),
        (code == StatusCode::Unavailable || code == StatusCode::Unknown || code == StatusCode::Cancelled) ==> spec_event_step(phase, Err(code)) == EventStep::RetryAfterReconnect,
        phase != EventPhase::Declare && (code == StatusCode::NotFound || code == StatusCode::PermissionDenied) ==> spec_event_step(phase, Err(code))
            == EventStep::RetryAfterRedeclare,
        phase == EventPhase::Declare && (code == StatusCode::NotFound || code == StatusCode::PermissionDenied) ==> spec_event_step(phase, Err(code))
            == EventStep::RetryLater,
        !(code == StatusCode::Unavailable || code == StatusCode::Unknown || code == StatusCode::Cancelled) && !(code == StatusCode::NotFound || code == StatusCode::PermissionDenied) ==> spec_event_step(phase, Err(code)) == (if phase
            == EventPhase::Read {
            EventStep::Restart
        } else {
            EventStep::RetryLater
        }),
{
}

/// What a get does with the server's answer, for both sources: an accepted
/// call streams the replies; a lost connection gives a closed, empty
/// stream; a stale querier handle gives an empty stream and a new
/// declaration, while a session get fails on it; any other failure fails
/// the get. Only a failed call gives anything but the stream.
pub proof fn lemma_get_step_table(source: GetSource, code: StatusCode)
    ensures
        spec_get_step(source, Ok(())) == GetStep::Stream,
        spec_get_step(source, Err(code)) != GetStep::Stream,
        (code == StatusCode::Unavailable || code == StatusCode::Unknown || code == StatusCode::Cancelled) ==> spec_get_step(source, Err(code)) == GetStep::EmptyAfterDisconnect,
        (code == StatusCode::NotFound || code == StatusCode::PermissionDenied) ==> spec_get_step(source, Err(code)) == (if source == GetSource::Querier {
            GetStep::EmptyAfterRedeclare
        } else {
            GetStep::Fail
        }),
        !(code == StatusCode::Unavailable || code == StatusCode::Unknown || code == StatusCode::Cancelled) && !(code == StatusCode::NotFound || code == StatusCode::PermissionDenied) ==> spec_get_step(source, Err(code)) == GetStep::Fail,
{
}

/// What a declaration's answer leads to: a publisher goes on after success,
/// waits for a new connection after a lost one and otherwise drops the
/// command; a querier's get goes on after success, gives an empty stream
/// after a lost connection and otherwise fails, a stale code included.
pub proof fn lemma_declare_step_table(code: StatusCode)
    ensures
        spec_publisher_declare_step(Ok(())) == DeclareStep::Proceed,
        spec_publisher_declare_step(Err(code)) == (if (code == StatusCode::Unavailable || code == StatusCode::Unknown || code == StatusCode::Cancelled) {
            DeclareStep::RetryAfterReconnect
        } else {
            DeclareStep::DropWithWarning
        }),
        spec_querier_declare_step(Ok(())) == GetStep::Stream,
        spec_querier_declare_step(Err(code)) == (if (code == StatusCode::Unavailable || code == StatusCode::Unknown || code == StatusCode::Cancelled) {
            GetStep::EmptyAfterDisconnect
        } else {
            GetStep::Fail
        }),
{
}

/// Each wait doubles the last one, but never goes past the maximum: the
/// waits after failures in a row are 200, 400, 800 and 1600 ms, then 2 s
/// from then on.
pub proof fn lemma_reconnect_delays(delay_ms: u64, n: nat)
    ensures
        spec_next_reconnect_delay(delay_ms) <= RECONNECT_DELAY_MAX_MS,
        spec_next_reconnect_delay(delay_ms) <= 2 * delay_ms || spec_next_reconnect_delay(delay_ms)
            == RECONNECT_DELAY_MAX_MS,
        2 * delay_ms <= RECONNECT_DELAY_MAX_MS ==> spec_next_reconnect_delay(delay_ms) == 2
            * delay_ms,
        2 * delay_ms > RECONNECT_DELAY_MAX_MS ==> spec_next_reconnect_delay(delay_ms)
            == RECONNECT_DELAY_MAX_MS,
        backoff(0) == 200,
        backoff(1) == 400,
        backoff(2) == 800,
        backoff(3) == 1600,
        n >= 4 ==> backoff(n) == 2000,
{
    reveal_with_fuel(backoff, 5);
    lemma_backoff_bounded(n);
}

/// A failure seen on the current connection drops it; one seen on an
/// older connection leaves the current one alone.
pub proof fn lemma_failure_drops_only_its_connection<C>(c: Option<C>, current: u64, seen: u64)
    ensures
        after_failure(c, current, current) is None,
        seen != current ==> after_failure(c, current, seen) == c,
{
}

} // verus!
