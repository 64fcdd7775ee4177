//! The messages of the gRPC protocol that the client reads, and what the
//! client makes of them.

use vstd::prelude::*;
use vstd::string::*;
use vstd::utf8::{decode_utf8, valid_utf8};

use crate::client::{ensure_pull_mode, ConsumerMode, QueryBook, QueryIdentity};
use crate::queue::{DropOldestQueue, QueueRecvError};
use crate::connect::ClientError;
use crate::status::{status, StatusCode};

verus! {

/// Where a sample comes from.
#[derive(Debug, Clone)]
pub struct SourceInfo {
    pub id: String,
    pub sequence: u64,
}

/// A published value or deletion.
#[derive(Debug, Clone)]
pub struct Sample {
    pub key_expr: String,
    pub payload: Vec<u8>,
    pub encoding: String,
    pub kind: i32,
    pub attachment: Vec<u8>,
    pub timestamp: String,
    pub source_info: Option<SourceInfo>,
}

/// The body of an error reply.
#[derive(Debug, Clone)]
pub struct ReplyError {
    pub payload: Vec<u8>,
    pub encoding: String,
}

/// What a reply carries: a sample or an error.
#[derive(Debug, Clone)]
pub enum ReplyResult {
    Sample(Sample),
    Error(ReplyError),
}

/// One reply to a get.
#[derive(Debug, Clone)]
pub struct Reply {
    pub result: Option<ReplyResult>,
}

/// A query delivered to a queryable.
#[derive(Debug, Clone)]
pub struct Query {
    pub query_id: u64,
    pub selector: String,
    pub key_expr: String,
    pub parameters: String,
    pub payload: Vec<u8>,
    pub encoding: String,
    pub attachment: Vec<u8>,
}

/// An event of a subscriber's stream.
#[derive(Debug, Clone)]
pub struct SubscriberEvent {
    pub sample: Option<Sample>,
}

/// An event of a queryable's stream.
#[derive(Debug, Clone)]
pub struct QueryableEvent {
    pub query: Option<Query>,
}

/// A queryable event with the server handle of the queryable it came
/// through.
#[derive(Debug, Clone)]
pub struct QueryableEventEnvelope {
    pub remote_handle: u64,
    pub event: QueryableEvent,
}

/// The status an event without a query is refused with.
pub open spec fn missing_query(e: ClientError) -> bool {
    e matches ClientError::Status(s) && s.code == StatusCode::Unavailable && s.message@
        == "queryable event missing query"@
}

/// Takes the query out of a queryable event and records it as active under
/// its identity: the queryable's server handle and the query's id.
pub fn query_from_event(book: &mut QueryBook, envelope: QueryableEventEnvelope) -> (r: Result<
    (QueryIdentity, Query),
    ClientError,
>)
    requires
        old(book).wf(),
    ensures
        final(book).wf(),
        final(book).stale() == old(book).stale(),
        match envelope.event.query {
            None => (r matches Err(e) && missing_query(e)) && final(book).active() == old(
                book,
            ).active(),
            Some(q) => {
                let identity = QueryIdentity {
                    remote_handle: envelope.remote_handle,
                    query_id: q.query_id,
                };
                &&& r == Ok::<(QueryIdentity, Query), ClientError>((identity, q))
                &&& final(book).active() == old(book).active().insert(q.query_id, identity)
            },
        },
{
    match envelope.event.query {
        None => Err(
            ClientError::Status(status(StatusCode::Unavailable, "queryable event missing query")),
        ),
        Some(query) => {
            let identity = QueryIdentity {
                remote_handle: envelope.remote_handle,
                query_id: query.query_id,
            };
            book.remember(identity);
            Ok((identity, query))
        },
    }
}

/// What `String::from_utf8_lossy` makes of some bytes.
pub uninterp spec fn utf8_lossy(bytes: Seq<u8>) -> Seq<char>;

/// Calls `String::from_utf8_lossy`: its result depends on the bytes alone,
/// and bytes that are valid UTF-8 are decoded as they are. How invalid
/// sequences are replaced is left to the name `utf8_lossy`.
#[verifier::external_body]
fn from_utf8_lossy(bytes: &[u8]) -> (s: String)
    ensures
        s@ == utf8_lossy(bytes@),
        valid_utf8(bytes@) ==> s@ == decode_utf8(bytes@),
{
    String::from_utf8_lossy(bytes).into_owned()
}

/// One line per reply: `key:payload` for a sample, `ERROR:payload` for an
/// error, with the payload read as UTF-8.
pub open spec fn spec_format_reply(reply: Reply) -> Option<Seq<char>> {
    match reply.result {
        Some(ReplyResult::Sample(s)) => Some(s.key_expr@ + seq![':'] + utf8_lossy(s.payload@)),
        Some(ReplyResult::Error(e)) => Some("ERROR:"@ + utf8_lossy(e.payload@)),
        None => None,
    }
}

pub fn format_reply(reply: &Reply) -> (r: Option<String>)
    ensures
        match spec_format_reply(*reply) {
            Some(t) => r matches Some(s) && s@ == t,
            None => r is None,
        },
        r is None <==> reply.result is None,
        reply.result matches Some(ReplyResult::Sample(s)) ==> (r matches Some(t) && t@
            == s.key_expr@ + seq![':'] + utf8_lossy(s.payload@)),
        reply.result matches Some(ReplyResult::Error(e)) ==> (r matches Some(t) && t@
            == "ERROR:"@ + utf8_lossy(e.payload@)),
{
    proof {
        reveal_strlit(":");
        reveal_strlit("ERROR:");
    }
    match &reply.result {
        Some(ReplyResult::Sample(sample)) => {
            let mut s = String::from_str(sample.key_expr.as_str());
            s.append(":");
            let p = from_utf8_lossy(sample.payload.as_slice());
            s.append(p.as_str());
            Some(s)
        },
        Some(ReplyResult::Error(err)) => {
            let mut s = String::from_str("ERROR:");
            let p = from_utf8_lossy(err.payload.as_slice());
            s.append(p.as_str());
            Some(s)
        },
        None => None,
    }
}

/// A reply laid out for a C caller: whether it is an error, the key of a
/// sample (errors have none) and the payload.
#[derive(Debug, Clone)]
pub struct ReplyParts {
    pub is_error: bool,
    pub key_expr: Option<String>,
    pub payload: Vec<u8>,
}

/// The parts of a reply; a reply with neither a sample nor an error has
/// none.
pub fn reply_parts(reply: &Reply) -> (r: Option<ReplyParts>)
    ensures
        match reply.result {
            Some(ReplyResult::Sample(s)) => r matches Some(p) && !p.is_error && (
            p.key_expr matches Some(k) && k@ == s.key_expr@) && p.payload@ == s.payload@,
            Some(ReplyResult::Error(e)) => r matches Some(p) && p.is_error && p.key_expr is None
                && p.payload@ == e.payload@,
            None => r is None,
        },
{
    match &reply.result {
        Some(ReplyResult::Sample(sample)) => {
            let payload = sample.payload.clone();
            assert(payload@ =~= sample.payload@);
            Some(
                ReplyParts {
                    is_error: false,
                    key_expr: Some(sample.key_expr.clone()),
                    payload,
                },
            )
        },
        Some(ReplyResult::Error(err)) => {
            let payload = err.payload.clone();
            assert(payload@ =~= err.payload@);
            Some(ReplyParts { is_error: true, key_expr: None, payload })
        },
        None => None,
    }
}

/// The local streams an application receives from.
#[derive(Debug, Clone, Copy, PartialEq, Eq, Structural)]
pub enum StreamKind {
    /// A subscriber's events.
    SubscriberEvents,
    /// A queryable's queries.
    Queries,
    /// The replies of a get.
    Replies,
}

/// The message of the status a stream gives once it is closed and empty.
pub open spec fn closed_message(kind: StreamKind) -> Seq<char> {
    match kind {
        StreamKind::SubscriberEvents => "subscriber event queue closed"@,
        StreamKind::Queries => "query stream closed"@,
        StreamKind::Replies => "reply stream closed"@,
    }
}

/// The error of a stream that is closed and empty: `Unavailable`, with the
/// stream's message.
pub open spec fn is_closed_error(e: ClientError, kind: StreamKind) -> bool {
    e matches ClientError::Status(s) && s.code == StatusCode::Unavailable && s.message@
        == closed_message(kind)
}

pub fn closed_stream_error(kind: StreamKind) -> (e: ClientError)
    ensures
        is_closed_error(e, kind),
{
    let message = match kind {
        StreamKind::SubscriberEvents => "subscriber event queue closed",
        StreamKind::Queries => "query stream closed",
        StreamKind::Replies => "reply stream closed",
    };
    proof {
        reveal_strlit("subscriber event queue closed");
        reveal_strlit("query stream closed");
        reveal_strlit("reply stream closed");
    }
    ClientError::Status(status(StatusCode::Unavailable, message))
}

/// Receives without blocking from a local stream: the oldest item when
/// there is one (it leaves the queue), nothing while a producer may still
/// push, and the stream's closed error once it is closed and empty.
pub fn try_take<T>(q: &mut DropOldestQueue<T>, kind: StreamKind) -> (r: Result<Option<T>, ClientError>)
    requires
        old(q).wf(),
    ensures
        final(q).wf(),
        final(q).capacity() == old(q).capacity(),
        final(q).dropped() == old(q).dropped(),
        final(q).pending() == old(q).pending(),
        final(q).senders() == old(q).senders(),
        final(q).pushed() == old(q).pushed(),
        final(q).evicted() == old(q).evicted(),
        final(q).processed() == old(q).processed(),
        old(q).contents().len() > 0 ==> {
            &&& r == Ok::<Option<T>, ClientError>(Some(old(q).contents()[0]))
            &&& final(q).contents() == old(q).contents().drop_first()
        },
        old(q).contents().len() == 0 ==> final(q).contents() == old(q).contents(),
        old(q).contents().len() == 0 && old(q).senders() > 0 ==> r == Ok::<
            Option<T>,
            ClientError,
        >(None),
        old(q).contents().len() == 0 && old(q).senders() == 0 ==> (r matches Err(e)
            && is_closed_error(e, kind)),
{
    match q.try_recv() {
        Ok(x) => Ok(Some(x)),
        Err(QueueRecvError::Empty) => Ok(None),
        Err(QueueRecvError::Disconnected) => Err(closed_stream_error(kind)),
    }
}

/// A subscriber's non-blocking receive: refused in callback mode, where
/// nothing is taken; otherwise as `try_take` on its event queue.
pub fn subscriber_try_recv<T>(mode: ConsumerMode, q: &mut DropOldestQueue<T>) -> (r: Result<
    Option<T>,
    ClientError,
>)
    requires
        old(q).wf(),
    ensures
        final(q).wf(),
        final(q).capacity() == old(q).capacity(),
        final(q).dropped() == old(q).dropped(),
        final(q).pending() == old(q).pending(),
        final(q).senders() == old(q).senders(),
        final(q).pushed() == old(q).pushed(),
        final(q).evicted() == old(q).evicted(),
        final(q).processed() == old(q).processed(),
        mode == ConsumerMode::Callback ==> {
            &&& r matches Err(ClientError::CallbackDriven { kind }) && kind@ == "subscriber"@
            &&& final(q).contents() == old(q).contents()
        },
        mode == ConsumerMode::Pull ==> {
            &&& old(q).contents().len() > 0 ==> {
                &&& r == Ok::<Option<T>, ClientError>(Some(old(q).contents()[0]))
                &&& final(q).contents() == old(q).contents().drop_first()
            }
            &&& old(q).contents().len() == 0 ==> final(q).contents() == old(q).contents()
            &&& old(q).contents().len() == 0 && old(q).senders() > 0 ==> r == Ok::<
                Option<T>,
                ClientError,
            >(None)
            &&& old(q).contents().len() == 0 && old(q).senders() == 0 ==> (r matches Err(e)
                && is_closed_error(e, StreamKind::SubscriberEvents))
        },
{
    proof {
        reveal_strlit("subscriber");
    }
    match ensure_pull_mode(mode, "subscriber") {
        Err(e) => Err(e),
        Ok(()) => try_take(q, StreamKind::SubscriberEvents),
    }
}

/// A queryable's non-blocking receive: refused in callback mode, where
/// nothing is taken; otherwise the oldest event is taken and its query
/// becomes active (an event without a query is refused), nothing comes
/// while a producer may still push, and a closed, empty stream gives
/// "query stream closed".
pub fn queryable_try_recv(
    mode: ConsumerMode,
    q: &mut DropOldestQueue<QueryableEventEnvelope>,
    book: &mut QueryBook,
) -> (r: Result<Option<(QueryIdentity, Query)>, ClientError>)
    requires
        old(q).wf(),
        old(book).wf(),
    ensures
        final(q).wf(),
        final(book).wf(),
        final(book).stale() == old(book).stale(),
        final(q).capacity() == old(q).capacity(),
        final(q).dropped() == old(q).dropped(),
        final(q).pending() == old(q).pending(),
        final(q).senders() == old(q).senders(),
        final(q).pushed() == old(q).pushed(),
        final(q).evicted() == old(q).evicted(),
        final(q).processed() == old(q).processed(),
        mode == ConsumerMode::Callback ==> {
            &&& r matches Err(ClientError::CallbackDriven { kind }) && kind@ == "queryable"@
            &&& final(q).contents() == old(q).contents()
            &&& final(book).active() == old(book).active()
        },
        mode == ConsumerMode::Pull && old(q).contents().len() == 0 ==> {
            &&& final(q).contents() == old(q).contents()
            &&& final(book).active() == old(book).active()
            &&& old(q).senders() > 0 ==> r == Ok::<
                Option<(QueryIdentity, Query)>,
                ClientError,
            >(None)
            &&& old(q).senders() == 0 ==> (r matches Err(e) && is_closed_error(
                e,
                StreamKind::Queries,
            ))
        },
        mode == ConsumerMode::Pull && old(q).contents().len() > 0 ==> {
            let env = old(q).contents()[0];
            &&& final(q).contents() == old(q).contents().drop_first()
            &&& match env.event.query {
                None => (r matches Err(e) && missing_query(e)) && final(book).active() == old(
                    book,
                ).active(),
                Some(qu) => {
                    let identity = QueryIdentity {
                        remote_handle: env.remote_handle,
                        query_id: qu.query_id,
                    };
                    &&& r == Ok::<Option<(QueryIdentity, Query)>, ClientError>(
                        Some((identity, qu)),
                    )
                    &&& final(book).active() == old(book).active().insert(qu.query_id, identity)
                },
            }
        },
{
    proof {
        reveal_strlit("queryable");
    }
    match ensure_pull_mode(mode, "queryable") {
        Err(e) => Err(e),
        Ok(()) => match try_take(q, StreamKind::Queries) {
            Err(e) => Err(e),
            Ok(None) => Ok(None),
            Ok(Some(env)) => match query_from_event(book, env) {
                Ok(x) => Ok(Some(x)),
                Err(e) => Err(e),
            },
        },
    }
}

/// Every reply with a result gives a line, whatever its payload, an empty
/// one included: a sample gives its key, a colon and its payload read as
/// text, an error gives `ERROR:` and its payload. Only a reply without a
/// result gives no line. A payload that is valid UTF-8 is shown as it is
/// decoded.
pub proof fn lemma_reply_lines(reply: Reply)
    ensures
        spec_format_reply(reply) is None <==> reply.result is None,
        reply.result matches Some(ReplyResult::Sample(s)) ==> spec_format_reply(reply) == Some(
            s.key_expr@ + seq![':'] + utf8_lossy(s.payload@),
        ),
        reply.result matches Some(ReplyResult::Error(e)) ==> spec_format_reply(reply) == Some(
            "ERROR:"@ + utf8_lossy(e.payload@),
        ),
{
}

/// The texts a client reads when a local stream is closed and empty: each
/// names its stream, and all three are `Unavailable` statuses; an event
/// without a query is refused with an `Unavailable` status too.
pub proof fn lemma_closed_stream_texts(e: ClientError)
    ensures
        closed_message(StreamKind::SubscriberEvents) == "subscriber event queue closed"@,
        closed_message(StreamKind::Queries) == "query stream closed"@,
        closed_message(StreamKind::Replies) == "reply stream closed"@,
        is_closed_error(e, StreamKind::Replies) ==> (e matches ClientError::Status(s) && s.code
            == StatusCode::Unavailable && s.message@ == "reply stream closed"@),
        missing_query(e) ==> (e matches ClientError::Status(s) && s.code
            == StatusCode::Unavailable && s.message@ == "queryable event missing query"@),
{
}

} // verus!
