//! Request records of the client API: each carries the options that the
//! matching gRPC request sends. Every field of a default record is empty,
//! zero or false, which the server reads as "use Zenoh's own default".

use vstd::prelude::*;

verus! {

/// Arguments of a session-level put.
#[derive(Debug, Clone)]
pub struct SessionPutArgs {
    pub key_expr: String,
    pub payload: Vec<u8>,
    pub encoding: String,
    pub congestion_control: i32,
    pub priority: i32,
    pub express: bool,
    pub attachment: Vec<u8>,
    pub timestamp: String,
    pub allowed_destination: i32,
}

/// Every field of `a` is empty, zero or false.
pub open spec fn is_default_session_put(a: SessionPutArgs) -> bool {
    &&& a.key_expr@.len() == 0
    &&& a.payload@.len() == 0
    &&& a.encoding@.len() == 0
    &&& a.congestion_control == 0
    &&& a.priority == 0
    &&& !a.express
    &&& a.attachment@.len() == 0
    &&& a.timestamp@.len() == 0
    &&& a.allowed_destination == 0
}

impl Default for SessionPutArgs {
    fn default() -> (r: Self)
        ensures
            is_default_session_put(r),
    {
        SessionPutArgs {
            key_expr: String::new(),
            payload: Vec::new(),
            encoding: String::new(),
            congestion_control: 0,
            priority: 0,
            express: false,
            attachment: Vec::new(),
            timestamp: String::new(),
            allowed_destination: 0,
        }
    }
}

/// Arguments of a session-level delete.
#[derive(Debug, Clone)]
pub struct SessionDeleteArgs {
    pub key_expr: String,
    pub congestion_control: i32,
    pub priority: i32,
    pub express: bool,
    pub attachment: Vec<u8>,
    pub timestamp: String,
    pub allowed_destination: i32,
}

/// Every field of `a` is empty, zero or false.
pub open spec fn is_default_session_delete(a: SessionDeleteArgs) -> bool {
    &&& a.key_expr@.len() == 0
    &&& a.congestion_control == 0
    &&& a.priority == 0
    &&& !a.express
    &&& a.attachment@.len() == 0
    &&& a.timestamp@.len() == 0
    &&& a.allowed_destination == 0
}

impl Default for SessionDeleteArgs {
    fn default() -> (r: Self)
        ensures
            is_default_session_delete(r),
    {
        SessionDeleteArgs {
            key_expr: String::new(),
            congestion_control: 0,
            priority: 0,
            express: false,
            attachment: Vec::new(),
            timestamp: String::new(),
            allowed_destination: 0,
        }
    }
}

/// Arguments of a session-level get.
#[derive(Debug, Clone)]
pub struct SessionGetArgs {
    pub selector: String,
    pub target: i32,
    pub consolidation: i32,
    pub timeout_ms: u64,
    pub payload: Vec<u8>,
    pub encoding: String,
    pub attachment: Vec<u8>,
    pub allowed_destination: i32,
}

/// Every field of `a` is empty, zero or false.
pub open spec fn is_default_session_get(a: SessionGetArgs) -> bool {
    &&& a.selector@.len() == 0
    &&& a.target == 0
    &&& a.consolidation == 0
    &&& a.timeout_ms == 0
    &&& a.payload@.len() == 0
    &&& a.encoding@.len() == 0
    &&& a.attachment@.len() == 0
    &&& a.allowed_destination == 0
}

impl Default for SessionGetArgs {
    fn default() -> (r: Self)
        ensures
            is_default_session_get(r),
    {
        SessionGetArgs {
            selector: String::new(),
            target: 0,
            consolidation: 0,
            timeout_ms: 0,
            payload: Vec::new(),
            encoding: String::new(),
            attachment: Vec::new(),
            allowed_destination: 0,
        }
    }
}

/// Arguments of a publisher declaration.
#[derive(Debug, Clone)]
pub struct DeclarePublisherArgs {
    pub key_expr: String,
    pub encoding: String,
    pub congestion_control: i32,
    pub priority: i32,
    pub express: bool,
    pub reliability: i32,
    pub allowed_destination: i32,
}

/// Every field of `a` is empty, zero or false.
pub open spec fn is_default_declare_publisher(a: DeclarePublisherArgs) -> bool {
    &&& a.key_expr@.len() == 0
    &&& a.encoding@.len() == 0
    &&& a.congestion_control == 0
    &&& a.priority == 0
    &&& !a.express
    &&& a.reliability == 0
    &&& a.allowed_destination == 0
}

impl Default for DeclarePublisherArgs {
    fn default() -> (r: Self)
        ensures
            is_default_declare_publisher(r),
    {
        DeclarePublisherArgs {
            key_expr: String::new(),
            encoding: String::new(),
            congestion_control: 0,
            priority: 0,
            express: false,
            reliability: 0,
            allowed_destination: 0,
        }
    }
}

/// Arguments of a subscriber declaration.
#[derive(Debug, Clone)]
pub struct DeclareSubscriberArgs {
    pub key_expr: String,
    pub allowed_origin: i32,
}

/// Every field of `a` is empty, zero or false.
pub open spec fn is_default_declare_subscriber(a: DeclareSubscriberArgs) -> bool {
    &&& a.key_expr@.len() == 0
    &&& a.allowed_origin == 0
}

impl Default for DeclareSubscriberArgs {
    fn default() -> (r: Self)
        ensures
            is_default_declare_subscriber(r),
    {
        DeclareSubscriberArgs {
            key_expr: String::new(),
            allowed_origin: 0,
        }
    }
}

/// Arguments of a queryable declaration.
#[derive(Debug, Clone)]
pub struct DeclareQueryableArgs {
    pub key_expr: String,
    pub complete: bool,
    pub allowed_origin: i32,
}

/// Every field of `a` is empty, zero or false.
pub open spec fn is_default_declare_queryable(a: DeclareQueryableArgs) -> bool {
    &&& a.key_expr@.len() == 0
    &&& !a.complete
    &&& a.allowed_origin == 0
}

impl Default for DeclareQueryableArgs {
    fn default() -> (r: Self)
        ensures
            is_default_declare_queryable(r),
    {
        DeclareQueryableArgs {
            key_expr: String::new(),
            complete: false,
            allowed_origin: 0,
        }
    }
}

/// Arguments of a querier declaration.
#[derive(Debug, Clone)]
pub struct DeclareQuerierArgs {
    pub key_expr: String,
    pub target: i32,
    pub consolidation: i32,
    pub timeout_ms: u64,
    pub allowed_destination: i32,
}

/// Every field of `a` is empty, zero or false.
pub open spec fn is_default_declare_querier(a: DeclareQuerierArgs) -> bool {
    &&& a.key_expr@.len() == 0
    &&& a.target == 0
    &&& a.consolidation == 0
    &&& a.timeout_ms == 0
    &&& a.allowed_destination == 0
}

impl Default for DeclareQuerierArgs {
    fn default() -> (r: Self)
        ensures
            is_default_declare_querier(r),
    {
        DeclareQuerierArgs {
            key_expr: String::new(),
            target: 0,
            consolidation: 0,
            timeout_ms: 0,
            allowed_destination: 0,
        }
    }
}

/// Arguments of a put through a declared publisher.
#[derive(Debug, Clone)]
pub struct PublisherPutArgs {
    pub payload: Vec<u8>,
    pub encoding: String,
    pub attachment: Vec<u8>,
    pub timestamp: String,
}

/// Every field of `a` is empty, zero or false.
pub open spec fn is_default_publisher_put(a: PublisherPutArgs) -> bool {
    &&& a.payload@.len() == 0
    &&& a.encoding@.len() == 0
    &&& a.attachment@.len() == 0
    &&& a.timestamp@.len() == 0
}

impl Default for PublisherPutArgs {
    fn default() -> (r: Self)
        ensures
            is_default_publisher_put(r),
    {
        PublisherPutArgs {
            payload: Vec::new(),
            encoding: String::new(),
            attachment: Vec::new(),
            timestamp: String::new(),
        }
    }
}

/// Arguments of a delete through a declared publisher.
#[derive(Debug, Clone)]
pub struct PublisherDeleteArgs {
    pub attachment: Vec<u8>,
    pub timestamp: String,
}

/// Every field of `a` is empty, zero or false.
pub open spec fn is_default_publisher_delete(a: PublisherDeleteArgs) -> bool {
    &&& a.attachment@.len() == 0
    &&& a.timestamp@.len() == 0
}

impl Default for PublisherDeleteArgs {
    fn default() -> (r: Self)
        ensures
            is_default_publisher_delete(r),
    {
        PublisherDeleteArgs {
            attachment: Vec::new(),
            timestamp: String::new(),
        }
    }
}

/// Arguments of a reply to a query.
#[derive(Debug, Clone)]
pub struct QueryReplyArgs {
    pub query_id: u64,
    pub key_expr: String,
    pub payload: Vec<u8>,
    pub encoding: String,
    pub attachment: Vec<u8>,
    pub timestamp: String,
}

/// Every field of `a` is empty, zero or false.
pub open spec fn is_default_query_reply(a: QueryReplyArgs) -> bool {
    &&& a.query_id == 0
    &&& a.key_expr@.len() == 0
    &&& a.payload@.len() == 0
    &&& a.encoding@.len() == 0
    &&& a.attachment@.len() == 0
    &&& a.timestamp@.len() == 0
}

impl Default for QueryReplyArgs {
    fn default() -> (r: Self)
        ensures
            is_default_query_reply(r),
    {
        QueryReplyArgs {
            query_id: 0,
            key_expr: String::new(),
            payload: Vec::new(),
            encoding: String::new(),
            attachment: Vec::new(),
            timestamp: String::new(),
        }
    }
}

/// Arguments of an error reply to a query.
#[derive(Debug, Clone)]
pub struct QueryReplyErrArgs {
    pub query_id: u64,
    pub payload: Vec<u8>,
    pub encoding: String,
}

/// Every field of `a` is empty, zero or false.
pub open spec fn is_default_query_reply_err(a: QueryReplyErrArgs) -> bool {
    &&& a.query_id == 0
    &&& a.payload@.len() == 0
    &&& a.encoding@.len() == 0
}

impl Default for QueryReplyErrArgs {
    fn default() -> (r: Self)
        ensures
            is_default_query_reply_err(r),
    {
        QueryReplyErrArgs {
            query_id: 0,
            payload: Vec::new(),
            encoding: String::new(),
        }
    }
}

/// Arguments of a delete reply to a query.
#[derive(Debug, Clone)]
pub struct QueryReplyDeleteArgs {
    pub query_id: u64,
    pub key_expr: String,
    pub attachment: Vec<u8>,
    pub timestamp: String,
}

/// Every field of `a` is empty, zero or false.
pub open spec fn is_default_query_reply_delete(a: QueryReplyDeleteArgs) -> bool {
    &&& a.query_id == 0
    &&& a.key_expr@.len() == 0
    &&& a.attachment@.len() == 0
    &&& a.timestamp@.len() == 0
}

impl Default for QueryReplyDeleteArgs {
    fn default() -> (r: Self)
        ensures
            is_default_query_reply_delete(r),
    {
        QueryReplyDeleteArgs {
            query_id: 0,
            key_expr: String::new(),
            attachment: Vec::new(),
            timestamp: String::new(),
        }
    }
}

/// Arguments of a get through a declared querier.
#[derive(Debug, Clone)]
pub struct QuerierGetArgs {
    pub parameters: String,
    pub payload: Vec<u8>,
    pub encoding: String,
    pub attachment: Vec<u8>,
}

/// Every field of `a` is empty, zero or false.
pub open spec fn is_default_querier_get(a: QuerierGetArgs) -> bool {
    &&& a.parameters@.len() == 0
    &&& a.payload@.len() == 0
    &&& a.encoding@.len() == 0
    &&& a.attachment@.len() == 0
}

impl Default for QuerierGetArgs {
    fn default() -> (r: Self)
        ensures
            is_default_querier_get(r),
    {
        QuerierGetArgs {
            parameters: String::new(),
            payload: Vec::new(),
            encoding: String::new(),
            attachment: Vec::new(),
        }
    }
}

} // verus!
