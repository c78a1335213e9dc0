use vstd::prelude::*;

use crate::rpc::{decimal_string, decimal_text, RpcError, MISC_ERROR_CODE, PARSE_ERROR_CODE};
use crate::hex_bytes::{hex_decoding, is_hex_text};
use crate::util::StrCompat;

verus! {

pub const HTTP_BAD_REQUEST: u16 = 400;

pub const HTTP_UNAUTHORIZED: u16 = 401;

pub const HTTP_NOT_FOUND: u16 = 404;

pub const HTTP_METHOD_NOT_ALLOWED: u16 = 405;

pub const ONLY_POST_MESSAGE: &'static str = "JSONRPC server handles only POST requests";

pub const NOT_FOUND_MESSAGE: &'static str = "Not Found";

pub const UNAUTHORIZED_MESSAGE: &'static str = "Unauthorized";

pub const UNKNOWN_VERBOSITY_PREFIX: &'static str = "unknown verbosity: ";

pub const WALLET_PREFIX: &'static str = "/wallet/";

/// The detail level of a `getblock` answer.
#[derive(Clone, Copy, Debug, PartialEq, Eq)]
pub enum Verbosity {
    /// The consensus-encoded block as hexadecimal text.
    Hex,
    /// Header fields, sizes and the transaction ids.
    Summary,
    /// Header fields, sizes and the decoded transactions.
    Full,
}

/// The level that a `getblock` parameter asks for, if it is one of 0, 1, 2;
/// an absent parameter means 1.
pub open spec fn verbosity_of(v: Option<u64>) -> Option<Verbosity> {
    match v {
        None => Some(Verbosity::Summary),
        Some(0) => Some(Verbosity::Hex),
        Some(1) => Some(Verbosity::Summary),
        Some(2) => Some(Verbosity::Full),
        Some(_) => None,
    }
}

impl Verbosity {
    /// Reads the verbosity parameter of `getblock`.
    pub fn from_param(v: Option<u64>) -> (r: Result<Verbosity, RpcError>)
        ensures
            r is Ok <==> verbosity_of(v) is Some,
            r matches Ok(level) ==> verbosity_of(v) == Some(level),
            r matches Err(e) ==> e.code == MISC_ERROR_CODE && e.status is None && e.message@
                == UNKNOWN_VERBOSITY_PREFIX@ + decimal_text(v->Some_0 as nat),
    {
        match v {
            None => Ok(Verbosity::Summary),
            Some(0) => Ok(Verbosity::Hex),
            Some(1) => Ok(Verbosity::Summary),
            Some(2) => Ok(Verbosity::Full),
            Some(n) => {
                let digits = decimal_string(n);
                let message = String::from_str(UNKNOWN_VERBOSITY_PREFIX).concat(digits.as_str());
                Err(RpcError::misc(message))
            },
        }
    }
}

/// The paths the proxy serves: `/`, the empty path, and `/wallet/...`.
pub open spec fn path_accepted(p: Seq<char>) -> bool {
    ||| p.len() == 0
    ||| p == "/"@
    ||| (p.len() >= WALLET_PREFIX@.len() && p.subrange(0, WALLET_PREFIX@.len() as int)
        == WALLET_PREFIX@)
}

pub fn is_accepted_path(path: &str) -> (r: bool)
    ensures
        r == path_accepted(path@),
{
    if path.unicode_len() == 0 {
        return true;
    }
    let slash = "/";
    if let Some(rest) = StrCompat::strip_prefix(path, slash) {
        if rest.unicode_len() == 0 {
            assert(path@ =~= path@.subrange(0, slash@.len() as int));
            return true;
        }
    }
    let r = StrCompat::strip_prefix(path, WALLET_PREFIX).is_some();
    proof {
        if path@ == slash@ {
            assert(path@.subrange(0, slash@.len() as int) =~= path@);
        }
    }
    r
}

/// The bytes of a block hash written as the node writes it: 64 hexadecimal
/// digits, the last byte first.
pub open spec fn block_hash_of(s: Seq<char>) -> Option<Seq<u8>> {
    if is_hex_text(s) && s.len() == 64 {
        Some(hex_decoding(s).reverse())
    } else {
        None
    }
}

/// Relies on BlockHash's FromStr (bitcoin_hashes): it takes 64 hexadecimal
/// digits of either case and reverses the byte order.
#[verifier::external_body]
fn parse_block_hash(s: &str) -> (r: Option<[u8; 32]>)
    ensures
        r is Some <==> block_hash_of(s@) is Some,
        r matches Some(h) ==> block_hash_of(s@) == Some(h@),
{
    s.parse::<bitcoin::BlockHash>().ok().map(bitcoin::hashes::Hash::to_byte_array)
}

/// A `getblock` call taken out of a request body.
#[derive(Clone, Debug)]
pub struct GetBlockCall {
    /// The request's id as JSON text; absent on a notification.
    pub id: Option<String>,
    /// The first parameter, as it was written.
    pub block_hash: String,
    pub verbosity: Option<u64>,
}

/// What a request body turned out to be, as far as the proxy cares.
#[derive(Clone, Debug)]
pub enum RequestBody {
    /// Anything but a well-formed `getblock` call: a batch, another method,
    /// text that is not JSON.
    Other,
    /// A `getblock` call.
    GetBlock(GetBlockCall),
    /// A `getblock` call whose parameters are missing or malformed.
    BadGetBlock(String),
}

/// An incoming HTTP request, as far as routing needs it.
#[derive(Clone, Debug)]
pub struct IncomingRequest {
    pub is_post: bool,
    pub path: String,
    pub has_auth: bool,
    pub body: Vec<u8>,
    pub parsed: RequestBody,
}

/// What to do with an incoming request.
#[derive(Clone, Debug)]
pub enum Route {
    /// Answer at once with this HTTP status and plain-text body; a 401 carries
    /// a `WWW-Authenticate` challenge.
    Reject { status: u16, message: String },
    /// Send these bytes to the upstream node unchanged, on the same path.
    Forward { body: Vec<u8> },
    /// Serve the block from peers.
    GetBlock { id: Option<String>, block_hash: [u8; 32], verbosity: Verbosity },
    /// Answer with this JSON-RPC error.
    Fail(RpcError),
}

/// The kind of a route, with the HTTP status of a rejection and the level of
/// a block request.
#[derive(Clone, Copy, Debug, PartialEq, Eq)]
pub enum Decision {
    Reject(u16),
    Forward,
    GetBlock(Verbosity),
    Fail,
}

/// The decision taken on a request, over its model.
pub open spec fn decision_of(req: IncomingRequest) -> Decision {
    if !req.is_post {
        Decision::Reject(HTTP_METHOD_NOT_ALLOWED)
    } else if !path_accepted(req.path@) {
        Decision::Reject(HTTP_NOT_FOUND)
    } else if !req.has_auth {
        Decision::Reject(HTTP_UNAUTHORIZED)
    } else {
        match req.parsed {
            RequestBody::Other => Decision::Forward,
            RequestBody::BadGetBlock(_) => Decision::Fail,
            RequestBody::GetBlock(call) => if block_hash_of(call.block_hash@) is None {
                Decision::Forward
            } else {
                match verbosity_of(call.verbosity) {
                    Some(v) => Decision::GetBlock(v),
                    None => Decision::Fail,
                }
            },
        }
    }
}

/// The kind of a route.
pub open spec fn decision(r: Route) -> Decision {
    match r {
        Route::Reject { status, .. } => Decision::Reject(status),
        Route::Forward { .. } => Decision::Forward,
        Route::GetBlock { verbosity, .. } => Decision::GetBlock(verbosity),
        Route::Fail(_) => Decision::Fail,
    }
}

/// Decides what to do with a request: reject it, forward it, or serve a block.
/// A `getblock` call whose hash does not read is left to the node.
pub fn route(req: IncomingRequest) -> (r: Route)
    ensures
        decision(r) == decision_of(req),
        r matches Route::Forward { body } ==> body@ == req.body@,
        r matches Route::GetBlock { id, block_hash, .. } ==> req.parsed matches RequestBody::GetBlock(
            call,
        ) && id == call.id && block_hash_of(call.block_hash@) == Some(block_hash@),
        r matches Route::Reject { status, message } ==> message@ == (if status
            == HTTP_METHOD_NOT_ALLOWED {
            ONLY_POST_MESSAGE@
        } else if status == HTTP_NOT_FOUND {
            NOT_FOUND_MESSAGE@
        } else {
            UNAUTHORIZED_MESSAGE@
        }),
        r matches Route::Fail(e) ==> (match req.parsed {
            RequestBody::BadGetBlock(detail) => e.code == PARSE_ERROR_CODE && e.message@
                == detail@ && e.status == Some(HTTP_BAD_REQUEST),
            RequestBody::GetBlock(call) => e.code == MISC_ERROR_CODE && e.message@
                == UNKNOWN_VERBOSITY_PREFIX@ + decimal_text(call.verbosity->Some_0 as nat)
                && e.status is None,
            RequestBody::Other => false,
        }),
{
    if !req.is_post {
        return Route::Reject {
            status: HTTP_METHOD_NOT_ALLOWED,
            message: String::from_str(ONLY_POST_MESSAGE),
        };
    }
    if !is_accepted_path(req.path.as_str()) {
        return Route::Reject { status: HTTP_NOT_FOUND, message: String::from_str(NOT_FOUND_MESSAGE) };
    }
    if !req.has_auth {
        return Route::Reject {
            status: HTTP_UNAUTHORIZED,
            message: String::from_str(UNAUTHORIZED_MESSAGE),
        };
    }
    match req.parsed {
        RequestBody::Other => Route::Forward { body: req.body },
        RequestBody::BadGetBlock(detail) => {
            let e = RpcError::parse(detail);
            Route::Fail(RpcError { code: e.code, message: e.message, status: Some(HTTP_BAD_REQUEST) })
        },
        RequestBody::GetBlock(call) => match parse_block_hash(call.block_hash.as_str()) {
            None => Route::Forward { body: req.body },
            Some(block_hash) => match Verbosity::from_param(call.verbosity) {
                Ok(v) => Route::GetBlock { id: call.id, block_hash, verbosity: v },
                Err(e) => Route::Fail(e),
            },
        },
    }
}

/// Every request that the proxy serves and that is not a `getblock` call (a
/// batch, another method, text that is not JSON) is decided to be forwarded
/// to the node. That the bytes forwarded are the very bytes that came in is
/// `route`'s own guarantee.
pub proof fn lemma_passthrough_is_verbatim(req: IncomingRequest)
    requires
        req.is_post,
        path_accepted(req.path@),
        req.has_auth,
        req.parsed is Other,
    ensures
        decision_of(req) == Decision::Forward,
{
}

} // verus!
