use vstd::prelude::*;
use vstd::utf8::{decode_utf8, valid_utf8};

verus! {

pub const MISC_ERROR_CODE: i64 = -1;

pub const METHOD_NOT_ALLOWED_ERROR_CODE: i64 = -32604;

pub const PARSE_ERROR_CODE: i64 = -32700;

pub const METHOD_NOT_ALLOWED_ERROR_MESSAGE: &'static str = "Method not allowed";

pub const PRUNE_ERROR_MESSAGE: &'static str = "Block not available (pruned data)";

pub const HTTP_OK: u16 = 200;

pub const TRANSPORT_PREFIX: &'static str = "HTTP request to the node failed: ";

pub const STATUS_PREFIX: &'static str = "HTTP response (status: ";

pub const METHOD_INFIX: &'static str = ") to method ";

pub const NOT_JSON_INFIX: &'static str = " can't be parsed as json, body: ";

pub const NOT_UTF8_SUFFIX: &'static str = " is not UTF-8";

pub const HTTP_INTERNAL_SERVER_ERROR: u16 = 500;

/// The name of a JSON-RPC method that is forwarded without being understood.
#[derive(Clone, Debug)]
pub struct GenericRpcMethod(pub String);

impl GenericRpcMethod {
    pub fn as_str(&self) -> (r: &str)
        ensures
            r@ == self.0@,
    {
        self.0.as_str()
    }
}

/// The decimal digit for a value below 10.
pub open spec fn decimal_digit(n: int) -> char {
    seq!['0', '1', '2', '3', '4', '5', '6', '7', '8', '9'][n]
}

/// The decimal text of a natural number, without leading zeros.
pub open spec fn decimal_text(n: nat) -> Seq<char>
    decreases n,
{
    if n < 10 {
        seq![decimal_digit(n as int)]
    } else {
        decimal_text(n / 10).push(decimal_digit((n % 10) as int))
    }
}

/// The one-character text of a decimal digit.
fn digit_text(d: u64) -> (r: &'static str)
    requires
        d < 10,
    ensures
        r@ == seq![decimal_digit(d as int)],
{
    proof {
        reveal_strlit("0");
        reveal_strlit("1");
        reveal_strlit("2");
        reveal_strlit("3");
        reveal_strlit("4");
        reveal_strlit("5");
        reveal_strlit("6");
        reveal_strlit("7");
        reveal_strlit("8");
        reveal_strlit("9");
    }
    let r = match d {
        0 => "0",
        1 => "1",
        2 => "2",
        3 => "3",
        4 => "4",
        5 => "5",
        6 => "6",
        7 => "7",
        8 => "8",
        _ => "9",
    };
    assert(r@ =~= seq![decimal_digit(d as int)]);
    r
}

/// The decimal digits of a number, no sign, no leading zeros.
pub(crate) fn decimal_string(v: u64) -> (r: String)
    ensures
        r@ == decimal_text(v as nat),
    decreases v,
{
    if v < 10 {
        String::from_str(digit_text(v))
    } else {
        let head = decimal_string(v / 10);
        let r = head.concat(digit_text(v % 10));
        assert(r@ =~= decimal_text(v as nat));
        r
    }
}

/// A JSON-RPC error object, with the HTTP status that carries it.
#[derive(Clone, Debug)]
pub struct RpcError {
    pub code: i64,
    pub message: String,
    pub status: Option<u16>,
}

impl RpcError {
    /// An error of the general kind, code -1.
    pub fn misc(message: String) -> (r: RpcError)
        ensures
            r.code == MISC_ERROR_CODE,
            r.message@ == message@,
            r.status is None,
    {
        RpcError { code: MISC_ERROR_CODE, message, status: None }
    }

    /// An error in reading JSON, code -32700.
    pub fn parse(message: String) -> (r: RpcError)
        ensures
            r.code == PARSE_ERROR_CODE,
            r.message@ == message@,
            r.status is None,
    {
        RpcError { code: PARSE_ERROR_CODE, message, status: None }
    }

    /// What is reported when no peer could hand over a block.
    pub fn pruned() -> (r: RpcError)
        ensures
            r.code == MISC_ERROR_CODE,
            r.message@ == PRUNE_ERROR_MESSAGE@,
            r.status is None,
    {
        RpcError::misc(String::from_str(PRUNE_ERROR_MESSAGE))
    }

    /// The HTTP status for this error: the one stapled to it, else 500.
    pub fn http_status(&self) -> (r: u16)
        ensures
            r == match self.status {
                Some(s) => s,
                None => HTTP_INTERNAL_SERVER_ERROR,
            },
    {
        match self.status {
            Some(s) => s,
            None => HTTP_INTERNAL_SERVER_ERROR,
        }
    }
}

/// A JSON-RPC response: an id, and a result or an error.
#[derive(Clone, Debug)]
pub struct RpcResponse<R> {
    pub id: Option<String>,
    pub error: Option<RpcError>,
    pub result: Option<R>,
}

impl<R> RpcResponse<R> {
    pub fn success(id: Option<String>, result: R) -> (r: RpcResponse<R>)
        ensures
            r.id == id,
            r.error is None,
            r.result == Some(result),
    {
        RpcResponse { id, error: None, result: Some(result) }
    }

    pub fn from_error(e: RpcError) -> (r: RpcResponse<R>)
        ensures
            r.id is None,
            r.error == Some(e),
            r.result is None,
    {
        RpcResponse { id: None, error: Some(e), result: None }
    }

    /// The error if there is one; else the result, which a response may leave out.
    pub fn into_result(self) -> (r: Result<Option<R>, RpcError>)
        ensures
            match self.error {
                Some(e) => r == Err::<Option<R>, RpcError>(e),
                None => r == Ok::<Option<R>, RpcError>(self.result),
            },
    {
        match self.error {
            Some(e) => Err(e),
            None => Ok(self.result),
        }
    }

    /// The HTTP status that goes with this response: 200 on success, else the
    /// status stapled to the error, else 500.
    pub fn status_code(&self) -> (r: u16)
        ensures
            r == match self.error {
                None => HTTP_OK,
                Some(e) => match e.status {
                    Some(s) => s,
                    None => HTTP_INTERNAL_SERVER_ERROR,
                },
            },
    {
        match &self.error {
            None => HTTP_OK,
            Some(e) => e.http_status(),
        }
    }

    /// Attaches the upstream HTTP status to the error, if any.
    pub fn staple_status(&mut self, status: u16)
        ensures
            final(self).id == old(self).id,
            final(self).result == old(self).result,
            match old(self).error {
                None => final(self).error is None,
                Some(e) => final(self).error == Some(
                    RpcError { code: e.code, message: e.message, status: Some(status) },
                ),
            },
    {
        match &mut self.error {
            Some(e) => {
                e.status = Some(status);
            },
            None => {},
        }
    }
}

/// Relies on String::from_utf8: it accepts exactly the valid UTF-8 byte strings.
#[verifier::external_body]
fn utf8_text(b: &[u8]) -> (r: Option<String>)
    ensures
        r is Some <==> valid_utf8(b@),
        r matches Some(s) ==> s@ == decode_utf8(b@),
{
    String::from_utf8(b.to_vec()).ok()
}

/// Why a call to the upstream node failed.
#[derive(Clone, Debug)]
pub enum ClientError {
    /// The request could not be sent, or no response came.
    Transport { detail: String },
    /// The response is text, but not the JSON that was expected.
    ParseResponseUtf8 { method: String, status: u16, body: String, detail: String },
    /// The response is not UTF-8 text.
    ResponseNotUtf8 { method: String, status: u16 },
}

impl ClientError {
    /// The error for a response body that did not parse.
    pub fn unparsed_body(method: &str, status: u16, body: &[u8], detail: String) -> (r:
        ClientError)
        ensures
            valid_utf8(body@) ==> r == (ClientError::ParseResponseUtf8 {
                method: r->ParseResponseUtf8_method,
                status,
                body: r->ParseResponseUtf8_body,
                detail,
            }) && r->ParseResponseUtf8_method@ == method@ && r->ParseResponseUtf8_body@
                == decode_utf8(body@),
            !valid_utf8(body@) ==> r is ResponseNotUtf8 && r->ResponseNotUtf8_method@ == method@
                && r->ResponseNotUtf8_status == status,
    {
        match utf8_text(body) {
            Some(text) => ClientError::ParseResponseUtf8 {
                method: String::from_str(method),
                status,
                body: text,
                detail,
            },
            None => ClientError::ResponseNotUtf8 { method: String::from_str(method), status },
        }
    }
}

impl ClientError {
    pub open spec fn message_of(&self) -> Seq<char> {
        match self {
            ClientError::Transport { detail } => TRANSPORT_PREFIX@ + detail@,
            ClientError::ParseResponseUtf8 { method, status, body, .. } => STATUS_PREFIX@
                + decimal_text(*status as nat) + METHOD_INFIX@ + method@ + NOT_JSON_INFIX@
                + body@,
            ClientError::ResponseNotUtf8 { method, status } => STATUS_PREFIX@ + decimal_text(
                *status as nat,
            ) + METHOD_INFIX@ + method@ + NOT_UTF8_SUFFIX@,
        }
    }

    /// The text that reports this error.
    pub fn message(&self) -> (r: String)
        ensures
            r@ == self.message_of(),
    {
        match self {
            ClientError::Transport { detail } => String::from_str(TRANSPORT_PREFIX).concat(
                detail.as_str(),
            ),
            ClientError::ParseResponseUtf8 { method, status, body, .. } => {
                let code = decimal_string(*status as u64);
                String::from_str(STATUS_PREFIX).concat(code.as_str()).concat(METHOD_INFIX).concat(
                    method.as_str(),
                ).concat(NOT_JSON_INFIX).concat(body.as_str())
            },
            ClientError::ResponseNotUtf8 { method, status } => {
                let code = decimal_string(*status as u64);
                String::from_str(STATUS_PREFIX).concat(code.as_str()).concat(METHOD_INFIX).concat(
                    method.as_str(),
                ).concat(NOT_UTF8_SUFFIX)
            },
        }
    }

    /// The JSON-RPC error that reports a failed upstream call: code -1.
    pub fn into_rpc_error(&self) -> (r: RpcError)
        ensures
            r.code == MISC_ERROR_CODE,
            r.message@ == self.message_of(),
            r.status is None,
    {
        RpcError::misc(self.message())
    }
}

} // verus!
