//! The stages of a call of the weather tool.
//!
//! The host runs a call as a sequence: `WeatherAPIRouter::begin_call_tool`
//! validates the request; when it asks for the credential, the host resolves
//! it and hands it to `weather_request`, which builds the outbound request; the host sends
//! it and hands the outcome to `check_response`; on success it reads the body
//! into a `ResponseBody` chunk by chunk, and `into_tool_result` gives the
//! final answer. Every stage can end the call; none retries.
use vstd::prelude::*;

use crate::arguments::{json_string_member, string_member};
use crate::catalog::{WeatherAPIRouter, TOOL_NAME, WEATHER_API_KEY};
use crate::model::{CallToolResult, Content, TextContent, ToolError, Value};
use crate::percent::{
    encode_byte, is_unreserved, lemma_decode_encode, percent_decode, percent_encode, url_encode,
};
use vstd::utf8::*;

verus! {

/// The argument that names the place to look up.
pub const LOCATION_ARGUMENT: &'static str = "location";

/// The text of the soft error given for an empty location.
pub const EMPTY_LOCATION_TEXT: &'static str = "you need to provide a location";

/// What happens after the first stage of a call.
#[derive(Debug)]
pub enum CallStep {
    /// The call is over, with this outcome.
    Finished(Result<CallToolResult, ToolError>),
    /// The call goes on once the secret `secret_name` is revealed; the
    /// weather at `location` is to be fetched with it.
    ResolveSecret { secret_name: String, location: String },
}

impl ToolError {
    pub open spec fn message(self) -> Seq<char> {
        match self {
            ToolError::InvalidParameters(m) => m@,
            ToolError::ExecutionError(m) => m@,
            ToolError::NotFound(m) => m@,
        }
    }
}

/// `res` holds exactly one text item, `text`, without annotations, and is
/// flagged `is_error`.
pub open spec fn is_text_result(res: CallToolResult, text: Seq<char>, is_error: bool) -> bool {
    &&& res.content@.len() == 1
    &&& match res.content@[0] {
        Content::Text(t) => t.text@ == text && t.annotations is None,
    }
    &&& res.is_error == Some(is_error)
}

pub open spec fn tool_not_found_message(name: Seq<char>) -> Seq<char> {
    "Tool "@ + name + " not found"@
}

pub open spec fn unreadable_arguments_message(json: Seq<char>) -> Seq<char> {
    "Could not read the json arguments: "@ + json
}

pub open spec fn missing_location_message() -> Seq<char> {
    "The location argument is missing or is not a string"@
}

/// `r` is the step that the lookup of the location in the arguments `json`
/// calls for (`lookup` is as `json_string_member` describes it).
pub open spec fn follows_lookup(r: CallStep, json: Seq<char>, lookup: Option<Option<Seq<char>>>) -> bool {
    match lookup {
        None => r is Finished && r->Finished_0 is Err && r->Finished_0->Err_0 is InvalidParameters
            && r->Finished_0->Err_0.message() == unreadable_arguments_message(json),
        Some(None) => r is Finished && r->Finished_0 is Err
            && r->Finished_0->Err_0 is InvalidParameters
            && r->Finished_0->Err_0.message() == missing_location_message(),
        Some(Some(location)) => if location.len() == 0 {
            r is Finished && r->Finished_0 is Ok && is_text_result(
                r->Finished_0->Ok_0,
                EMPTY_LOCATION_TEXT@,
                true,
            )
        } else {
            r is ResolveSecret && r->secret_name@ == WEATHER_API_KEY@ && r->location@ == location
        },
    }
}

/// A result with one text item.
fn text_result(text: String, is_error: bool) -> (r: CallToolResult)
    ensures
        is_text_result(r, text@, is_error),
{
    let item = Content::Text(TextContent { text, annotations: None });
    let content = vec![item];
    CallToolResult { content, is_error: Some(is_error) }
}

impl WeatherAPIRouter {
    /// The first stage of a call: checks the tool's name and its arguments.
    ///
    /// An unknown tool, arguments that are not JSON, and a location that is
    /// missing or not a string end the call with an error. An empty location
    /// ends it with a result that reports the problem as content. Any other
    /// location goes on to the credential.
    pub fn begin_call_tool(tool_name: String, arguments: Value) -> (r: CallStep)
        ensures
            tool_name@ != TOOL_NAME@ ==> r is Finished && r->Finished_0 is Err
                && r->Finished_0->Err_0 is NotFound
                && r->Finished_0->Err_0.message() == tool_not_found_message(tool_name@),
            tool_name@ == TOOL_NAME@ ==> follows_lookup(
                r,
                arguments.json@,
                json_string_member(arguments.json@, LOCATION_ARGUMENT@),
            ),
    {
        if tool_name != String::from_str(TOOL_NAME) {
            let mut message = String::from_str("Tool ");
            message.append(tool_name.as_str());
            message.append(" not found");
            return CallStep::Finished(Err(ToolError::NotFound(message)));
        }
        let lookup = string_member(arguments.json.as_str(), LOCATION_ARGUMENT);
        WeatherAPIRouter::continue_with_location(&arguments, lookup)
    }

    /// What follows the lookup of the location in the arguments (see
    /// `json_string_member`): arguments that are not JSON, and a location
    /// that is missing or not a string, end the call with an error; an empty
    /// location ends it with a result that reports the problem as content;
    /// any other location goes on to the credential.
    pub fn continue_with_location(arguments: &Value, lookup: Option<Option<String>>) -> (r: CallStep)
        ensures
            follows_lookup(
                r,
                arguments.json@,
                match lookup {
                    None => None,
                    Some(None) => Some(None),
                    Some(Some(s)) => Some(Some(s@)),
                },
            ),
    {
        match lookup {
            None => {
                let mut message = String::from_str("Could not read the json arguments: ");
                message.append(arguments.json.as_str());
                CallStep::Finished(Err(ToolError::InvalidParameters(message)))
            },
            Some(None) => {
                let message = String::from_str("The location argument is missing or is not a string");
                CallStep::Finished(Err(ToolError::InvalidParameters(message)))
            },
            Some(Some(location)) => {
                if location.as_str().is_empty() {
                    CallStep::Finished(Ok(text_result(String::from_str(EMPTY_LOCATION_TEXT), true)))
                } else {
                    CallStep::ResolveSecret { secret_name: String::from_str(WEATHER_API_KEY), location }
                }
            },
        }
    }
}

/// The host that serves the current weather.
pub const WEATHER_AUTHORITY: &'static str = "api.weatherapi.com";

/// The path of the current-weather endpoint, up to the key's value.
pub const CURRENT_WEATHER_PATH: &'static str = "/v1/current.json?key=";

/// What separates the key from the location in the query.
pub const LOCATION_PARAMETER: &'static str = "&q=";

/// The digits of decimal notation, in order.
pub const DECIMAL_DIGITS: &'static str = "0123456789";

#[derive(Clone, Copy, Debug, PartialEq, Eq, Structural)]
pub enum Scheme {
    Http,
    Https,
}

/// A request for the host to send.
#[derive(Clone, Debug, PartialEq)]
pub struct OutgoingRequest {
    pub scheme: Scheme,
    pub authority: String,
    pub path_with_query: String,
}

/// The path and query of a request for the weather at `location`: the key
/// as it is, the location percent-encoded.
pub open spec fn request_path(key: Seq<char>, location: Seq<char>) -> Seq<char> {
    CURRENT_WEATHER_PATH@ + key + LOCATION_PARAMETER@ + percent_encode(encode_utf8(location))
}

pub open spec fn secret_failure_message(reason: Seq<char>) -> Seq<char> {
    "Could not read the WEATHER_API_KEY secret: "@ + reason
}

/// The second stage of a call: with the revealed key, the request for the
/// weather at `location`; without it, an execution error that gives the
/// reason.
pub fn weather_request(location: &str, secret: Result<String, String>) -> (r: Result<
    OutgoingRequest,
    ToolError,
>)
    ensures
        secret is Err ==> r is Err && r->Err_0 is ExecutionError && r->Err_0.message()
            == secret_failure_message(secret->Err_0@),
        secret is Ok ==> r is Ok && r->Ok_0.scheme == Scheme::Https && r->Ok_0.authority@
            == WEATHER_AUTHORITY@ && r->Ok_0.path_with_query@ == request_path(
            secret->Ok_0@,
            location@,
        ),
{
    match secret {
        Err(reason) => {
            let mut message = String::from_str("Could not read the WEATHER_API_KEY secret: ");
            message.append(reason.as_str());
            Err(ToolError::ExecutionError(message))
        },
        Ok(key) => {
            let mut path = String::from_str(CURRENT_WEATHER_PATH);
            path.append(key.as_str());
            path.append(LOCATION_PARAMETER);
            let encoded = url_encode(location);
            path.append(encoded.as_str());
            Ok(
                OutgoingRequest {
                    scheme: Scheme::Https,
                    authority: String::from_str(WEATHER_AUTHORITY),
                    path_with_query: path,
                },
            )
        },
    }
}

/// The text after the last `=` of `s`: the value of the last parameter of
/// a query (all of `s` when it holds no `=`).
pub open spec fn after_last_equals(s: Seq<char>) -> Seq<char>
    decreases s.len(),
{
    if s.len() == 0 {
        s
    } else if s.last() == '=' {
        Seq::empty()
    } else {
        after_last_equals(s.drop_last()).push(s.last())
    }
}

proof fn lemma_encoded_has_no_equals(bytes: Seq<u8>)
    ensures
        forall|i: int| 0 <= i < percent_encode(bytes).len() ==> percent_encode(bytes)[i] != '=',
    decreases bytes.len(),
{
    if bytes.len() > 0 {
        let b = bytes[0];
        lemma_encoded_has_no_equals(bytes.drop_first());
        assert forall|i: int| 0 <= i < encode_byte(b).len() implies encode_byte(b)[i] != '=' by {
            if is_unreserved(b) {
                assert(encode_byte(b)[i] == b as char);
            }
        }
        let rest = percent_encode(bytes.drop_first());
        assert(percent_encode(bytes) == encode_byte(b) + rest);
        assert forall|i: int| 0 <= i < percent_encode(bytes).len() implies percent_encode(bytes)[i]
            != '=' by {
            if i >= encode_byte(b).len() {
                assert(percent_encode(bytes)[i] == rest[i - encode_byte(b).len()]);
            }
        }
    }
}

proof fn lemma_after_last_equals(prefix: Seq<char>, value: Seq<char>)
    requires
        forall|i: int| 0 <= i < value.len() ==> value[i] != '=',
    ensures
        after_last_equals(prefix.push('=') + value) == value,
    decreases value.len(),
{
    let s = prefix.push('=') + value;
    if value.len() == 0 {
        assert(s =~= prefix.push('='));
    } else {
        let shorter = value.drop_last();
        assert(s.drop_last() =~= prefix.push('=') + shorter);
        lemma_after_last_equals(prefix, shorter);
        assert(shorter.push(value.last()) =~= value);
    }
}

/// The location survives the trip through the request: percent-decoding
/// the value of the last query parameter of the request path gives back the
/// location's UTF-8 bytes, and decoding those gives back the location.
pub proof fn lemma_location_round_trip(key: Seq<char>, location: Seq<char>)
    ensures
        percent_decode(after_last_equals(request_path(key, location))) == encode_utf8(location),
        decode_utf8(percent_decode(after_last_equals(request_path(key, location)))) == location,
{
    reveal_strlit("&q=");
    reveal_strlit("&q");
    assert(LOCATION_PARAMETER@ =~= "&q"@.push('='));
    let encoded = percent_encode(encode_utf8(location));
    let prefix = CURRENT_WEATHER_PATH@ + key + "&q"@;
    assert(request_path(key, location) =~= prefix.push('=') + encoded);
    lemma_encoded_has_no_equals(encode_utf8(location));
    lemma_after_last_equals(prefix, encoded);
    lemma_decode_encode(encode_utf8(location));
    encode_utf8_decode_utf8(location);
}

/// The decimal notation of `n`, without leading zeros.
pub open spec fn decimal(n: nat) -> Seq<char>
    decreases n,
{
    if n < 10 {
        seq![DECIMAL_DIGITS@[n as int]]
    } else {
        decimal(n / 10).push(DECIMAL_DIGITS@[(n % 10) as int])
    }
}

fn decimal_text(n: u16) -> (r: String)
    ensures
        r@ == decimal(n as nat),
    decreases n,
{
    proof {
        reveal_strlit("0123456789");
    }
    let d = (n % 10) as usize;
    let digit = DECIMAL_DIGITS.substring_ascii(d, d + 1);
    if n < 10 {
        String::from_str(digit)
    } else {
        let mut text = decimal_text(n / 10);
        text.append(digit);
        text
    }
}

pub open spec fn status_failure_message(status: u16) -> Seq<char> {
    "HTTP request failed with status code "@ + decimal(status as nat)
}

pub open spec fn transport_failure_message(reason: Seq<char>) -> Seq<char> {
    "Got error when trying to fetch the weather: "@ + reason
}

/// The third stage of a call: what the transport gave back. Status 200 lets
/// the call go on to the body; another status, or a transport error, ends it
/// with an execution error that gives the status or the error.
pub fn check_response(outcome: Result<u16, String>) -> (r: Result<ResponseBody, ToolError>)
    ensures
        outcome == Ok::<u16, String>(200) ==> r is Ok && r->Ok_0@ == Seq::<u8>::empty(),
        outcome is Ok && outcome->Ok_0 != 200 ==> r is Err && r->Err_0 is ExecutionError
            && r->Err_0.message() == status_failure_message(outcome->Ok_0),
        outcome is Err ==> r is Err && r->Err_0 is ExecutionError && r->Err_0.message()
            == transport_failure_message(outcome->Err_0@),
{
    match outcome {
        Ok(status) => {
            if status == 200 {
                Ok(ResponseBody::new())
            } else {
                let mut message = String::from_str("HTTP request failed with status code ");
                let code = decimal_text(status);
                message.append(code.as_str());
                Err(ToolError::ExecutionError(message))
            }
        },
        Err(reason) => {
            let mut message = String::from_str("Got error when trying to fetch the weather: ");
            message.append(reason.as_str());
            Err(ToolError::ExecutionError(message))
        },
    }
}

/// One read from the response body's stream.
#[derive(Clone, Debug, PartialEq)]
pub enum StreamRead {
    /// The next bytes of the body (possibly none yet).
    Bytes(Vec<u8>),
    /// The stream has ended.
    Closed,
    /// The stream failed, for this reason.
    Failed(String),
}

/// Where the reading of a body stands after one read.
#[derive(Debug)]
pub enum BodyProgress {
    /// More is to be read.
    Continue,
    /// The body is complete.
    Complete,
    /// The call ends with this error.
    Failed(ToolError),
}

/// The body of a response, as read so far.
#[derive(Clone, Debug, PartialEq)]
pub struct ResponseBody {
    bytes: Vec<u8>,
}

impl View for ResponseBody {
    type V = Seq<u8>;

    closed spec fn view(&self) -> Seq<u8> {
        self.bytes@
    }
}

pub open spec fn stream_failure_message(reason: Seq<char>) -> Seq<char> {
    "Could not read the weather response: "@ + reason
}

pub open spec fn invalid_text_message() -> Seq<char> {
    "The weather response is not valid UTF-8"@
}

/// Relies on String::from_utf8: it accepts exactly the valid UTF-8 byte
/// sequences, and gives the text they encode.
#[verifier::external_body]
fn utf8_text(bytes: Vec<u8>) -> (r: Option<String>)
    ensures
        r is Some <==> valid_utf8(bytes@),
        r is Some ==> r->Some_0@ == decode_utf8(bytes@),
{
    String::from_utf8(bytes).ok()
}

impl ResponseBody {
    pub fn new() -> (r: ResponseBody)
        ensures
            r@ == Seq::<u8>::empty(),
    {
        ResponseBody { bytes: Vec::new() }
    }

    /// The bytes read so far.
    pub fn as_bytes(&self) -> (r: &[u8])
        ensures
            r@ == self@,
    {
        self.bytes.as_slice()
    }

    /// Takes in one read: bytes are appended and reading goes on; the end of
    /// the stream completes the body; a failed read ends the call with an
    /// execution error that gives the reason.
    pub fn accept(&mut self, read: StreamRead) -> (r: BodyProgress)
        ensures
            read is Bytes ==> final(self)@ == old(self)@ + read->Bytes_0@ && r is Continue,
            read is Closed ==> final(self)@ == old(self)@ && r is Complete,
            read is Failed ==> final(self)@ == old(self)@ && r is Failed
                && r->Failed_0 is ExecutionError && r->Failed_0.message()
                == stream_failure_message(read->Failed_0@),
    {
        match read {
            StreamRead::Bytes(mut chunk) => {
                self.bytes.append(&mut chunk);
                BodyProgress::Continue
            },
            StreamRead::Closed => BodyProgress::Complete,
            StreamRead::Failed(reason) => {
                let mut message = String::from_str("Could not read the weather response: ");
                message.append(reason.as_str());
                BodyProgress::Failed(ToolError::ExecutionError(message))
            },
        }
    }

    /// The last stage of a call: the body's text, passed on as it is, in a
    /// result not flagged as an error; a body that is not UTF-8 ends the call
    /// with an execution error.
    pub fn into_tool_result(self) -> (r: Result<CallToolResult, ToolError>)
        ensures
            valid_utf8(self@) ==> r is Ok && is_text_result(r->Ok_0, decode_utf8(self@), false),
            !valid_utf8(self@) ==> r is Err && r->Err_0 is ExecutionError && r->Err_0.message()
                == invalid_text_message(),
    {
        match utf8_text(self.bytes) {
            Some(text) => Ok(text_result(text, false)),
            None => Err(
                ToolError::ExecutionError(String::from_str("The weather response is not valid UTF-8")),
            ),
        }
    }
}

} // verus!
