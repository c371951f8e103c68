//! Remote steps: the description of one HTTP call, the defaults it is built
//! from, and the retrying call itself.

use crate::assoc::as_map;
use crate::assoc::distinct_keys;
use crate::engine::pipeline::UnaryOperator;
use crate::json::encode_text;
use crate::json::json_string_literal;
use crate::text::str_eq;
use crate::text::to_uppercase;
use crate::text::trim;
use crate::text::trimmed;
use crate::text::uppercased;
use std::sync::Arc;
use crate::text::concat2;
use crate::text::first_char_is;
use crate::text::last_char_is;
use crate::text::starts_with;
use crate::text::without_first_char;
use vstd::prelude::*;
use vstd::string::*;

verus! {

/// The headers of a call: names with their values, no name twice.
pub type Headers = Vec<(String, String)>;

/// The map from each header's name to its value.
pub open spec fn headers_view(headers: Seq<(String, String)>) -> Map<Seq<char>, Seq<char>> {
    as_map(headers).map_values(|value: String| value@)
}

/// The headers of a call that may have none, as a map.
pub open spec fn optional_headers_view(headers: Option<Headers>) -> Option<
    Map<Seq<char>, Seq<char>>,
> {
    match headers {
        Some(list) => Some(headers_view(list@)),
        None => None,
    }
}

/// Whether headers, if there are any, name no header twice.
pub open spec fn headers_wf(headers: Option<Headers>) -> bool {
    headers matches Some(list) ==> distinct_keys(list@)
}

/// A copy of a list of headers.
pub fn copy_headers(headers: &Headers) -> (copy: Headers)
    ensures
        copy@ == headers@,
{
    let mut copy: Headers = Vec::new();
    let mut position: usize = 0;
    while position < headers.len()
        invariant
            position <= headers.len(),
            copy@ == headers@.subrange(0, position as int),
        decreases headers.len() - position,
    {
        copy.push((headers[position].0.clone(), headers[position].1.clone()));
        position += 1;
    }
    assert(headers@.subrange(0, headers.len() as int) =~= headers@);
    copy
}

/// A copy of headers that there may be none of.
pub fn copy_optional_headers(headers: &Option<Headers>) -> (copy: Option<Headers>)
    ensures
        copy is Some == headers is Some,
        copy matches Some(list) ==> list@ == headers->0@,
        optional_headers_view(copy) == optional_headers_view(*headers),
        headers_wf(*headers) ==> headers_wf(copy),
{
    match headers {
        Some(list) => Some(copy_headers(list)),
        None => None,
    }
}

/// The full description of one HTTP call.
#[derive(Debug)]
pub struct RemoteSpec {
    pub endpoint: String,
    pub timeout_millis: u64,
    pub retries: usize,
    pub method: String,
    pub headers: Option<Headers>,
}

/// The mathematical content of a [`RemoteSpec`].
pub struct RemoteSpecView {
    pub endpoint: Seq<char>,
    pub timeout_millis: u64,
    pub retries: usize,
    pub method: Seq<char>,
    pub headers: Option<Map<Seq<char>, Seq<char>>>,
}

impl View for RemoteSpec {
    type V = RemoteSpecView;

    open spec fn view(&self) -> RemoteSpecView {
        RemoteSpecView {
            endpoint: self.endpoint@,
            timeout_millis: self.timeout_millis,
            retries: self.retries,
            method: self.method@,
            headers: optional_headers_view(self.headers),
        }
    }
}

impl Clone for RemoteSpec {
    fn clone(&self) -> (copy: Self)
        ensures
            copy@ == self@,
            self.wf() ==> copy.wf(),
    {
        RemoteSpec {
            endpoint: self.endpoint.clone(),
            timeout_millis: self.timeout_millis,
            retries: self.retries,
            method: self.method.clone(),
            headers: copy_optional_headers(&self.headers),
        }
    }
}

impl RemoteSpec {
    /// Whether the headers name no header twice.
    pub open spec fn wf(&self) -> bool {
        headers_wf(self.headers)
    }

    /// A `POST` to `endpoint` with a timeout of one second, no retry and no
    /// headers.
    pub fn new(endpoint: &str) -> (spec: Self)
        ensures
            spec.wf(),
            spec@ == (RemoteSpecView {
                endpoint: endpoint@,
                timeout_millis: 1000,
                retries: 0,
                method: "POST"@,
                headers: None,
            }),
    {
        RemoteSpec {
            endpoint: String::from_str(endpoint),
            timeout_millis: 1000,
            retries: 0,
            method: String::from_str("POST"),
            headers: None,
        }
    }
}

/// The template from which the calls of a document are built.
#[derive(Debug)]
pub struct RemoteDefaults {
    pub base_url: String,
    pub timeout_millis: u64,
    pub retries: usize,
    pub method: String,
    pub headers: Option<Headers>,
}

/// The mathematical content of a [`RemoteDefaults`].
pub struct RemoteDefaultsView {
    pub base_url: Seq<char>,
    pub timeout_millis: u64,
    pub retries: usize,
    pub method: Seq<char>,
    pub headers: Option<Map<Seq<char>, Seq<char>>>,
}

impl View for RemoteDefaults {
    type V = RemoteDefaultsView;

    open spec fn view(&self) -> RemoteDefaultsView {
        RemoteDefaultsView {
            base_url: self.base_url@,
            timeout_millis: self.timeout_millis,
            retries: self.retries,
            method: self.method@,
            headers: optional_headers_view(self.headers),
        }
    }
}

impl Clone for RemoteDefaults {
    fn clone(&self) -> (copy: Self)
        ensures
            copy@ == self@,
            self.wf() ==> copy.wf(),
    {
        RemoteDefaults {
            base_url: self.base_url.clone(),
            timeout_millis: self.timeout_millis,
            retries: self.retries,
            method: self.method.clone(),
            headers: copy_optional_headers(&self.headers),
        }
    }
}

impl Default for RemoteDefaults {
    /// No base URL, a timeout of one second, no retry, `POST`, no headers.
    fn default() -> (defaults: Self)
        ensures
            defaults.wf(),
            defaults@ == (RemoteDefaultsView {
                base_url: Seq::empty(),
                timeout_millis: 1000,
                retries: 0,
                method: "POST"@,
                headers: None,
            }),
    {
        RemoteDefaults {
            base_url: String::new(),
            timeout_millis: 1000,
            retries: 0,
            method: String::from_str("POST"),
            headers: None,
        }
    }
}

/// Whether `text` is an absolute URL: whether it begins with `http://` or
/// with `https://`.
pub open spec fn is_absolute_url(text: Seq<char>) -> bool {
    "http://"@.is_prefix_of(text) || "https://"@.is_prefix_of(text)
}

/// The endpoint that `endpoint_or_path` stands for under the base URL
/// `base_url`: an absolute URL stands for itself, and so does everything
/// under an empty base; a path is joined to the base with exactly one slash
/// where either has one at the joint or neither has, and with both slashes
/// kept out of the way where both have one.
pub open spec fn resolved_endpoint(base_url: Seq<char>, endpoint_or_path: Seq<char>) -> Seq<char> {
    let base_ends_with_slash = base_url.len() > 0 && base_url.last() == '/';
    let path_starts_with_slash = endpoint_or_path.len() > 0 && endpoint_or_path[0] == '/';
    if is_absolute_url(endpoint_or_path) || base_url.len() == 0 {
        endpoint_or_path
    } else if base_ends_with_slash && path_starts_with_slash {
        base_url + endpoint_or_path.drop_first()
    } else if !base_ends_with_slash && !path_starts_with_slash {
        base_url + seq!['/'] + endpoint_or_path
    } else {
        base_url + endpoint_or_path
    }
}

impl RemoteDefaults {
    /// Whether the headers name no header twice.
    pub open spec fn wf(&self) -> bool {
        headers_wf(self.headers)
    }

    /// Resolves an endpoint or a path against the base URL.
    pub fn resolve_endpoint(&self, endpoint_or_path: &str) -> (endpoint: String)
        ensures
            endpoint@ == resolved_endpoint(self.base_url@, endpoint_or_path@),
    {
        if starts_with(endpoint_or_path, "http://") || starts_with(endpoint_or_path, "https://") {
            return String::from_str(endpoint_or_path);
        }
        if self.base_url.as_str().is_empty() {
            return String::from_str(endpoint_or_path);
        }
        let base_ends_with_slash = last_char_is(self.base_url.as_str(), '/');
        let path_starts_with_slash = first_char_is(endpoint_or_path, '/');
        if base_ends_with_slash && path_starts_with_slash {
            return concat2(self.base_url.as_str(), without_first_char(endpoint_or_path));
        }
        if !base_ends_with_slash && !path_starts_with_slash {
            proof {
                reveal_strlit("/");
            }
            let mut endpoint = concat2(self.base_url.as_str(), "/");
            endpoint.append(endpoint_or_path);
            assert(endpoint@ =~= self.base_url@ + seq!['/'] + endpoint_or_path@);
            return endpoint;
        }
        concat2(self.base_url.as_str(), endpoint_or_path)
    }

    /// The call to `endpoint_or_path` that the defaults describe: the
    /// endpoint resolved against the base URL, every other field as here.
    pub fn to_spec(&self, endpoint_or_path: &str) -> (spec: RemoteSpec)
        ensures
            spec@ == (RemoteSpecView {
                endpoint: resolved_endpoint(self.base_url@, endpoint_or_path@),
                timeout_millis: self.timeout_millis,
                retries: self.retries,
                method: self.method@,
                headers: optional_headers_view(self.headers),
            }),
            self.wf() ==> spec.wf(),
    {
        let resolved_endpoint = self.resolve_endpoint(endpoint_or_path);
        let mut spec = RemoteSpec::new(resolved_endpoint.as_str());
        spec.timeout_millis = self.timeout_millis;
        spec.retries = self.retries;
        spec.method = self.method.clone();
        spec.headers = copy_optional_headers(&self.headers);
        spec
    }
}

/// Whether `c` may stand in an HTTP token: a letter or a digit of ASCII, or
/// one of ``! # $ % & ' * + - . ^ _ ` | ~``.
pub open spec fn is_token_char(c: char) -> bool {
    ||| 'a' as u32 <= c as u32 <= 'z' as u32
    ||| 'A' as u32 <= c as u32 <= 'Z' as u32
    ||| '0' as u32 <= c as u32 <= '9' as u32
    ||| c == '!'
    ||| c == '#'
    ||| c == '$'
    ||| c == '%'
    ||| c == '&'
    ||| c == '\''
    ||| c == '*'
    ||| c == '+'
    ||| c == '-'
    ||| c == '.'
    ||| c == '^'
    ||| c == '_'
    ||| c == '`'
    ||| c == '|'
    ||| c == '~'
}

/// Whether `text` is an HTTP token: one character or more, each of which
/// may stand in a token.
pub open spec fn is_token(text: Seq<char>) -> bool {
    &&& text.len() > 0
    &&& forall|i: int| 0 <= i < text.len() ==> is_token_char(#[trigger] text[i])
}

/// Whether `c` may stand in the value of an HTTP header: every character
/// but the control characters of ASCII, of which only the tab may.
pub open spec fn is_header_value_char(c: char) -> bool {
    (c as u32 >= 32 && c as u32 != 127) || c == '\t'
}

/// What `reqwest::Method::from_bytes` says against a token: nothing where
/// the token is an HTTP token, else the text of its error.
pub open spec fn method_token_error(token: Seq<char>) -> Option<Seq<char>> {
    if is_token(token) {
        None
    } else {
        Some("invalid HTTP method"@)
    }
}

/// What `HeaderName::from_bytes` says against a header name: nothing where
/// the name is an HTTP token of at most 65535 characters, else the text of
/// its error.
pub open spec fn header_name_error(name: Seq<char>) -> Option<Seq<char>> {
    if is_token(name) && name.len() <= 65535 {
        None
    } else {
        Some("invalid HTTP header name"@)
    }
}

/// What `HeaderValue::from_str` says against a header value: nothing where
/// every character may stand in a header value, else the text of its error.
pub open spec fn header_value_error(value: Seq<char>) -> Option<Seq<char>> {
    if forall|i: int| 0 <= i < value.len() ==> is_header_value_char(#[trigger] value[i]) {
        None
    } else {
        Some("failed to parse header value"@)
    }
}

/// The view of a text that there may be none of.
pub open spec fn optional_text_view(text: Option<String>) -> Option<Seq<char>> {
    match text {
        Some(characters) => Some(characters@),
        None => None,
    }
}

/// The view of a text or of the message in its place.
pub open spec fn text_result_view(result: Result<String, String>) -> Result<Seq<char>, Seq<char>> {
    match result {
        Ok(text) => Ok(text@),
        Err(message) => Err(message@),
    }
}

/// `reqwest::Method::from_bytes` on the bytes of `token`: accepts every
/// token of HTTP, of whatever length, and nothing else. Hands back the text
/// of the error, if there is one; that text is always the same.
#[verifier::external_body]
fn check_method_token(token: &str) -> (error: Option<String>)
    ensures
        optional_text_view(error) == method_token_error(token@),
{
    match reqwest::Method::from_bytes(token.as_bytes()) {
        Ok(_) => None,
        Err(error) => Some(error.to_string()),
    }
}

/// `reqwest::header::HeaderName::from_bytes` on the bytes of `name`: accepts
/// every token of HTTP of at most 65535 bytes, in either case of its letters,
/// and nothing else. Hands back the text of the error, if there is one; that
/// text is always the same.
#[verifier::external_body]
fn check_header_name(name: &str) -> (error: Option<String>)
    ensures
        optional_text_view(error) == header_name_error(name@),
{
    match reqwest::header::HeaderName::from_bytes(name.as_bytes()) {
        Ok(_) => None,
        Err(error) => Some(error.to_string()),
    }
}

/// `reqwest::header::HeaderValue::from_str`: accepts a value unless one of
/// its bytes is a control character of ASCII other than the tab; the bytes
/// of every character beyond ASCII are accepted. Hands back the text of the
/// error, if there is one; that text is always the same.
#[verifier::external_body]
fn check_header_value(value: &str) -> (error: Option<String>)
    ensures
        optional_text_view(error) == header_value_error(value@),
{
    match reqwest::header::HeaderValue::from_str(value) {
        Ok(_) => None,
        Err(error) => Some(error.to_string()),
    }
}

/// The method as it is sent: trimmed, in upper case.
pub open spec fn normalized_method(method_value: Seq<char>) -> Seq<char> {
    uppercased(trimmed(method_value))
}

/// The message for a method that is no HTTP method.
pub open spec fn invalid_method_message(method_value: Seq<char>, error: Seq<char>) -> Seq<char> {
    "Invalid HTTP method '"@ + method_value + "': "@ + error
}

/// The verdict on a method, given its normal form and what was said against
/// that: the normal form, or the message that names the method as written.
pub open spec fn method_verdict_spec(
    method_value: Seq<char>,
    normalized: Seq<char>,
    token_error: Option<Seq<char>>,
) -> Result<Seq<char>, Seq<char>> {
    match token_error {
        None => Ok(normalized),
        Some(error) => Err(invalid_method_message(method_value, error)),
    }
}

/// The verdict on a method, given its normal form and what was said against
/// that.
pub fn method_verdict(method_value: &str, normalized: String, token_error: Option<String>) -> (verdict:
    Result<String, String>)
    ensures
        text_result_view(verdict) == method_verdict_spec(
            method_value@,
            normalized@,
            optional_text_view(token_error),
        ),
{
    match token_error {
        None => Ok(normalized),
        Some(error) => {
            let mut message = concat2("Invalid HTTP method '", method_value);
            message.append("': ");
            message.append(error.as_str());
            assert(message@ =~= invalid_method_message(method_value@, error@));
            Err(message)
        },
    }
}

/// Reads the method of a call: its normal form if that is an HTTP method,
/// else the message that says it is none.
pub fn parse_method(method_value: &str) -> (verdict: Result<String, String>)
    ensures
        text_result_view(verdict) == method_verdict_spec(
            method_value@,
            normalized_method(method_value@),
            method_token_error(normalized_method(method_value@)),
        ),
{
    let normalized = to_uppercase(trim(method_value));
    let token_error = check_method_token(normalized.as_str());
    method_verdict(method_value, normalized, token_error)
}

/// The message for a header whose name is no header name.
pub open spec fn invalid_header_name_message(name: Seq<char>, error: Seq<char>) -> Seq<char> {
    "Invalid header name '"@ + name + "': "@ + error
}

/// The message for a header whose value is no header value.
pub open spec fn invalid_header_value_message(name: Seq<char>, error: Seq<char>) -> Seq<char> {
    "Invalid header value for '"@ + name + "': "@ + error
}

/// The verdict on one header, given what was said against its name and
/// against its value: the complaint about the name comes first.
pub open spec fn header_verdict_spec(
    name: Seq<char>,
    name_error: Option<Seq<char>>,
    value_error: Option<Seq<char>>,
) -> Option<Seq<char>> {
    match name_error {
        Some(error) => Some(invalid_header_name_message(name, error)),
        None => match value_error {
            Some(error) => Some(invalid_header_value_message(name, error)),
            None => None,
        },
    }
}

/// The verdict on one header, given what was said against its name and
/// against its value.
pub fn header_verdict(name: &str, name_error: Option<String>, value_error: Option<String>) -> (verdict:
    Option<String>)
    ensures
        optional_text_view(verdict) == header_verdict_spec(
            name@,
            optional_text_view(name_error),
            optional_text_view(value_error),
        ),
{
    match name_error {
        Some(error) => {
            let mut message = concat2("Invalid header name '", name);
            message.append("': ");
            message.append(error.as_str());
            assert(message@ =~= invalid_header_name_message(name@, error@));
            Some(message)
        },
        None => match value_error {
            Some(error) => {
                let mut message = concat2("Invalid header value for '", name);
                message.append("': ");
                message.append(error.as_str());
                assert(message@ =~= invalid_header_value_message(name@, error@));
                Some(message)
            },
            None => None,
        },
    }
}

/// What is said against the header `name: value`, if anything.
pub open spec fn header_error(name: Seq<char>, value: Seq<char>) -> Option<Seq<char>> {
    header_verdict_spec(name, header_name_error(name), header_value_error(value))
}

/// What is said against the first of the headers from `from` on that is no
/// HTTP header, if there is one.
pub open spec fn first_header_error(headers: Seq<(String, String)>, from: int) -> Option<Seq<char>>
    decreases headers.len() - from,
{
    if from < 0 || from >= headers.len() {
        None
    } else {
        match header_error(headers[from].0@, headers[from].1@) {
            Some(message) => Some(message),
            None => first_header_error(headers, from + 1),
        }
    }
}

/// Checks the headers in order; the first that is no HTTP header gives the
/// message.
pub fn build_header_map(headers: &Headers) -> (verdict: Option<String>)
    ensures
        optional_text_view(verdict) == first_header_error(headers@, 0),
{
    let mut position: usize = 0;
    while position < headers.len()
        invariant
            position <= headers.len(),
            first_header_error(headers@, 0) == first_header_error(headers@, position as int),
        decreases headers.len() - position,
    {
        let name = headers[position].0.as_str();
        let name_error = check_header_name(name);
        let value_error = check_header_value(headers[position].1.as_str());
        match header_verdict(name, name_error, value_error) {
            Some(message) => {
                return Some(message);
            },
            None => {},
        }
        position += 1;
    }
    None
}

/// One HTTP request, as it is handed to the transport. The headers are set
/// in order, a later one in place of an earlier one of the same name.
#[derive(Debug)]
pub struct HttpRequest {
    pub method: String,
    pub endpoint: String,
    pub timeout_millis: u64,
    pub headers: Headers,
    pub body: Option<String>,
}

/// What came of one attempt.
#[derive(Debug)]
pub enum HttpReply {
    /// A response arrived: its status code, the status as it is displayed
    /// (the code and its reason), and the body.
    Response { status: u16, status_text: String, body: String },
    /// No response arrived: the message of the transport.
    Failed { message: String },
}

/// What sends the requests.
pub trait HttpTransport {
    /// Whether `reply` may be what comes of sending `request`. A transport
    /// that does not say admits every reply.
    open spec fn replies(&self, request: HttpRequest, reply: HttpReply) -> bool {
        true
    }

    /// Sends one request and waits for what comes of it.
    fn send(&self, request: &HttpRequest) -> (reply: HttpReply)
        ensures
            self.replies(*request, reply),
    ;

    /// Whether the transport was asked to suspend the caller for `millis`
    /// milliseconds. A transport that does not say admits every pause.
    open spec fn paused(&self, millis: u64) -> bool {
        true
    }

    /// Suspends the caller for `millis` milliseconds.
    fn pause(&self, millis: u64)
        ensures
            self.paused(millis),
    ;
}

/// Whether the status code is one of success: from 200 to 299.
pub open spec fn is_success_status(status: u16) -> bool {
    200 <= status < 300
}

/// What a reply means for the call: the body of a response of success, or
/// the message of the failure.
pub open spec fn reply_verdict(reply: HttpReply) -> Result<Seq<char>, Seq<char>> {
    match reply {
        HttpReply::Response { status, status_text, body } => if is_success_status(status) {
            Ok(body@)
        } else {
            Err("HTTP "@ + status_text@ + " body="@ + body@)
        },
        HttpReply::Failed { message } => Err(message@),
    }
}

/// The pause before attempt `attempt_number + 1`, in milliseconds: 50 for
/// each attempt made, as far as a `u64` holds it.
pub open spec fn backoff_millis(attempt_number: nat) -> u64 {
    if 50 * attempt_number <= u64::MAX {
        (50 * attempt_number) as u64
    } else {
        u64::MAX
    }
}

/// What to do after an attempt.
#[derive(Debug)]
pub enum RetryDecision {
    /// The call is over, with this result.
    Finish(Result<String, String>),
    /// Pause, then try again; `last_error` is the failure of this attempt.
    Retry { backoff_millis: u64, last_error: String },
}

/// The mathematical content of a [`RetryDecision`].
pub enum RetryDecisionView {
    Finish(Result<Seq<char>, Seq<char>>),
    Retry { backoff_millis: u64, last_error: Seq<char> },
}

impl View for RetryDecision {
    type V = RetryDecisionView;

    open spec fn view(&self) -> RetryDecisionView {
        match self {
            RetryDecision::Finish(result) => RetryDecisionView::Finish(text_result_view(*result)),
            RetryDecision::Retry { backoff_millis, last_error } => RetryDecisionView::Retry {
                backoff_millis: *backoff_millis,
                last_error: last_error@,
            },
        }
    }
}

/// What to do after attempt `attempt_index` (counted from 0) of a call with
/// `retries` retries has given `reply`: a response of success ends the call
/// with its body; a failure is retried after the pause if an attempt is
/// left, and else ends the call with its message.
pub open spec fn after_attempt_spec(retries: usize, attempt_index: usize, reply: HttpReply) -> RetryDecisionView {
    match reply_verdict(reply) {
        Ok(body) => RetryDecisionView::Finish(Ok(body)),
        Err(message) => if attempt_index < retries {
            RetryDecisionView::Retry {
                backoff_millis: backoff_millis((attempt_index + 1) as nat),
                last_error: message,
            }
        } else {
            RetryDecisionView::Finish(Err(message))
        },
    }
}

/// Decides what to do after an attempt.
pub fn after_attempt(retries: usize, attempt_index: usize, reply: HttpReply) -> (decision:
    RetryDecision)
    ensures
        decision@ == after_attempt_spec(retries, attempt_index, reply),
{
    let last_error = match reply {
        HttpReply::Response { status, status_text, body } => {
            if 200 <= status && status < 300 {
                return RetryDecision::Finish(Ok(body));
            }
            let mut message = concat2("HTTP ", status_text.as_str());
            message.append(" body=");
            message.append(body.as_str());
            assert(message@ =~= "HTTP "@ + status_text@ + " body="@ + body@);
            message
        },
        HttpReply::Failed { message } => message,
    };
    if attempt_index < retries {
        let attempt_number: u64 = (attempt_index + 1) as u64;
        let backoff_millis: u64 = if attempt_number <= u64::MAX / 50 {
            50 * attempt_number
        } else {
            u64::MAX
        };
        RetryDecision::Retry { backoff_millis, last_error }
    } else {
        RetryDecision::Finish(Err(last_error))
    }
}

/// The name of the header that gives the type of a body.
pub open spec fn content_type_name() -> Seq<char> {
    "content-type"@
}

/// The type of a JSON body.
pub open spec fn json_content_type() -> Seq<char> {
    "application/json"@
}

/// What stands against sending the call `spec`, if anything: its method is
/// read first, then its headers.
pub open spec fn request_error(spec: RemoteSpec) -> Option<Seq<char>> {
    match method_verdict_spec(
        spec.method@,
        normalized_method(spec.method@),
        method_token_error(normalized_method(spec.method@)),
    ) {
        Err(message) => Some(message),
        Ok(_) => match spec.headers {
            Some(headers) => first_header_error(headers@, 0),
            None => None,
        },
    }
}

/// Whether `request` is the request of the call `spec` with the JSON text
/// `json_body`: it goes to the endpoint of the call, under its method in
/// normal form and with its timeout. A `GET` carries the headers of the call
/// and no body. Every other method carries the JSON text as its body, and
/// after the headers of the call the header that says so.
pub open spec fn is_request_of(spec: RemoteSpec, json_body: Seq<char>, request: HttpRequest) -> bool {
    let headers = match spec.headers {
        Some(list) => list@,
        None => Seq::empty(),
    };
    &&& request.method@ == normalized_method(spec.method@)
    &&& request.endpoint@ == spec.endpoint@
    &&& request.timeout_millis == spec.timeout_millis
    &&& if request.method@ == "GET"@ {
        &&& request.headers@ == headers
        &&& request.body is None
    } else {
        &&& request.headers@.len() == headers.len() + 1
        &&& request.headers@.drop_last() == headers
        &&& request.headers@.last().0@ == content_type_name()
        &&& request.headers@.last().1@ == json_content_type()
        &&& optional_text_view(request.body) == Some(json_body)
    }
}

/// Plans the request of a call: checks the method and the headers, and
/// builds what is sent.
pub fn plan_request(spec: &RemoteSpec, json_body: &str) -> (plan: Result<HttpRequest, String>)
    ensures
        match plan {
            Ok(request) => request_error(*spec) is None && is_request_of(
                *spec,
                json_body@,
                request,
            ),
            Err(message) => request_error(*spec) == Some(message@),
        },
{
    let method = match parse_method(spec.method.as_str()) {
        Ok(value) => value,
        Err(message) => {
            return Err(message);
        },
    };
    let mut headers: Headers = Vec::new();
    match &spec.headers {
        Some(headers_value) => {
            match build_header_map(headers_value) {
                Some(message) => {
                    return Err(message);
                },
                None => {},
            }
            headers = copy_headers(headers_value);
        },
        None => {},
    }
    let body = if str_eq(method.as_str(), "GET") {
        None
    } else {
        let ghost before = headers@;
        headers.push((String::from_str("content-type"), String::from_str("application/json")));
        assert(headers@.drop_last() =~= before);
        Some(String::from_str(json_body))
    };
    Ok(
        HttpRequest {
            method,
            endpoint: spec.endpoint.clone(),
            timeout_millis: spec.timeout_millis,
            headers,
            body,
        },
    )
}

/// Whether `replies` may be the replies to the attempts of a call with
/// `retries` retries that ends with `result`: every reply but the last is a
/// failure; a last reply of success gives its body; a last reply of failure
/// is the reply to the last attempt that the call may make, and gives its
/// message.
pub open spec fn attempts_relate(
    retries: usize,
    replies: Seq<HttpReply>,
    result: Result<String, String>,
) -> bool {
    &&& 1 <= replies.len() <= retries + 1
    &&& forall|i: int| 0 <= i < replies.len() - 1 ==> reply_verdict(#[trigger] replies[i]) is Err
    &&& text_result_view(result) == reply_verdict(replies.last())
    &&& result is Err ==> replies.len() == retries + 1
}

/// The first response of success ends a call with the body of that response:
/// whatever the attempts before it came to, a call whose last reply is a
/// response of success gives exactly the body of that response.
pub proof fn lemma_success_gives_the_body(
    retries: usize,
    replies: Seq<HttpReply>,
    result: Result<String, String>,
)
    requires
        attempts_relate(retries, replies, result),
        replies.last() is Response,
        is_success_status(replies.last()->status),
    ensures
        result matches Ok(body) && body@ == replies.last()->body@,
{
}

/// A call that fails has made every attempt it may make, and fails with the
/// message of the last one.
pub proof fn lemma_failure_exhausts_the_attempts(
    retries: usize,
    replies: Seq<HttpReply>,
    result: Result<String, String>,
)
    requires
        attempts_relate(retries, replies, result),
        result is Err,
    ensures
        replies.len() == retries + 1,
        forall|i: int| 0 <= i < replies.len() ==> reply_verdict(#[trigger] replies[i]) is Err,
        reply_verdict(replies.last()) == Err::<Seq<char>, Seq<char>>(result->Err_0@),
{
}

/// The message with which [`NoTransport`] fails every attempt.
pub open spec fn no_transport_message() -> Seq<char> {
    "No HTTP transport is configured"@
}

/// The transport of a pipeline that is given none: nothing is sent, and
/// every attempt fails with a message that says so.
pub struct NoTransport;

impl HttpTransport for NoTransport {
    open spec fn replies(&self, request: HttpRequest, reply: HttpReply) -> bool {
        reply matches HttpReply::Failed { message } && message@ == no_transport_message()
    }

    fn send(&self, request: &HttpRequest) -> (reply: HttpReply) {
        HttpReply::Failed { message: String::from_str("No HTTP transport is configured") }
    }

    fn pause(&self, millis: u64) {
    }
}

/// What was sent in the course of one call, and what came of it.
pub struct CallTrace {
    /// The request of the call; every attempt sends it.
    pub request: HttpRequest,
    /// What came of the attempts, in order.
    pub replies: Seq<HttpReply>,
}

/// Whether the call `spec` with the body `json_body`, sent by `transport`,
/// may pass through `trace` and end with `result`: the request is the request
/// of the call; every reply is one that the transport gives to that request;
/// after every attempt but the last the transport is asked to pause, for 50
/// milliseconds times the number of attempts made; and the replies lead to
/// the result.
pub open spec fn call_follows<T: HttpTransport>(
    spec: RemoteSpec,
    json_body: Seq<char>,
    transport: T,
    trace: CallTrace,
    result: Result<String, String>,
) -> bool {
    &&& is_request_of(spec, json_body, trace.request)
    &&& forall|i: int|
        0 <= i < trace.replies.len() ==> transport.replies(
            trace.request,
            #[trigger] trace.replies[i],
        )
    &&& forall|i: int|
        0 <= i < trace.replies.len() - 1 ==> transport.paused(
            #[trigger] backoff_millis((i + 1) as nat),
        )
    &&& attempts_relate(spec.retries, trace.replies, result)
}

/// Whether the call `spec` with the body `json_body`, sent by `transport`,
/// may end with `result`: a call whose method or headers are refused ends
/// with what stands against it, without an attempt; every other call makes
/// its attempts.
pub open spec fn http_call_relates<T: HttpTransport>(
    spec: RemoteSpec,
    json_body: Seq<char>,
    transport: T,
    result: Result<String, String>,
) -> bool {
    match request_error(spec) {
        Some(message) => text_result_view(result) == Err::<Seq<char>, Seq<char>>(message),
        None => exists|trace: CallTrace| call_follows(spec, json_body, transport, trace, result),
    }
}

/// Whether the call `spec` on `input_value`, sent by `transport`, may end
/// with `result`: the value is written as a JSON string, and the call is
/// made with that text as its body.
pub open spec fn http_step_relates<T: HttpTransport>(
    spec: RemoteSpec,
    input_value: Seq<char>,
    transport: T,
    result: Result<String, String>,
) -> bool {
    http_call_relates(spec, json_string_literal(input_value), transport, result)
}

/// A call whose request the transport answers with nothing but responses of
/// success that carry `body` gives exactly `body`: a call that is not
/// refused makes an attempt, and the first reply ends it.
pub proof fn lemma_answered_call_gives_the_body<T: HttpTransport>(
    spec: RemoteSpec,
    json_body: Seq<char>,
    transport: T,
    result: Result<String, String>,
    body: Seq<char>,
)
    requires
        http_call_relates(spec, json_body, transport, result),
        request_error(spec) is None,
        forall|request: HttpRequest, reply: HttpReply|
            is_request_of(spec, json_body, request) && #[trigger] transport.replies(
                request,
                reply,
            ) ==> reply_verdict(reply) == Ok::<Seq<char>, Seq<char>>(body),
    ensures
        text_result_view(result) == Ok::<Seq<char>, Seq<char>>(body),
{
    let trace = choose|trace: CallTrace| call_follows(spec, json_body, transport, trace, result);
    assert(transport.replies(trace.request, trace.replies[trace.replies.len() - 1]));
}

/// A call that is sent by [`NoTransport`] and is not refused fails with the
/// message of that transport, after every attempt it may make.
pub proof fn lemma_no_transport_fails_the_call(
    spec: RemoteSpec,
    json_body: Seq<char>,
    result: Result<String, String>,
)
    requires
        http_call_relates(spec, json_body, NoTransport, result),
        request_error(spec) is None,
    ensures
        text_result_view(result) == Err::<Seq<char>, Seq<char>>(no_transport_message()),
{
    let trace = choose|trace: CallTrace| call_follows(spec, json_body, NoTransport, trace, result);
    assert(NoTransport.replies(trace.request, trace.replies[trace.replies.len() - 1]));
}

/// Makes the call `spec` with the JSON text `json_body` as its body: at most
/// `spec.retries + 1` attempts, with a growing pause between them. The first
/// response of success gives the result; when no attempt is left the last
/// failure does.
pub fn http_call<T: HttpTransport>(spec: &RemoteSpec, json_body: &str, transport: &T) -> (result:
    Result<String, String>)
    ensures
        http_call_relates(*spec, json_body@, *transport, result),
{
    let request = match plan_request(spec, json_body) {
        Ok(request) => request,
        Err(message) => {
            return Err(message);
        },
    };
    let mut attempt_index: usize = 0;
    let ghost mut replies: Seq<HttpReply> = Seq::empty();
    loop
        invariant
            request_error(*spec) is None,
            is_request_of(*spec, json_body@, request),
            attempt_index <= spec.retries,
            replies.len() == attempt_index,
            forall|i: int| 0 <= i < replies.len() ==> reply_verdict(#[trigger] replies[i]) is Err,
            forall|i: int|
                0 <= i < replies.len() ==> transport.replies(request, #[trigger] replies[i]),
            forall|i: int|
                0 <= i < attempt_index ==> transport.paused(
                    #[trigger] backoff_millis((i + 1) as nat),
                ),
        decreases spec.retries - attempt_index,
    {
        let reply = transport.send(&request);
        proof {
            replies = replies.push(reply);
        }
        match after_attempt(spec.retries, attempt_index, reply) {
            RetryDecision::Finish(result) => {
                proof {
                    let trace = CallTrace { request, replies };
                    assert(attempts_relate(spec.retries, replies, result));
                    assert(call_follows(*spec, json_body@, *transport, trace, result));
                }
                return result;
            },
            RetryDecision::Retry { backoff_millis, last_error } => {
                transport.pause(backoff_millis);
                attempt_index += 1;
            },
        }
    }
}

/// Makes the call `spec` with `input_value`, written as a JSON string, as
/// its body.
pub fn http_step<T: HttpTransport>(spec: &RemoteSpec, input_value: &str, transport: &T) -> (result:
    Result<String, String>)
    ensures
        http_step_relates(*spec, input_value@, *transport, result),
{
    let json_body = match encode_text(input_value) {
        Ok(text) => text,
        Err(error) => {
            return Err(concat2("JSON encode failed: ", error.as_str()));
        },
    };
    http_call(spec, json_body.as_str(), transport)
}

/// A remote step: a call, with what sends it.
pub struct RemoteStep<T> {
    pub spec: RemoteSpec,
    pub transport: Arc<T>,
}

impl<T: HttpTransport> UnaryOperator<String> for RemoteStep<T> {
    /// The step gives the body that the call gives, and fails with the
    /// message with which the call fails.
    open spec fn produces(&self, input: String, outcome: Result<String, String>) -> bool {
        http_step_relates(self.spec, input@, *self.transport, outcome)
    }

    fn apply(&self, input: String) -> (outcome: Result<String, String>) {
        http_step(&self.spec, input.as_str(), &*self.transport)
    }
}

} // verus!
