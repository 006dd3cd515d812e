//! What an operation of the API asks for, before anything is sent.

use crate::client::{joined_url, standard_headers, HttpMethod, HttpRequest, TapsilatClient};
use crate::error::{ErrorModel, TapsilatError};
use crate::json::{insert_string, new_object, object_members};
use crate::text::{decimal, decimal_of};
use crate::types::common::{ApiResponse, PaginationParams};
use vstd::prelude::*;
use vstd::string::StringExecFns;

verus! {

/// What a call sends along.
#[derive(Debug)]
pub enum Payload {
    /// Nothing.
    Nothing,
    /// The request value that the operation was given, written as JSON.
    Request,
    /// A JSON object made for the call.
    Object(serde_json::Map<String, serde_json::Value>),
}

/// The mathematical value of a [`Payload`]: an object is known by its
/// members.
pub enum PayloadModel {
    Nothing,
    Request,
    Object(Map<Seq<char>, Option<Seq<char>>>),
}

impl View for Payload {
    type V = PayloadModel;

    open spec fn view(&self) -> PayloadModel {
        match *self {
            Payload::Nothing => PayloadModel::Nothing,
            Payload::Request => PayloadModel::Request,
            Payload::Object(object) => PayloadModel::Object(object_members(object)),
        }
    }
}

/// One call of the API: the method, the endpoint under the base URL, and
/// what is sent along.
#[derive(Debug)]
pub struct ApiCall {
    pub method: HttpMethod,
    pub endpoint: String,
    pub payload: Payload,
}

/// An object with one member.
pub open spec fn one_member(key: Seq<char>, value: Seq<char>) -> Map<Seq<char>, Option<Seq<char>>> {
    Map::empty().insert(key, Some(value))
}

/// The query that asks for a page: `?page=..`, `?per_page=..`, both joined
/// by `&`, or nothing.
pub open spec fn page_query(page: Option<u32>, per_page: Option<u32>) -> Seq<char> {
    match (page, per_page) {
        (Some(p), Some(n)) => "?page="@ + decimal_of(p as nat) + "&per_page="@ + decimal_of(
            n as nat,
        ),
        (Some(p), None) => "?page="@ + decimal_of(p as nat),
        (None, Some(n)) => "?per_page="@ + decimal_of(n as nat),
        (None, None) => Seq::empty(),
    }
}

/// The query that asks for the page that `pagination` names, if it names
/// one.
pub open spec fn pagination_query(pagination: Option<PaginationParams>) -> Seq<char> {
    match pagination {
        Some(params) => page_query(params.page, params.per_page),
        None => Seq::empty(),
    }
}

impl ApiCall {
    /// Whether the call is made with `method` to `endpoint` and sends
    /// `payload`.
    pub open spec fn is(&self, method: HttpMethod, endpoint: Seq<char>, payload: PayloadModel)
        -> bool {
        self.method == method && self.endpoint@ == endpoint && self.payload@ == payload
    }

    /// Whether the call has something to send.
    pub open spec fn has_payload(&self) -> bool {
        !(self.payload is Nothing)
    }

    /// A `GET` of `endpoint`.
    pub fn get(endpoint: String) -> (call: ApiCall)
        ensures
            call.is(HttpMethod::Get, endpoint@, PayloadModel::Nothing),
    {
        ApiCall { method: HttpMethod::Get, endpoint, payload: Payload::Nothing }
    }

    /// A `POST` to `endpoint` without payload.
    pub fn post(endpoint: String) -> (call: ApiCall)
        ensures
            call.is(HttpMethod::Post, endpoint@, PayloadModel::Nothing),
    {
        ApiCall { method: HttpMethod::Post, endpoint, payload: Payload::Nothing }
    }

    /// A call that sends the request value of the operation to `endpoint`.
    pub fn with_request(method: HttpMethod, endpoint: String) -> (call: ApiCall)
        ensures
            call.is(method, endpoint@, PayloadModel::Request),
    {
        ApiCall { method, endpoint, payload: Payload::Request }
    }

    /// A `POST` of `object` to `endpoint`.
    pub fn post_object(endpoint: &str, object: serde_json::Map<String, serde_json::Value>) -> (call:
        ApiCall)
        ensures
            call.is(HttpMethod::Post, endpoint@, PayloadModel::Object(object_members(object))),
    {
        ApiCall {
            method: HttpMethod::Post,
            endpoint: String::from_str(endpoint),
            payload: Payload::Object(object),
        }
    }

    /// A `POST` to `endpoint` of an object with the one member `key`.
    pub fn post_member(endpoint: &str, key: &str, value: &str) -> (call: ApiCall)
        ensures
            call.is(HttpMethod::Post, endpoint@, PayloadModel::Object(one_member(key@, value@))),
    {
        let mut object = new_object();
        insert_string(&mut object, key, value);
        Self::post_object(endpoint, object)
    }

    /// A `POST` to `endpoint` of an object with the member `key` and, where
    /// `more` is given, the member `more_key`.
    pub fn post_members(endpoint: &str, key: &str, value: &str, more_key: &str, more: Option<&str>)
        -> (call: ApiCall)
        ensures
            call.is(
                HttpMethod::Post,
                endpoint@,
                PayloadModel::Object(
                    match more {
                        Some(text) => one_member(key@, value@).insert(more_key@, Some(text@)),
                        None => one_member(key@, value@),
                    },
                ),
            ),
    {
        let mut object = new_object();
        insert_string(&mut object, key, value);
        match more {
            Some(text) => {
                insert_string(&mut object, more_key, text);
            },
            None => {},
        }
        Self::post_object(endpoint, object)
    }

    /// Tells whether the call has something to send.
    pub fn carries_payload(&self) -> (b: bool)
        ensures
            b == self.has_payload(),
    {
        match self.payload {
            Payload::Nothing => false,
            _ => true,
        }
    }
}

/// The text of a string that may be there.
pub fn borrowed(text: &Option<String>) -> (r: Option<&str>)
    ensures
        match *text {
            Some(s) => r matches Some(t) && t@ == s@,
            None => r is None,
        },
{
    match text {
        Some(s) => Some(s.as_str()),
        None => None,
    }
}

/// The three texts one after the other.
pub fn joined(a: &str, b: &str, c: &str) -> (s: String)
    ensures
        s@ == a@ + b@ + c@,
{
    String::from_str(a).concat(b).concat(c)
}

/// The query that asks for a page.
pub fn query_for(page: Option<u32>, per_page: Option<u32>) -> (query: String)
    ensures
        query@ == page_query(page, per_page),
{
    match (page, per_page) {
        (Some(p), Some(n)) => String::from_str("?page=").concat(decimal(p as u128).as_str()).concat(
            "&per_page=",
        ).concat(decimal(n as u128).as_str()),
        (Some(p), None) => String::from_str("?page=").concat(decimal(p as u128).as_str()),
        (None, Some(n)) => String::from_str("?per_page=").concat(decimal(n as u128).as_str()),
        (None, None) => String::new(),
    }
}

/// `endpoint` with the query that asks for the page that `pagination`
/// names, if it names one.
pub fn paged(endpoint: &str, pagination: &Option<PaginationParams>) -> (s: String)
    ensures
        s@ == endpoint@ + pagination_query(*pagination),
{
    let query = match pagination {
        Some(params) => query_for(params.page, params.per_page),
        None => String::new(),
    };
    String::from_str(endpoint).concat(query.as_str())
}

/// The error for an answer that has not the shape of what was asked for.
/// `what` says what was being read, `detail` is the reader's report.
pub fn unreadable(what: &str, detail: &str) -> (e: TapsilatError)
    ensures
        e@ == ErrorModel::ConfigError(what@ + detail@),
{
    TapsilatError::ConfigError(String::from_str(what).concat(detail))
}

/// The error for an answer that is not the JSON that was asked for.
/// `detail` is the reader's report.
pub fn malformed(detail: &str) -> (e: TapsilatError)
    ensures
        e@ == ErrorModel::InvalidResponse("JSON parsing error: "@ + detail@),
{
    TapsilatError::InvalidResponse(String::from_str("JSON parsing error: ").concat(detail))
}

impl<T> ApiResponse<T> {
    /// The message of the failure that an envelope without payload stands
    /// for: its own, or `fallback` where it has none.
    pub open spec fn failure_message(&self, fallback: Seq<char>) -> Seq<char> {
        match self.message {
            Some(m) => m@,
            None => fallback,
        }
    }

    /// Takes the payload out of the envelope. An envelope without payload
    /// is a failure, whatever its `success` says; the failure carries the
    /// message of the envelope, or `fallback` where it has none.
    pub fn into_data(self, fallback: &str) -> (r: Result<T, TapsilatError>)
        ensures
            match self.data {
                Some(data) => r == Ok::<T, TapsilatError>(data),
                None => r matches Err(e) && e@ == ErrorModel::InvalidResponse(
                    self.failure_message(fallback@),
                ),
            },
    {
        match self.data {
            Some(data) => Ok(data),
            None => {
                let message = match self.message {
                    Some(m) => m,
                    None => String::from_str(fallback),
                };
                Err(TapsilatError::InvalidResponse(message))
            },
        }
    }
}

/// Whether `r` is the call with `method`, `endpoint` and `payload` where
/// there is no fault, and the validation error with the message of the
/// fault where there is one.
pub open spec fn call_or_fault(
    r: Result<ApiCall, TapsilatError>,
    fault: Option<Seq<char>>,
    method: HttpMethod,
    endpoint: Seq<char>,
    payload: PayloadModel,
) -> bool {
    match fault {
        None => r matches Ok(call) && call.is(method, endpoint, payload),
        Some(m) => r matches Err(e) && e@ == ErrorModel::ValidationError(m),
    }
}

/// Whether `r` is what the decoded answer `decoded` comes to: the payload
/// of the envelope; the failure that an envelope without payload stands
/// for; or, where the answer could not be decoded, the error that says so.
pub open spec fn payload_or_failure<T>(
    r: Result<T, TapsilatError>,
    decoded: Result<ApiResponse<T>, String>,
    fallback: Seq<char>,
) -> bool {
    match decoded {
        Ok(envelope) => match envelope.data {
            Some(data) => r == Ok::<T, TapsilatError>(data),
            None => r matches Err(e) && e@ == ErrorModel::InvalidResponse(
                envelope.failure_message(fallback),
            ),
        },
        Err(detail) => r matches Err(e) && e@ == ErrorModel::InvalidResponse(
            "JSON parsing error: "@ + detail@,
        ),
    }
}

/// Takes the payload out of a decoded answer.
pub fn payload_of<T>(decoded: Result<ApiResponse<T>, String>, fallback: &str) -> (r: Result<
    T,
    TapsilatError,
>)
    ensures
        payload_or_failure(r, decoded, fallback@),
{
    match decoded {
        Ok(envelope) => envelope.into_data(fallback),
        Err(detail) => Err(malformed(detail.as_str())),
    }
}

/// Refuses an empty identifier with the message `empty`.
pub fn require_id(id: &str, empty: &str) -> (r: Result<(), TapsilatError>)
    ensures
        id@.len() > 0 ==> r is Ok,
        id@.len() == 0 ==> (r matches Err(e) && e@ == ErrorModel::ValidationError(empty@)),
{
    if id.is_empty() {
        Err(TapsilatError::validation(empty))
    } else {
        Ok(())
    }
}

/// Whether `r` is what the decoded answer `decoded` comes to: the value
/// decoded, or the error that says that the answer had not its shape, with
/// `what` before the reader's report.
pub open spec fn decoded_or<T>(
    r: Result<T, TapsilatError>,
    decoded: Result<T, String>,
    what: Seq<char>,
) -> bool {
    match decoded {
        Ok(value) => r == Ok::<T, TapsilatError>(value),
        Err(detail) => r matches Err(e) && e@ == ErrorModel::ConfigError(what + detail@),
    }
}

/// The value decoded, or the error that says that the answer had not its
/// shape.
pub fn unreadable_or<T>(decoded: Result<T, String>, what: &str) -> (r: Result<T, TapsilatError>)
    ensures
        decoded_or(r, decoded, what@),
{
    match decoded {
        Ok(value) => Ok(value),
        Err(detail) => Err(unreadable(what, detail.as_str())),
    }
}

impl TapsilatClient {
    /// The request that makes `call`.
    pub fn prepare(&self, call: &ApiCall) -> (request: HttpRequest)
        ensures
            request.method == call.method,
            request.url@ == joined_url(self.settings().base_url@, call.endpoint@),
            standard_headers(request.headers@, self.settings().api_key@),
            request.body == call.method.body(call.has_payload()),
    {
        self.request(call.method, call.endpoint.as_str(), call.carries_payload())
    }
}

} // verus!
