//! The client: how a request is put together and how an answer is read.
//!
//! Nothing here touches the network. A request is described by an
//! [`HttpRequest`], which the caller's transport sends; the status and the
//! body that come back are read by [`TapsilatClient::read_response`].

use crate::config::Config;
use crate::error::{ErrorModel, TapsilatError};
use crate::json::{json_parse, json_string_member, json_text, null, parse, string_member};
use crate::text::{
    chars_of, lemma_leading_bounds, lemma_trailing_bounds, same_text, string_of, trim, trim_end,
    trim_end_of, trim_of, trim_start, trim_start_of, uppercase, uppercase_of, CharClass,
};
use vstd::prelude::*;
use vstd::string::StringExecFns;

verus! {

/// What the client calls itself in the `User-Agent` header.
pub const USER_AGENT: &'static str = "tapsilat-rust/0.1.0";

/// The message of an API error whose body names none.
pub const UNKNOWN_API_ERROR: &'static str = "Unknown API error";

/// The lowest status that counts as a failure.
pub const FIRST_ERROR_STATUS: u16 = 400;

/// The HTTP methods that the API is spoken with.
#[derive(Debug, Clone, Copy, PartialEq, Eq, Structural)]
pub enum HttpMethod {
    Get,
    Post,
    Put,
    Delete,
}

/// What a request carries as its body.
#[derive(Debug, Clone, Copy, PartialEq, Eq, Structural)]
pub enum RequestBody {
    /// No body at all.
    Absent,
    /// A body without content.
    Empty,
    /// The payload of the call, written as JSON.
    Json,
}

/// One header of a request.
#[derive(Debug)]
pub struct Header {
    pub name: String,
    pub value: String,
}

/// A request, ready for a transport to send.
#[derive(Debug)]
pub struct HttpRequest {
    pub method: HttpMethod,
    pub url: String,
    pub headers: Vec<Header>,
    pub body: RequestBody,
}

/// A client of the API. It holds a configuration that has been checked.
#[derive(Debug)]
pub struct TapsilatClient {
    config: Config,
}

impl HttpMethod {
    /// The method that an upper-case name stands for.
    pub open spec fn named(upper: Seq<char>) -> Option<HttpMethod> {
        if upper == "GET"@ {
            Some(HttpMethod::Get)
        } else if upper == "POST"@ {
            Some(HttpMethod::Post)
        } else if upper == "PUT"@ {
            Some(HttpMethod::Put)
        } else if upper == "DELETE"@ {
            Some(HttpMethod::Delete)
        } else {
            None
        }
    }

    /// What a request with this method carries: `POST` and `PUT` send the
    /// payload, or an empty body where there is none; the others send no
    /// body.
    pub open spec fn body(self, has_payload: bool) -> RequestBody {
        match self {
            HttpMethod::Get | HttpMethod::Delete => RequestBody::Absent,
            HttpMethod::Post | HttpMethod::Put => if has_payload {
                RequestBody::Json
            } else {
                RequestBody::Empty
            },
        }
    }

    /// The method that an upper-case name stands for.
    pub fn parse(upper: &str) -> (r: Option<HttpMethod>)
        ensures
            r == Self::named(upper@),
    {
        if same_text(upper, "GET") {
            Some(HttpMethod::Get)
        } else if same_text(upper, "POST") {
            Some(HttpMethod::Post)
        } else if same_text(upper, "PUT") {
            Some(HttpMethod::Put)
        } else if same_text(upper, "DELETE") {
            Some(HttpMethod::Delete)
        } else {
            None
        }
    }

    /// The method that a name stands for, in whatever case it is written.
    pub fn from_name(name: &str) -> (r: Option<HttpMethod>)
        ensures
            r == Self::named(uppercase_of(name@)),
    {
        let upper = uppercase(name);
        Self::parse(upper.as_str())
    }

    /// The upper-case name of the method.
    pub fn name(&self) -> (s: &'static str)
        ensures
            Self::named(s@) == Some(*self),
    {
        proof {
            reveal_strlit("GET");
            reveal_strlit("POST");
            reveal_strlit("PUT");
            reveal_strlit("DELETE");
            assert("GET"@.len() == 3 && "POST"@.len() == 4 && "PUT"@.len() == 3 && "DELETE"@.len()
                == 6);
            assert("GET"@[0] == 'G' && "PUT"@[0] == 'P');
        }
        match self {
            HttpMethod::Get => "GET",
            HttpMethod::Post => "POST",
            HttpMethod::Put => "PUT",
            HttpMethod::Delete => "DELETE",
        }
    }

    /// What a request with this method carries.
    pub fn body_for(&self, has_payload: bool) -> (b: RequestBody)
        ensures
            b == self.body(has_payload),
    {
        match self {
            HttpMethod::Get | HttpMethod::Delete => RequestBody::Absent,
            HttpMethod::Post | HttpMethod::Put => if has_payload {
                RequestBody::Json
            } else {
                RequestBody::Empty
            },
        }
    }
}

/// The address of an endpoint: the base URL without the slashes at its end,
/// a slash, and the endpoint without the slashes at its start.
pub open spec fn joined_url(base_url: Seq<char>, endpoint: Seq<char>) -> Seq<char> {
    trim_end_of(base_url, CharClass::Exactly('/')) + seq!['/'] + trim_start_of(
        endpoint,
        CharClass::Exactly('/'),
    )
}

/// Base URL and endpoint meet in one slash: what stands before it does not
/// end with a slash, and what stands after it does not start with one.
pub proof fn lemma_joined_by_one_slash(base_url: Seq<char>, endpoint: Seq<char>)
    ensures
        ({
            let before = trim_end_of(base_url, CharClass::Exactly('/'));
            let after = trim_start_of(endpoint, CharClass::Exactly('/'));
            &&& joined_url(base_url, endpoint) == before + seq!['/'] + after
            &&& before.len() > 0 ==> before.last() != '/'
            &&& after.len() > 0 ==> after[0] != '/'
        }),
{
    lemma_trailing_bounds(base_url, CharClass::Exactly('/'));
    lemma_leading_bounds(endpoint, CharClass::Exactly('/'));
}

/// Whether `headers` are the three headers of a request made with
/// `api_key`: the bearer token, the content type and the client's name.
pub open spec fn standard_headers(headers: Seq<Header>, api_key: Seq<char>) -> bool {
    &&& headers.len() == 3
    &&& headers[0].name@ == "Authorization"@
    &&& headers[0].value@ == "Bearer "@ + api_key
    &&& headers[1].name@ == "Content-Type"@
    &&& headers[1].value@ == "application/json"@
    &&& headers[2].name@ == "User-Agent"@
    &&& headers[2].value@ == USER_AGENT@
}

/// The message of a failure: the one that the body names, if the body is
/// a JSON object with a string under `message`.
pub open spec fn api_message(body: Seq<char>) -> Seq<char> {
    match json_parse(body) {
        Ok(document) => match json_string_member(document, "message"@) {
            Some(message) => message,
            None => UNKNOWN_API_ERROR@,
        },
        Err(_) => UNKNOWN_API_ERROR@,
    }
}

/// What an answer comes to: the compact text of the JSON value that it
/// holds, or the error that it stands for. `body` is the text that was
/// read, or the reason why none could be read.
pub open spec fn response_model(status: u16, body: Result<Seq<char>, Seq<char>>) -> Result<
    Seq<char>,
    ErrorModel,
> {
    if status >= FIRST_ERROR_STATUS {
        Err(
            ErrorModel::ApiError {
                status_code: status,
                message: api_message(
                    match body {
                        Ok(text) => text,
                        Err(_) => Seq::empty(),
                    },
                ),
            },
        )
    } else {
        match body {
            Err(reason) => Err(ErrorModel::ConfigError("Failed to read response body: "@ + reason)),
            Ok(text) => if trim_of(text).len() == 0 {
                Ok(seq!['n', 'u', 'l', 'l'])
            } else {
                match json_parse(text) {
                    Ok(document) => Ok(document),
                    Err(detail) => Err(
                        ErrorModel::ConfigError(
                            "Failed to parse response JSON: "@ + detail + ". Response was: "@
                                + text,
                        ),
                    ),
                }
            },
        }
    }
}

impl Clone for TapsilatClient {
    fn clone(&self) -> (copy: TapsilatClient)
        ensures
            copy.settings() == self.settings(),
    {
        proof {
            use_type_invariant(self);
        }
        TapsilatClient { config: self.config.clone() }
    }
}

impl TapsilatClient {
    #[verifier::type_invariant]
    spec fn checked(self) -> bool {
        self.config.usable()
    }

    /// The configuration that the client was made with.
    pub closed spec fn settings(&self) -> Config {
        self.config
    }

    /// A client with the given configuration, if that can be used.
    pub fn new(config: Config) -> (r: Result<TapsilatClient, TapsilatError>)
        ensures
            r is Ok <==> config.usable(),
            r matches Ok(client) ==> client.settings() == config,
            r matches Err(e) ==> e@ == config.fault(),
    {
        match config.validate() {
            Ok(()) => Ok(TapsilatClient { config }),
            Err(e) => Err(e),
        }
    }

    /// A client with the given key and the default settings.
    pub fn from_api_key(api_key: &str) -> (r: Result<TapsilatClient, TapsilatError>)
        ensures
            r is Ok <==> api_key@.len() > 0,
            r matches Ok(client) ==> client.settings().api_key@ == api_key@,
            r matches Err(e) ==> e@ == ErrorModel::ConfigError("API key cannot be empty"@),
    {
        proof {
            reveal_strlit("https://panel.tapsilat.dev/api/v1");
        }
        Self::new(Config::new(api_key))
    }

    /// The configuration of the client, which is usable.
    pub fn config(&self) -> (config: &Config)
        ensures
            *config == self.settings(),
            config.usable(),
    {
        proof {
            use_type_invariant(self);
        }
        &self.config
    }

    /// The operations on notifications, which need no client.
    pub fn webhooks() -> (module: &'static crate::modules::webhooks::WebhookModule) {
        &crate::modules::webhooks::WebhookModule
    }

    /// The address of `endpoint` under the client's base URL.
    pub fn url_for(&self, endpoint: &str) -> (url: String)
        ensures
            url@ == joined_url(self.settings().base_url@, endpoint@),
    {
        let base = trim_end(&chars_of(self.config.base_url.as_str()), CharClass::Exactly('/'));
        let path = trim_start(&chars_of(endpoint), CharClass::Exactly('/'));
        let mut url = string_of(&base);
        url.append("/");
        url.append(string_of(&path).as_str());
        proof {
            reveal_strlit("/");
            assert("/"@ =~= seq!['/']);
        }
        url
    }

    /// The request for `endpoint` with the given method. `has_payload` says
    /// whether the call has a payload to send.
    pub fn request(&self, method: HttpMethod, endpoint: &str, has_payload: bool) -> (request:
        HttpRequest)
        ensures
            request.method == method,
            request.url@ == joined_url(self.settings().base_url@, endpoint@),
            standard_headers(request.headers@, self.settings().api_key@),
            request.body == method.body(has_payload),
    {
        let mut headers: Vec<Header> = Vec::new();
        headers.push(
            Header {
                name: String::from_str("Authorization"),
                value: String::from_str("Bearer ").concat(self.config.api_key.as_str()),
            },
        );
        headers.push(
            Header {
                name: String::from_str("Content-Type"),
                value: String::from_str("application/json"),
            },
        );
        headers.push(
            Header { name: String::from_str("User-Agent"), value: String::from_str(USER_AGENT) },
        );
        HttpRequest {
            method,
            url: self.url_for(endpoint),
            headers,
            body: method.body_for(has_payload),
        }
    }

    /// The request for `endpoint` with the method of the given name, in
    /// whatever case. A name other than `GET`, `POST`, `PUT` and `DELETE`
    /// is refused.
    pub fn prepare_request(&self, method: &str, endpoint: &str, has_payload: bool) -> (r: Result<
        HttpRequest,
        TapsilatError,
    >)
        ensures
            match HttpMethod::named(uppercase_of(method@)) {
                Some(m) => r matches Ok(request) && request.method == m && request.url@
                    == joined_url(self.settings().base_url@, endpoint@) && standard_headers(
                    request.headers@,
                    self.settings().api_key@,
                ) && request.body == m.body(has_payload),
                None => r matches Err(e) && e@ == ErrorModel::ConfigError(
                    "Unsupported HTTP method: "@ + method@,
                ),
            },
    {
        match HttpMethod::from_name(method) {
            Some(m) => Ok(self.request(m, endpoint, has_payload)),
            None => Err(
                TapsilatError::ConfigError(
                    String::from_str("Unsupported HTTP method: ").concat(method),
                ),
            ),
        }
    }

    /// The error for an answer with a failing status. `message` is what
    /// the body names as message, if it names one.
    pub fn failure_for(status: u16, message: Option<String>) -> (e: TapsilatError)
        ensures
            e@ == (ErrorModel::ApiError {
                status_code: status,
                message: match message {
                    Some(m) => m@,
                    None => UNKNOWN_API_ERROR@,
                },
            }),
    {
        let message = match message {
            Some(m) => m,
            None => String::from_str(UNKNOWN_API_ERROR),
        };
        TapsilatError::ApiError { status_code: status, message }
    }

    /// The error for a body that is not JSON. `detail` is the parser's
    /// report.
    pub fn parse_failure(detail: &str, body: &str) -> (e: TapsilatError)
        ensures
            e@ == ErrorModel::ConfigError(
                "Failed to parse response JSON: "@ + detail@ + ". Response was: "@ + body@,
            ),
    {
        TapsilatError::ConfigError(
            String::from_str("Failed to parse response JSON: ").concat(detail).concat(
                ". Response was: ",
            ).concat(body),
        )
    }

    /// Reads an answer: its status, and its body or the reason why the
    /// body could not be read.
    ///
    /// A status of 400 or above is a failure that carries the message
    /// named in the body. Below that, a body of white space alone stands
    /// for `null`, any other body has to be JSON.
    pub fn read_response(status: u16, body: Result<String, String>) -> (r: Result<
        serde_json::Value,
        TapsilatError,
    >)
        ensures
            match r {
                Ok(value) => response_model(
                    status,
                    match body {
                        Ok(text) => Ok(text@),
                        Err(reason) => Err(reason@),
                    },
                ) == Ok::<Seq<char>, ErrorModel>(json_text(value)),
                Err(e) => response_model(
                    status,
                    match body {
                        Ok(text) => Ok(text@),
                        Err(reason) => Err(reason@),
                    },
                ) == Err::<Seq<char>, ErrorModel>(e@),
            },
    {
        if status >= FIRST_ERROR_STATUS {
            let text = match body {
                Ok(text) => text,
                Err(_) => String::new(),
            };
            let message = match parse(text.as_str()) {
                Ok(value) => string_member(&value, "message"),
                Err(_) => None,
            };
            return Err(Self::failure_for(status, message));
        }
        match body {
            Err(reason) => Err(
                TapsilatError::ConfigError(
                    String::from_str("Failed to read response body: ").concat(reason.as_str()),
                ),
            ),
            Ok(text) => {
                if trim(&chars_of(text.as_str())).len() == 0 {
                    return Ok(null());
                }
                match parse(text.as_str()) {
                    Ok(value) => Ok(value),
                    Err(detail) => Err(Self::parse_failure(detail.as_str(), text.as_str())),
                }
            },
        }
    }
}

} // verus!
