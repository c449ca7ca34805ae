//! The failures that a call can end in, under one type.

use crate::fields::{field, field_at, put};
use crate::json::{json_object, object_new, JsonValue, SyntaxError};
use crate::payload::{Encode, Payload};
use vstd::prelude::*;
use vstd::std_specs::convert::FromSpecImpl;
use vstd::string::*;

verus! {

/// A failure that the remote API reported in the `data` member of its
/// response.
#[derive(Debug, Clone, PartialEq, Eq)]
pub struct ApiError {
    /// Error description.
    pub error: String,
    /// Path of the request that failed.
    pub request: String,
    /// HTTP method used for the request.
    pub method: String,
}

/// The mathematical content of an [`ApiError`].
pub struct ApiErrorView {
    pub error: Seq<char>,
    pub request: Seq<char>,
    pub method: Seq<char>,
}

impl ApiErrorView {
    /// The text that reports this failure to a reader.
    pub open spec fn message(self) -> Seq<char> {
        "Request "@ + self.method + " "@ + self.request + " failed: "@ + self.error
    }
}

impl View for ApiError {
    type V = ApiErrorView;

    open spec fn view(&self) -> ApiErrorView {
        ApiErrorView { error: self.error@, request: self.request@, method: self.method@ }
    }
}

impl DeepView for ApiError {
    type V = ApiErrorView;

    open spec fn deep_view(&self) -> ApiErrorView {
        self@
    }
}

/// The API error that `j` stands for: `j` must be an object whose members
/// `error`, `request` and `method` are strings. Other members are ignored.
pub open spec fn api_error_of(j: JsonValue) -> Option<ApiErrorView> {
    match (
        field_at::<String>(j, "error"@),
        field_at::<String>(j, "request"@),
        field_at::<String>(j, "method"@),
    ) {
        (Some(error), Some(request), Some(method)) => Some(
            ApiErrorView { error, request, method },
        ),
        _ => None,
    }
}

impl Payload for ApiError {
    open spec fn decoded(j: JsonValue) -> Option<ApiErrorView> {
        api_error_of(j)
    }

    fn from_json(v: &serde_json::Value) -> (r: Option<ApiError>) {
        let error = field::<String>(v, "error")?;
        let request = field::<String>(v, "request")?;
        let method = field::<String>(v, "method")?;
        Some(ApiError { error, request, method })
    }
}

/// The members of the object that stands for an API error.
pub open spec fn api_error_members(x: ApiErrorView) -> Map<Seq<char>, JsonValue> {
    Map::empty()
        .insert("error"@, String::encoded(x.error))
        .insert("request"@, String::encoded(x.request))
        .insert("method"@, String::encoded(x.method))
}

impl Encode for ApiError {
    open spec fn encoded(x: ApiErrorView) -> JsonValue {
        JsonValue::Object(api_error_members(x))
    }

    fn to_json(&self) -> (v: serde_json::Value) {
        let mut o = object_new();
        put::<String>(&mut o, "error", &self.error);
        put::<String>(&mut o, "request", &self.request);
        put::<String>(&mut o, "method", &self.method);
        json_object(o)
    }

    proof fn lemma_decodes_back(x: ApiErrorView) {
        lemma_api_error_keys();
        let o = api_error_members(x);
        assert(o.contains_key("error"@) && o["error"@] == String::encoded(x.error));
        assert(o.contains_key("request"@) && o["request"@] == String::encoded(x.request));
        assert(o.contains_key("method"@) && o["method"@] == String::encoded(x.method));
    }
}

/// The keys of an API error differ from one another, and from `id`, by
/// their lengths.
pub proof fn lemma_api_error_keys()
    ensures
        "error"@.len() == 5,
        "request"@.len() == 7,
        "method"@.len() == 6,
        "id"@.len() == 2,
{
    reveal_strlit("error");
    reveal_strlit("request");
    reveal_strlit("method");
    reveal_strlit("id");
}

/// The document that stands for an API error has no member `id`, so it has
/// the shape of no type that requires one.
pub proof fn lemma_api_error_has_no_id(x: ApiErrorView)
    ensures
        crate::fields::member(ApiError::encoded(x), "id"@) is None,
{
    lemma_api_error_keys();
}

impl ApiError {
    /// The display form of the failure: `Request {method} {request} failed: {error}`.
    pub fn to_string(&self) -> (r: String)
        ensures
            r@ == self@.message(),
    {
        let mut s = String::from_str("Request ");
        s.append(self.method.as_str());
        s.append(" ");
        s.append(self.request.as_str());
        s.append(" failed: ");
        s.append(self.error.as_str());
        s
    }

    /// The description that the API gave of the failure.
    pub fn description(&self) -> (r: &str)
        ensures
            r@ == self.error@,
    {
        self.error.as_str()
    }
}

/// The transport could not deliver a response: name resolution, connection,
/// TLS handshake or reading the body failed.
#[derive(Debug, Clone, PartialEq, Eq)]
pub struct TransportError {
    /// The cause, as the transport reported it.
    pub message: String,
}

/// The transport could not be set up when the client was built.
#[derive(Debug, Clone, PartialEq, Eq)]
pub struct ConstructionError {
    /// The cause, as the TLS backend reported it.
    pub message: String,
}

/// Why a response body could not be decoded.
#[derive(Debug, Clone, PartialEq, Eq)]
pub enum DecodeError {
    /// The body is not a JSON document.
    Syntax(SyntaxError),
    /// The document is not an object with an integer `status`, a boolean
    /// `success` and a `data` member.
    Envelope,
    /// `data` has neither the shape of the expected payload nor that of an
    /// API error.
    Data,
}

impl DecodeError {
    /// What [`DecodeError::to_string`] returns.
    pub open spec fn message(self) -> Seq<char> {
        match self {
            DecodeError::Syntax(e) => e.message@,
            DecodeError::Envelope => "response is not an object with status, success and data"@,
            DecodeError::Data => "data matches neither the expected payload nor an API error"@,
        }
    }

    /// The display form of the fault: the parser's own words for a syntax
    /// error, a fixed sentence for each fault of shape.
    pub fn to_string(&self) -> (r: String)
        ensures
            r@ == self.message(),
    {
        match self {
            DecodeError::Syntax(e) => e.message.clone(),
            DecodeError::Envelope => String::from_str(
                "response is not an object with status, success and data",
            ),
            DecodeError::Data => String::from_str(
                "data matches neither the expected payload nor an API error",
            ),
        }
    }
}

/// Every failure of a call.
#[derive(Debug, Clone, PartialEq, Eq)]
pub enum Error {
    /// The network or TLS layer failed.
    Transport(TransportError),
    /// The response body was not a well-formed response.
    Decode(DecodeError),
    /// The remote API answered, and reported a failure.
    Api(ApiError),
    /// The client could not be set up.
    Construction(ConstructionError),
}

impl Error {
    /// What [`Error::to_string`] returns.
    pub open spec fn message(self) -> Seq<char> {
        match self {
            Error::Transport(e) => e.message@,
            Error::Decode(e) => e.message(),
            Error::Api(e) => e@.message(),
            Error::Construction(e) => e.message@,
        }
    }

    /// The display form of the failure: that of its cause.
    pub fn to_string(&self) -> (r: String)
        ensures
            r@ == self.message(),
    {
        match self {
            Error::Transport(e) => e.message.clone(),
            Error::Decode(e) => e.to_string(),
            Error::Api(e) => e.to_string(),
            Error::Construction(e) => e.message.clone(),
        }
    }
}

impl From<ApiError> for Error {
    fn from(e: ApiError) -> (r: Error) {
        Error::Api(e)
    }
}

impl FromSpecImpl<ApiError> for Error {
    open spec fn obeys_from_spec() -> bool {
        true
    }

    open spec fn from_spec(e: ApiError) -> Error {
        Error::Api(e)
    }
}

impl From<DecodeError> for Error {
    fn from(e: DecodeError) -> (r: Error) {
        Error::Decode(e)
    }
}

impl FromSpecImpl<DecodeError> for Error {
    open spec fn obeys_from_spec() -> bool {
        true
    }

    open spec fn from_spec(e: DecodeError) -> Error {
        Error::Decode(e)
    }
}

impl From<TransportError> for Error {
    fn from(e: TransportError) -> (r: Error) {
        Error::Transport(e)
    }
}

impl FromSpecImpl<TransportError> for Error {
    open spec fn obeys_from_spec() -> bool {
        true
    }

    open spec fn from_spec(e: TransportError) -> Error {
        Error::Transport(e)
    }
}

impl From<ConstructionError> for Error {
    fn from(e: ConstructionError) -> (r: Error) {
        Error::Construction(e)
    }
}

impl FromSpecImpl<ConstructionError> for Error {
    open spec fn obeys_from_spec() -> bool {
        true
    }

    open spec fn from_spec(e: ConstructionError) -> Error {
        Error::Construction(e)
    }
}

} // verus!
