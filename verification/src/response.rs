//! The envelope that wraps every response of the API, and its decoding.
//!
//! The wire format carries no tag that tells a payload from an error: the
//! `data` member is read as the expected payload where it has that shape, and
//! as an API error otherwise. `status` and `success` are carried along and
//! decide nothing.

use crate::error::{api_error_of, ApiError, ApiErrorView, DecodeError, Error, TransportError};
use crate::fields::{field, field_at, member, put};
use crate::json::{
    json_document, json_get, json_object, json_of, members_of, object_new, parse_document,
    JsonValue,
};
use crate::payload::{Encode, Payload};
use vstd::prelude::*;

verus! {

/// The `data` member of a response: the payload asked for, or the failure
/// that the API reported in its place.
#[derive(Debug, Clone, PartialEq, Eq)]
pub enum ResponseData<T> {
    /// Successful response.
    Success(T),
    /// Error response.
    Error(ApiError),
}

/// Wrapper type returned from all the web API methods.
#[derive(Debug, Clone, PartialEq, Eq)]
pub struct Response<T> {
    /// HTTP status of the response, as the body states it.
    pub status: usize,
    /// Whether the body says that the request succeeded.
    pub success: bool,
    /// Either data returned from the API or an error (see `ResponseData`).
    pub data: ResponseData<T>,
}

/// The mathematical content of a [`ResponseData`].
pub enum ResponseDataView<V> {
    Success(V),
    Error(ApiErrorView),
}

/// The mathematical content of a [`Response`].
pub struct ResponseView<V> {
    pub status: usize,
    pub success: bool,
    pub data: ResponseDataView<V>,
}

impl<V> ResponseDataView<V> {
    /// The payload, or the failure reported in its place.
    pub open spec fn resolution(self) -> Result<V, ApiErrorView> {
        match self {
            ResponseDataView::Success(v) => Ok(v),
            ResponseDataView::Error(e) => Err(e),
        }
    }
}

impl<T: DeepView> DeepView for ResponseData<T> {
    type V = ResponseDataView<T::V>;

    open spec fn deep_view(&self) -> ResponseDataView<T::V> {
        match self {
            ResponseData::Success(v) => ResponseDataView::Success(v.deep_view()),
            ResponseData::Error(e) => ResponseDataView::Error(e@),
        }
    }
}

impl<T: DeepView> DeepView for Response<T> {
    type V = ResponseView<T::V>;

    open spec fn deep_view(&self) -> ResponseView<T::V> {
        ResponseView {
            status: self.status,
            success: self.success,
            data: self.data.deep_view(),
        }
    }
}

impl<T> ResponseData<T> {
    /// What [`ResponseData::into_result`] returns.
    pub open spec fn resolution(self) -> Result<T, Error> {
        match self {
            ResponseData::Success(v) => Ok(v),
            ResponseData::Error(e) => Err(Error::Api(e)),
        }
    }

    /// Converts `self` into a `Result`: the payload itself on the success
    /// variant, the reported failure as [`Error::Api`] on the error variant.
    pub fn into_result(self) -> (r: Result<T, Error>)
        ensures
            r == self.resolution(),
    {
        match self {
            ResponseData::Success(v) => Ok(v),
            ResponseData::Error(e) => Err(Error::from(e)),
        }
    }
}

/// What a `data` member stands for: the payload where `d` has the shape of
/// `T`, the API error where it has that shape instead, `None` where it has
/// neither.
pub open spec fn data_of<T: Payload>(d: JsonValue) -> Option<ResponseDataView<<T as DeepView>::V>> {
    match T::decoded(d) {
        Some(t) => Some(ResponseDataView::Success(t)),
        None => match api_error_of(d) {
            Some(e) => Some(ResponseDataView::Error(e)),
            None => None,
        },
    }
}

/// Whether `j` is an object with an integer `status` that fits the
/// platform's word, a boolean `success` and a member `data`.
pub open spec fn is_envelope(j: JsonValue) -> bool {
    &&& field_at::<usize>(j, "status"@) is Some
    &&& field_at::<bool>(j, "success"@) is Some
    &&& member(j, "data"@) is Some
}

/// The response that the document `j` stands for, or `None` where `j` is no
/// envelope or its `data` has neither shape.
pub open spec fn response_of<T: Payload>(j: JsonValue) -> Option<ResponseView<<T as DeepView>::V>> {
    if is_envelope(j) {
        match data_of::<T>(member(j, "data"@).unwrap()) {
            Some(data) => Some(
                ResponseView {
                    status: field_at::<usize>(j, "status"@).unwrap(),
                    success: field_at::<bool>(j, "success"@).unwrap(),
                    data,
                },
            ),
            None => None,
        }
    } else {
        None
    }
}

/// The fault of a document that stands for no response.
pub open spec fn shape_fault(j: JsonValue) -> DecodeError {
    if is_envelope(j) {
        DecodeError::Data
    } else {
        DecodeError::Envelope
    }
}

/// Whether `r` is how decoding the body `bytes` must end: a syntax fault
/// where the bytes are no JSON document, the response that the document
/// stands for where it stands for one, and the fault of its shape otherwise.
pub open spec fn decodes_to<T: Payload>(
    bytes: Seq<u8>,
    r: Result<Response<T>, DecodeError>,
) -> bool {
    match json_document(bytes) {
        None => r matches Err(DecodeError::Syntax(_)),
        Some(j) => match response_of::<T>(j) {
            Some(content) => r matches Ok(resp) && resp.deep_view() == content,
            None => r == Err::<Response<T>, DecodeError>(shape_fault(j)),
        },
    }
}

impl<T: Payload> Response<T> {
    /// Decodes a parsed document. `Ok` exactly where the document stands for
    /// a response, and then with that response; otherwise
    /// [`DecodeError::Envelope`] where an envelope member is missing or has
    /// the wrong type, and [`DecodeError::Data`] where only `data` fits no
    /// shape.
    pub fn from_json(v: &serde_json::Value) -> (r: Result<Response<T>, DecodeError>)
        ensures
            match response_of::<T>(json_of(*v)) {
                Some(content) => r matches Ok(resp) && resp.deep_view() == content,
                None => r == Err::<Response<T>, DecodeError>(shape_fault(json_of(*v))),
            },
    {
        let status = match field::<usize>(v, "status") {
            Some(status) => status,
            None => return Err(DecodeError::Envelope),
        };
        let success = match field::<bool>(v, "success") {
            Some(success) => success,
            None => return Err(DecodeError::Envelope),
        };
        let d = match json_get(v, "data") {
            Some(d) => d,
            None => return Err(DecodeError::Envelope),
        };
        let data = match T::from_json(d) {
            Some(t) => ResponseData::Success(t),
            None => match ApiError::from_json(d) {
                Some(e) => ResponseData::Error(e),
                None => return Err(DecodeError::Data),
            },
        };
        Ok(Response { status, success, data })
    }

    /// Decodes a response body: parses it as JSON, then decodes the document
    /// as [`Response::from_json`] does. A body that is no JSON document gives
    /// [`DecodeError::Syntax`].
    pub fn from_slice(body: &[u8]) -> (r: Result<Response<T>, DecodeError>)
        ensures
            decodes_to::<T>(body@, r),
    {
        match parse_document(body) {
            Ok(v) => Response::from_json(&v),
            Err(e) => Err(DecodeError::Syntax(e)),
        }
    }

    /// Ends a call: takes what the transport delivered, the whole body or
    /// its failure, and gives the typed result. A transport failure is
    /// handed on as [`Error::Transport`] and nothing is decoded; a body is
    /// decoded as [`Response::from_slice`] does, a fault becoming
    /// [`Error::Decode`].
    pub fn from_reply(reply: Result<Vec<u8>, TransportError>) -> (r: Result<Response<T>, Error>)
        ensures
            match reply {
                Err(cause) => r == Err::<Response<T>, Error>(Error::Transport(cause)),
                Ok(body) => match r {
                    Ok(resp) => decodes_to::<T>(body@, Ok(resp)),
                    Err(Error::Decode(fault)) => decodes_to::<T>(body@, Err(fault)),
                    Err(_) => false,
                },
            },
    {
        match reply {
            Err(cause) => Err(Error::from(cause)),
            Ok(body) => match Response::from_slice(body.as_slice()) {
                Ok(resp) => Ok(resp),
                Err(fault) => Err(Error::from(fault)),
            },
        }
    }
}

/// The document that stands for a `data` member: that of the payload, or
/// that of the API error. No tag tells the two apart.
pub open spec fn data_encoded<T: Encode>(x: ResponseDataView<<T as DeepView>::V>) -> JsonValue {
    match x {
        ResponseDataView::Success(t) => T::encoded(t),
        ResponseDataView::Error(e) => ApiError::encoded(e),
    }
}

/// The document that stands for a response: an object with the members
/// `status`, `success` and `data`.
pub open spec fn response_encoded<T: Encode>(x: ResponseView<<T as DeepView>::V>) -> JsonValue {
    JsonValue::Object(
        Map::empty()
            .insert("status"@, usize::encoded(x.status))
            .insert("success"@, bool::encoded(x.success))
            .insert("data"@, data_encoded::<T>(x.data)),
    )
}

impl<T: Encode> ResponseData<T> {
    /// Builds the document that stands for the data.
    pub fn to_json(&self) -> (v: serde_json::Value)
        ensures
            json_of(v) == data_encoded::<T>(self.deep_view()),
    {
        match self {
            ResponseData::Success(t) => t.to_json(),
            ResponseData::Error(e) => e.to_json(),
        }
    }
}

impl<T: Encode> Response<T> {
    /// Builds the document that stands for the response.
    pub fn to_json(&self) -> (v: serde_json::Value)
        ensures
            json_of(v) == response_encoded::<T>(self.deep_view()),
    {
        let mut o = object_new();
        put::<usize>(&mut o, "status", &self.status);
        put::<bool>(&mut o, "success", &self.success);
        let data = self.data.to_json();
        o.insert("data".to_owned(), data);
        json_object(o)
    }
}

/// The keys of the envelope differ from one another: by their lengths, or by
/// their first characters.
pub proof fn lemma_envelope_keys()
    ensures
        "status"@.len() == 6,
        "success"@.len() == 7,
        "data"@.len() == 4,
{
    reveal_strlit("status");
    reveal_strlit("success");
    reveal_strlit("data");
}

/// Decoding the document that stands for a response gives the response
/// back. For the error variant this needs that the document of the error
/// does not have the shape of the payload, which is read first.
pub proof fn lemma_response_decodes_back<T: Encode>(x: ResponseView<<T as DeepView>::V>)
    requires
        x.data matches ResponseDataView::Error(e) ==> T::decoded(ApiError::encoded(e)) is None,
    ensures
        response_of::<T>(response_encoded::<T>(x)) == Some(x),
{
    lemma_envelope_keys();
    let j = response_encoded::<T>(x);
    let o = j->Object_0;
    assert(o.contains_key("status"@) && o["status"@] == usize::encoded(x.status));
    assert(o.contains_key("success"@) && o["success"@] == bool::encoded(x.success));
    assert(o.contains_key("data"@) && o["data"@] == data_encoded::<T>(x.data));
    match x.data {
        ResponseDataView::Success(t) => {
            T::lemma_decodes_back(t);
        },
        ResponseDataView::Error(e) => {
            ApiError::lemma_decodes_back(e);
        },
    }
}

/// A response of a sequence always decodes back: the document of an API
/// error is an object, and a sequence is read from an array only.
pub proof fn lemma_sequence_response_decodes_back<T: Encode>(
    x: ResponseView<Seq<<T as DeepView>::V>>,
)
    ensures
        response_of::<Vec<T>>(response_encoded::<Vec<T>>(x)) == Some(x),
{
    lemma_response_decodes_back::<Vec<T>>(x);
}

/// The result of [`ResponseData::into_result`] holds what the content of the
/// data resolves to: the same payload, or the same three strings of the
/// reported failure.
pub proof fn lemma_resolution_keeps_content<T: DeepView>(data: ResponseData<T>)
    ensures
        match data.resolution() {
            Ok(t) => data.deep_view().resolution() == Ok::<T::V, ApiErrorView>(t.deep_view()),
            Err(e) => e matches Error::Api(a) && data.deep_view().resolution() == Err::<
                T::V,
                ApiErrorView,
            >(a@),
        },
{
}

/// Where the `data` member of an envelope has the shape of the payload, the
/// document decodes to the success variant, and the response resolves to the
/// payload that `data` stands for. The values of `status` and `success` play
/// no part.
pub proof fn lemma_payload_shape_decodes_to_success<T: Payload>(j: JsonValue)
    requires
        is_envelope(j),
        T::decoded(member(j, "data"@).unwrap()) is Some,
    ensures
        response_of::<T>(j) matches Some(content) && content.data == ResponseDataView::<
            <T as DeepView>::V,
        >::Success(T::decoded(member(j, "data"@).unwrap()).unwrap()) && content.data.resolution()
            == Ok::<<T as DeepView>::V, ApiErrorView>(
            T::decoded(member(j, "data"@).unwrap()).unwrap(),
        ),
{
}

/// Where the `data` member of an envelope has the shape of an API error and
/// not that of the payload, the document decodes to the error variant,
/// whatever `status` and `success` say, and the response resolves to that
/// error with its three strings.
pub proof fn lemma_error_shape_decodes_to_error<T: Payload>(j: JsonValue)
    requires
        is_envelope(j),
        T::decoded(member(j, "data"@).unwrap()) is None,
        api_error_of(member(j, "data"@).unwrap()) is Some,
    ensures
        response_of::<T>(j) matches Some(content) && content.data == ResponseDataView::<
            <T as DeepView>::V,
        >::Error(api_error_of(member(j, "data"@).unwrap()).unwrap())
            && content.data.resolution() == Err::<<T as DeepView>::V, ApiErrorView>(
            api_error_of(member(j, "data"@).unwrap()).unwrap(),
        ),
{
}

/// A document stands for a response only if it is an envelope whose `data`
/// has one of the two shapes: nothing is filled in for a member that is
/// missing or of the wrong type.
pub proof fn lemma_response_needs_shape<T: Payload>(j: JsonValue)
    ensures
        response_of::<T>(j) is Some <==> is_envelope(j) && (T::decoded(
            member(j, "data"@).unwrap(),
        ) is Some || api_error_of(member(j, "data"@).unwrap()) is Some),
{
}

} // verus!
