//! The envelope data types: protocol version, header, request, and
//! response shapes, together with their sanctioned constructors.

use vstd::prelude::*;

verus! {

/// The protocol version tag. Exactly two values exist; on the wire they
/// appear as the JSON strings `"1.0"` and `"2.0"`, and no other string
/// decodes to a version.
#[derive(Clone, Copy, Debug, PartialEq, Eq, Structural)]
pub enum Version {
    One,
    Two,
}

/// The envelope fields shared by every message: the protocol version and
/// an optional non-negative identifier. On the wire the `id` key is always
/// present; an absent identifier is written as JSON `null`.
#[derive(Clone, Copy, Debug, PartialEq, Eq)]
pub struct Header {
    pub jsonrpc: Version,
    pub id: Option<usize>,
}

impl Header {
    /// A header tagged with protocol version 1.
    pub fn v1(id: Option<usize>) -> (h: Self)
        ensures
            h.jsonrpc == Version::One,
            h.id == id,
    {
        Self { jsonrpc: Version::One, id }
    }

    /// A header tagged with protocol version 2.
    pub fn v2(id: Option<usize>) -> (h: Self)
        ensures
            h.jsonrpc == Version::Two,
            h.id == id,
    {
        Self { jsonrpc: Version::Two, id }
    }
}

/// A request: a header together with a caller-supplied payload. On the
/// wire the two are flattened into one object, so the payload's field
/// names must not collide with `jsonrpc` or `id`; the codec does not
/// validate this, it is the caller's responsibility.
#[derive(Debug, PartialEq, Eq)]
pub struct JsonRpcRequest<T> {
    pub header: Header,
    pub payload: T,
}

/// A response body: at most one of `result` and `error` is set by the
/// sanctioned constructors. On the wire an absent field is omitted
/// entirely, never written as `null`. Decoding performs no cross-field
/// validation, so a value decoded from foreign JSON may carry both
/// fields, or neither.
#[derive(Debug, PartialEq, Eq)]
pub struct Response<R, E> {
    pub result: Option<R>,
    pub error: Option<E>,
}

impl<R, E> Response<R, E> {
    /// A successful body: `result` set, `error` absent.
    pub fn result(result: R) -> (r: Self)
        ensures
            r.result == Some(result),
            r.error is None,
    {
        Self { result: Some(result), error: None }
    }

    /// A failed body: `error` set, `result` absent.
    pub fn error(error: E) -> (r: Self)
        ensures
            r.error == Some(error),
            r.result is None,
    {
        Self { result: None, error: Some(error) }
    }
}

/// A full response message: a header flattened together with a response
/// body into one object.
#[derive(Debug, PartialEq, Eq)]
pub struct JsonRpcResponse<R, E>(pub JsonRpcRequest<Response<R, E>>);

impl<R, E> JsonRpcResponse<R, E> {
    /// A successful response: `result` set, `error` absent.
    pub fn result(header: Header, result: R) -> (r: Self)
        ensures
            r.0.header == header,
            r.0.payload.result == Some(result),
            r.0.payload.error is None,
    {
        Self(JsonRpcRequest { header, payload: Response::result(result) })
    }

    /// A failed response: `error` set, `result` absent.
    pub fn error(header: Header, error: E) -> (r: Self)
        ensures
            r.0.header == header,
            r.0.payload.error == Some(error),
            r.0.payload.result is None,
    {
        Self(JsonRpcRequest { header, payload: Response::error(error) })
    }
}

/// What went wrong while decoding, by kind.
#[derive(Clone, Copy, Debug, PartialEq, Eq, Structural)]
pub enum DecodeErrorKind {
    /// A string held none of the recognized values (an unknown version tag).
    UnrecognizedVariant,
    /// A required key was absent from the object.
    MissingField,
    /// A key was present but held the wrong JSON type, or a value outside
    /// its allowed range (a negative identifier).
    TypeMismatch,
}

/// A decode failure: the kind of fault, the offending field where one
/// applies, the shape that was expected there, and the kind of JSON value
/// actually encountered (`None` when the field was absent altogether).
#[derive(Debug, PartialEq, Eq)]
pub struct DecodeError {
    pub kind: DecodeErrorKind,
    pub field: Option<String>,
    pub expected: crate::json::JsonKind,
    pub actual: Option<crate::json::JsonKind>,
}

} // verus!
