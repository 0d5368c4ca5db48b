//! Data types and an explicit codec for the JSON-RPC message envelope.
//!
//! A message envelope is a single flat JSON object carrying a protocol
//! version tag (`jsonrpc`), an optional non-negative identifier (`id`),
//! and either the fields of a caller-supplied payload (requests) or a
//! mutually exclusive `result` / `error` pair (responses).
//!
//! The codec works over [`Json`], a plain value model of JSON documents.
//! Encoding a request merges the header fields and the payload fields
//! into one object; decoding splits them back apart. The round-trip laws
//! are stated and proved in [`codec`].

pub mod codec;
pub mod envelope;
pub mod json;

pub use codec::decode_request;
pub use codec::decode_response;
pub use codec::decode_response_body;
pub use codec::encode_request;
pub use codec::encode_response;
pub use codec::encode_response_body;
pub use envelope::DecodeError;
pub use envelope::DecodeErrorKind;
pub use envelope::Header;
pub use envelope::JsonRpcRequest;
pub use envelope::JsonRpcResponse;
pub use envelope::Response;
pub use envelope::Version;
pub use json::Json;
pub use json::JsonKind;
