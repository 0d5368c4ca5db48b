//! The envelope codec: encoding the envelope types to [`Json`] values and
//! decoding them back, together with the round-trip laws.

use vstd::prelude::*;

use crate::envelope::DecodeError;
use crate::envelope::DecodeErrorKind;
use crate::envelope::Header;
use crate::envelope::JsonRpcRequest;
use crate::envelope::JsonRpcResponse;
use crate::envelope::Response;
use crate::envelope::Version;
use crate::json::lemma_lookup_concat;
use crate::json::lookup;
use crate::json::lookup_ref;
use crate::json::str_eq;
use crate::json::Json;
use crate::json::JsonKind;

verus! {

/// The wire text of a protocol version: `"1.0"` or `"2.0"`.
pub open spec fn version_chars(v: Version) -> Seq<char> {
    match v {
        Version::One => "1.0"@,
        Version::Two => "2.0"@,
    }
}

/// The protocol version a string decodes to, if any: exactly `"1.0"` and
/// `"2.0"` are recognized.
pub open spec fn version_of_chars(s: Seq<char>) -> Option<Version> {
    if s == "1.0"@ {
        Some(Version::One)
    } else if s == "2.0"@ {
        Some(Version::Two)
    } else {
        None
    }
}

impl Version {
    /// The wire text of this version.
    pub fn to_text(&self) -> (r: String)
        ensures
            r@ == version_chars(*self),
    {
        match self {
            Version::One => "1.0".to_owned(),
            Version::Two => "2.0".to_owned(),
        }
    }

    /// This version as a JSON value: the string `"1.0"` or `"2.0"`.
    pub fn to_json(&self) -> (r: Json)
        ensures
            r matches Json::Text(s) && s@ == version_chars(*self),
    {
        Json::Text(self.to_text())
    }

    /// Decodes a version from its wire text. Any string other than
    /// `"1.0"` and `"2.0"` is rejected as an unrecognized variant.
    pub fn from_text(s: &str) -> (r: Result<Version, DecodeError>)
        ensures
            match version_of_chars(s@) {
                Some(v) => r == Ok::<Version, DecodeError>(v),
                None => r matches Err(e) && e.kind == DecodeErrorKind::UnrecognizedVariant
                    && e.field is None && e.expected == JsonKind::Text && e.actual == Some(
                    JsonKind::Text,
                ),
            },
    {
        if str_eq(s, "1.0") {
            Ok(Version::One)
        } else if str_eq(s, "2.0") {
            Ok(Version::Two)
        } else {
            Err(
                DecodeError {
                    kind: DecodeErrorKind::UnrecognizedVariant,
                    field: None,
                    expected: JsonKind::Text,
                    actual: Some(JsonKind::Text),
                },
            )
        }
    }

    /// Decodes a version from a JSON value: it must be a string holding
    /// one of the two recognized tags.
    pub fn from_json(j: &Json) -> (r: Result<Version, DecodeError>)
        ensures
            match *j {
                Json::Text(s) => match version_of_chars(s@) {
                    Some(v) => r == Ok::<Version, DecodeError>(v),
                    None => r matches Err(e) && e.kind == DecodeErrorKind::UnrecognizedVariant,
                },
                _ => r matches Err(e) && e.kind == DecodeErrorKind::TypeMismatch && e.expected
                    == JsonKind::Text && e.actual == Some(j.kind()),
            },
    {
        match j {
            Json::Text(s) => Version::from_text(s.as_str()),
            _ => Err(
                DecodeError {
                    kind: DecodeErrorKind::TypeMismatch,
                    field: None,
                    expected: JsonKind::Text,
                    actual: Some(j.kind_of()),
                },
            ),
        }
    }
}

/// Every valid protocol version survives the round trip through its wire
/// text: decoding what encode produced yields the version itself.
pub proof fn lemma_version_round_trip(v: Version)
    ensures
        version_of_chars(version_chars(v)) == Some(v),
{
    reveal_strlit("1.0");
    reveal_strlit("2.0");
    assert("1.0"@.len() == 3);
    assert("2.0"@.len() == 3);
    assert("1.0"@[0] == '1');
    assert("2.0"@[0] == '2');
}

/// The identifier as a JSON value: a number when present, `null` when
/// absent. The `id` key itself is always written.
pub open spec fn id_to_json(id: Option<usize>) -> Json {
    match id {
        Some(n) => Json::Number(n as i128),
        None => Json::Null,
    }
}

/// The identifier a JSON value decodes to: `null` means absent, a number
/// must be a non-negative integer that fits the identifier type, and any
/// other kind of value is a type mismatch.
pub open spec fn id_of_json(j: Json) -> Result<Option<usize>, DecodeErrorKind> {
    match j {
        Json::Null => Ok(None),
        Json::Number(n) => if 0 <= n && n <= usize::MAX as i128 {
            Ok(Some(n as usize))
        } else {
            Err(DecodeErrorKind::TypeMismatch)
        },
        _ => Err(DecodeErrorKind::TypeMismatch),
    }
}

/// The exact field list a header encodes to: `jsonrpc` holding the
/// version's wire text, then `id` holding the identifier or `null`.
pub open spec fn is_header_fields(fields: Seq<(String, Json)>, h: Header) -> bool {
    &&& fields.len() == 2
    &&& fields[0].0@ == "jsonrpc"@
    &&& fields[0].1 matches Json::Text(s) && s@ == version_chars(h.jsonrpc)
    &&& fields[1].0@ == "id"@
    &&& fields[1].1 == id_to_json(h.id)
}

/// The header an object's field list decodes to, or the kind of failure
/// and the offending key: a missing `jsonrpc` key, a `jsonrpc` value that
/// is not a string or not a recognized tag, or an `id` value that is
/// neither `null` nor a fitting non-negative number.
pub open spec fn header_of_fields(fields: Seq<(String, Json)>) -> Result<
    Header,
    (DecodeErrorKind, Seq<char>),
> {
    match lookup(fields, "jsonrpc"@) {
        Option::None => Err((DecodeErrorKind::MissingField, "jsonrpc"@)),
        Option::Some(vj) => match vj {
            Json::Text(s) => match version_of_chars(s@) {
                Option::Some(ver) => match lookup(fields, "id"@) {
                    Option::None => Ok(Header { jsonrpc: ver, id: None }),
                    Option::Some(ij) => match id_of_json(ij) {
                        Result::Ok(id) => Ok(Header { jsonrpc: ver, id }),
                        Result::Err(k) => Err((k, "id"@)),
                    },
                },
                Option::None => Err((DecodeErrorKind::UnrecognizedVariant, "jsonrpc"@)),
            },
            _ => Err((DecodeErrorKind::TypeMismatch, "jsonrpc"@)),
        },
    }
}

impl Header {
    /// This header as an object's field list: `jsonrpc`, then `id`.
    pub fn to_fields(&self) -> (r: Vec<(String, Json)>)
        ensures
            is_header_fields(r@, *self),
    {
        let mut fields: Vec<(String, Json)> = Vec::new();
        fields.push(("jsonrpc".to_owned(), self.jsonrpc.to_json()));
        let id_value = match self.id {
            Some(n) => Json::Number(n as i128),
            None => Json::Null,
        };
        fields.push(("id".to_owned(), id_value));
        fields
    }

    /// This header as a JSON object.
    pub fn to_json(&self) -> (r: Json)
        ensures
            r matches Json::Object(f) && is_header_fields(f@, *self),
    {
        Json::Object(self.to_fields())
    }

    /// Decodes a header from an object's field list, per
    /// [`header_of_fields`]. The reported error carries the offending
    /// key's name.
    pub fn from_fields(fields: &Vec<(String, Json)>) -> (r: Result<Header, DecodeError>)
        ensures
            match header_of_fields(fields@) {
                Ok(h) => r == Ok::<Header, DecodeError>(h),
                Err((k, name)) => r matches Err(e) && e.kind == k && (e.field matches Some(f)
                    && f@ == name),
            },
    {
        let version_value = match lookup_ref(fields, "jsonrpc") {
            Some(j) => j,
            None => {
                return Err(
                    DecodeError {
                        kind: DecodeErrorKind::MissingField,
                        field: Some("jsonrpc".to_owned()),
                        expected: JsonKind::Text,
                        actual: None,
                    },
                );
            },
        };
        let jsonrpc = match version_value {
            Json::Text(s) => match Version::from_text(s.as_str()) {
                Ok(v) => v,
                Err(_) => {
                    return Err(
                        DecodeError {
                            kind: DecodeErrorKind::UnrecognizedVariant,
                            field: Some("jsonrpc".to_owned()),
                            expected: JsonKind::Text,
                            actual: Some(JsonKind::Text),
                        },
                    );
                },
            },
            _ => {
                return Err(
                    DecodeError {
                        kind: DecodeErrorKind::TypeMismatch,
                        field: Some("jsonrpc".to_owned()),
                        expected: JsonKind::Text,
                        actual: Some(version_value.kind_of()),
                    },
                );
            },
        };
        let id: Option<usize> = match lookup_ref(fields, "id") {
            None => None,
            Some(id_value) => match id_value {
                Json::Null => None,
                Json::Number(n) => {
                    let n: i128 = *n;
                    if 0 <= n && n <= usize::MAX as i128 {
                        Some(n as usize)
                    } else {
                        return Err(
                            DecodeError {
                                kind: DecodeErrorKind::TypeMismatch,
                                field: Some("id".to_owned()),
                                expected: JsonKind::Number,
                                actual: Some(JsonKind::Number),
                            },
                        );
                    }
                },
                _ => {
                    return Err(
                        DecodeError {
                            kind: DecodeErrorKind::TypeMismatch,
                            field: Some("id".to_owned()),
                            expected: JsonKind::Number,
                            actual: Some(id_value.kind_of()),
                        },
                    );
                },
            },
        };
        Ok(Header { jsonrpc, id })
    }

    /// Decodes a header from a JSON value, which must be an object.
    pub fn from_json(j: &Json) -> (r: Result<Header, DecodeError>)
        ensures
            match *j {
                Json::Object(fields) => match header_of_fields(fields@) {
                    Ok(h) => r == Ok::<Header, DecodeError>(h),
                    Err((k, name)) => r matches Err(e) && e.kind == k && (e.field matches Some(f)
                        && f@ == name),
                },
                _ => r matches Err(e) && e.kind == DecodeErrorKind::TypeMismatch && e.field is None
                    && e.expected == JsonKind::Object && e.actual == Some(j.kind()),
            },
    {
        match j {
            Json::Object(fields) => Header::from_fields(fields),
            _ => Err(
                DecodeError {
                    kind: DecodeErrorKind::TypeMismatch,
                    field: None,
                    expected: JsonKind::Object,
                    actual: Some(j.kind_of()),
                },
            ),
        }
    }
}

/// Every valid header survives the round trip: any field list that encode
/// produces for a header decodes back to that very header.
pub proof fn lemma_header_round_trip(fields: Seq<(String, Json)>, h: Header)
    requires
        is_header_fields(fields, h),
    ensures
        header_of_fields(fields) == Ok::<Header, (DecodeErrorKind, Seq<char>)>(h),
{
    reveal_strlit("jsonrpc");
    reveal_strlit("id");
    assert("jsonrpc"@.len() == 7);
    assert("id"@.len() == 2);
    assert(lookup(fields, "jsonrpc"@) == Some(fields[0].1));
    assert(fields.drop_first()[0] == fields[1]);
    assert(lookup(fields.drop_first(), "id"@) == Some(fields[1].1));
    assert(lookup(fields, "id"@) == Some(fields[1].1));
    lemma_version_round_trip(h.jsonrpc);
    match h.id {
        Some(n) => {
            assert(0 <= n as i128 <= usize::MAX as i128);
            assert(id_of_json(id_to_json(h.id)) == Ok::<Option<usize>, DecodeErrorKind>(h.id));
        },
        None => {},
    }
}

/// Encodes a request: the header's fields and the payload's fields,
/// merged into one flat JSON object, header fields first. The payload is
/// handed over already rendered to its own field list by its own encoder.
/// Colliding payload keys are not validated; the header's fields come
/// first, so envelope decoding always reads the header's own values.
pub fn encode_request(header: &Header, payload_fields: Vec<(String, Json)>) -> (r: Json)
    ensures
        r matches Json::Object(f) && f@.len() == 2 + payload_fields@.len() && is_header_fields(
            f@.take(2),
            *header,
        ) && f@.skip(2) == payload_fields@,
{
    let ghost pf = payload_fields@;
    let mut fields = header.to_fields();
    let mut tail = payload_fields;
    fields.append(&mut tail);
    proof {
        assert(is_header_fields(fields@.take(2), *header)) by {
            assert(fields@.take(2)[0] == fields@[0]);
            assert(fields@.take(2)[1] == fields@[1]);
            assert(fields@.take(2).len() == 2);
        }
        assert(fields@.skip(2) =~= pf);
    }
    Json::Object(fields)
}

/// Decodes a request envelope: reads the header out of the object and
/// hands the entire field list back for the payload's own decoder, which
/// must tolerate the envelope keys `jsonrpc` and `id` among its input.
pub fn decode_request(j: Json) -> (r: Result<(Header, Vec<(String, Json)>), DecodeError>)
    ensures
        match j {
            Json::Object(fields) => match header_of_fields(fields@) {
                Ok(h) => r matches Ok(p) && p.0 == h && p.1@ == fields@,
                Err((k, name)) => r matches Err(e) && e.kind == k && (e.field matches Some(f)
                    && f@ == name),
            },
            _ => r matches Err(e) && e.kind == DecodeErrorKind::TypeMismatch && e.field is None
                && e.expected == JsonKind::Object && e.actual == Some(j.kind()),
        },
{
    match j {
        Json::Object(fields) => match Header::from_fields(&fields) {
            Ok(h) => Ok((h, fields)),
            Err(e) => Err(e),
        },
        _ => Err(
            DecodeError {
                kind: DecodeErrorKind::TypeMismatch,
                field: None,
                expected: JsonKind::Object,
                actual: Some(j.kind_of()),
            },
        ),
    }
}

/// Every valid request survives the round trip at the envelope level.
/// For any header field list and any payload field list that keeps clear
/// of the envelope keys, the merged object decodes back to the very same
/// header, and every payload key still reads exactly as it did in the
/// payload's own field list — so a payload decoder that ignores the
/// envelope keys recovers precisely what its encoder produced.
pub proof fn lemma_request_round_trip(
    header_fields: Seq<(String, Json)>,
    payload_fields: Seq<(String, Json)>,
    h: Header,
)
    requires
        is_header_fields(header_fields, h),
    ensures
        header_of_fields(header_fields + payload_fields) == Ok::<
            Header,
            (DecodeErrorKind, Seq<char>),
        >(h),
        forall|key: Seq<char>|
            key != "jsonrpc"@ && key != "id"@ ==> #[trigger] lookup(
                header_fields + payload_fields,
                key,
            ) == lookup(payload_fields, key),
{
    reveal_strlit("jsonrpc");
    reveal_strlit("id");
    assert("jsonrpc"@.len() == 7);
    assert("id"@.len() == 2);
    lemma_header_round_trip(header_fields, h);
    lemma_lookup_concat(header_fields, payload_fields, "jsonrpc"@);
    lemma_lookup_concat(header_fields, payload_fields, "id"@);
    assert(lookup(header_fields, "jsonrpc"@) == Some(header_fields[0].1));
    assert(header_fields.drop_first()[0] == header_fields[1]);
    assert(header_fields.drop_first().len() == 1);
    assert(lookup(header_fields.drop_first(), "id"@) == Some(header_fields[1].1));
    assert(lookup(header_fields, "id"@) == Some(header_fields[1].1));
    assert(lookup(header_fields + payload_fields, "jsonrpc"@) == lookup(
        header_fields,
        "jsonrpc"@,
    ));
    assert(lookup(header_fields + payload_fields, "id"@) == lookup(header_fields, "id"@));
    assert forall|key: Seq<char>| key != "jsonrpc"@ && key != "id"@ implies #[trigger] lookup(
        header_fields + payload_fields,
        key,
    ) == lookup(payload_fields, key) by {
        lemma_lookup_concat(header_fields, payload_fields, key);
        assert(header_fields.drop_first()[0] == header_fields[1]);
        assert(header_fields.drop_first().drop_first() =~= Seq::<(String, Json)>::empty());
        assert(lookup(header_fields.drop_first().drop_first(), key) is None);
        assert(lookup(header_fields.drop_first(), key) is None);
        assert(lookup(header_fields, key) is None);
    }
}

/// The exact field list a response body encodes to: a `result` pair when
/// `result` is set, then an `error` pair when `error` is set; an absent
/// field contributes no pair at all.
pub open spec fn is_body_fields(fields: Seq<(String, Json)>, body: Response<Json, Json>) -> bool {
    match (body.result, body.error) {
        (Option::None, Option::None) => fields.len() == 0,
        (Option::Some(x), Option::None) => fields.len() == 1 && fields[0].0@ == "result"@
            && fields[0].1 == x,
        (Option::None, Option::Some(y)) => fields.len() == 1 && fields[0].0@ == "error"@
            && fields[0].1 == y,
        (Option::Some(x), Option::Some(y)) => fields.len() == 2 && fields[0].0@ == "result"@
            && fields[0].1 == x && fields[1].0@ == "error"@ && fields[1].1 == y,
    }
}

/// Encodes a response body. An absent `result` or `error` is omitted from
/// the object entirely — never written as `null` — so the encoded list
/// holds an `error` key only when `error` is set, and a `result` key only
/// when `result` is set.
pub fn encode_response_body(body: Response<Json, Json>) -> (r: Vec<(String, Json)>)
    ensures
        is_body_fields(r@, body),
        lookup(r@, "result"@) == body.result,
        lookup(r@, "error"@) == body.error,
{
    let Response { result, error } = body;
    let mut fields: Vec<(String, Json)> = Vec::new();
    if let Some(x) = result {
        fields.push(("result".to_owned(), x));
    }
    if let Some(y) = error {
        fields.push(("error".to_owned(), y));
    }
    proof {
        lemma_body_fields_lookup(fields@, body);
    }
    fields
}

/// In any field list of the exact shape a response body encodes to, the
/// `result` and `error` keys read back exactly the body's own fields.
pub proof fn lemma_body_fields_lookup(fields: Seq<(String, Json)>, body: Response<Json, Json>)
    requires
        is_body_fields(fields, body),
    ensures
        lookup(fields, "result"@) == body.result,
        lookup(fields, "error"@) == body.error,
{
    reveal_strlit("result");
    reveal_strlit("error");
    assert("result"@.len() == 6);
    assert("error"@.len() == 5);
    match (body.result, body.error) {
        (Option::Some(x), Option::Some(y)) => {
            assert(fields.drop_first()[0] == fields[1]);
            assert(fields.drop_first().len() == 1);
            assert(lookup(fields.drop_first(), "error"@) == Some(fields[1].1));
        },
        (Option::Some(x), Option::None) => {
            assert(fields.drop_first().len() == 0);
            assert(lookup(fields.drop_first(), "error"@) is None);
        },
        (Option::None, Option::Some(y)) => {
            assert(fields.drop_first().len() == 0);
            assert(lookup(fields.drop_first(), "result"@) is None);
        },
        (Option::None, Option::None) => {},
    }
}

/// Decodes a response body from an object's field list: each of `result`
/// and `error` is read by its first occurrence if present, and left
/// absent otherwise. No cross-field validation is performed: foreign JSON
/// may yield both fields set, or neither.
pub fn decode_response_body(fields: Vec<(String, Json)>) -> (body: Response<Json, Json>)
    ensures
        body.result == lookup(fields@, "result"@),
        body.error == lookup(fields@, "error"@),
{
    let ghost g = fields@;
    let mut rest = fields;
    let mut result: Option<Json> = None;
    let mut error: Option<Json> = None;
    proof {
        assert(g.skip(g.len() as int) =~= Seq::<(String, Json)>::empty());
        assert(g.take(g.len() as int) =~= g);
    }
    while rest.len() > 0
        invariant
            rest@.len() <= g.len(),
            rest@ == g.take(rest@.len() as int),
            result == lookup(g.skip(rest@.len() as int), "result"@),
            error == lookup(g.skip(rest@.len() as int), "error"@),
        decreases rest.len(),
    {
        let ghost n = rest@.len() as int;
        let pair = rest.pop().unwrap();
        proof {
            reveal_strlit("result");
            reveal_strlit("error");
            assert("result"@.len() == 6);
            assert("error"@.len() == 5);
            assert(g.take(n).subrange(0, n - 1) =~= g.take(n - 1));
            assert(g.take(n)[n - 1] == g[n - 1]);
            assert(g.skip(n - 1)[0] == g[n - 1]);
            assert(g.skip(n - 1).drop_first() =~= g.skip(n));
        }
        let (k, v) = pair;
        if str_eq(k.as_str(), "result") {
            result = Some(v);
        } else if str_eq(k.as_str(), "error") {
            error = Some(v);
        }
    }
    proof {
        assert(g.skip(0) =~= g);
    }
    Response { result, error }
}

/// Encodes a full response: the header's fields and the body's fields
/// merged into one flat JSON object, header fields first.
pub fn encode_response(response: JsonRpcResponse<Json, Json>) -> (r: Json)
    ensures
        r matches Json::Object(f) && is_header_fields(f@.take(2), response.0.header)
            && is_body_fields(f@.skip(2), response.0.payload),
{
    let JsonRpcResponse(JsonRpcRequest { header, payload }) = response;
    let mut fields = header.to_fields();
    let mut body_fields = encode_response_body(payload);
    let ghost bf = body_fields@;
    fields.append(&mut body_fields);
    proof {
        assert(is_header_fields(fields@.take(2), response.0.header)) by {
            assert(fields@.take(2)[0] == fields@[0]);
            assert(fields@.take(2)[1] == fields@[1]);
            assert(fields@.take(2).len() == 2);
        }
        assert(fields@.skip(2) =~= bf);
    }
    Json::Object(fields)
}

/// Decodes a full response: the header is read from the envelope keys,
/// and the body is read from the same flat object, `result` and `error`
/// each by its first occurrence.
pub fn decode_response(j: Json) -> (r: Result<JsonRpcResponse<Json, Json>, DecodeError>)
    ensures
        match j {
            Json::Object(fields) => match header_of_fields(fields@) {
                Ok(h) => r matches Ok(resp) && resp.0.header == h && resp.0.payload.result
                    == lookup(fields@, "result"@) && resp.0.payload.error == lookup(
                    fields@,
                    "error"@,
                ),
                Err((k, name)) => r matches Err(e) && e.kind == k && (e.field matches Some(f)
                    && f@ == name),
            },
            _ => r matches Err(e) && e.kind == DecodeErrorKind::TypeMismatch && e.field is None
                && e.expected == JsonKind::Object && e.actual == Some(j.kind()),
        },
{
    match j {
        Json::Object(fields) => match Header::from_fields(&fields) {
            Ok(header) => {
                let payload = decode_response_body(fields);
                Ok(JsonRpcResponse(JsonRpcRequest { header, payload }))
            },
            Err(e) => Err(e),
        },
        _ => Err(
            DecodeError {
                kind: DecodeErrorKind::TypeMismatch,
                field: None,
                expected: JsonKind::Object,
                actual: Some(j.kind_of()),
            },
        ),
    }
}

/// Every response built by the sanctioned constructors survives the
/// round trip: the merged object decodes back to the same header, the
/// same `result`, and the same `error`.
pub proof fn lemma_response_round_trip(
    header_fields: Seq<(String, Json)>,
    body_fields: Seq<(String, Json)>,
    h: Header,
    body: Response<Json, Json>,
)
    requires
        is_header_fields(header_fields, h),
        is_body_fields(body_fields, body),
    ensures
        header_of_fields(header_fields + body_fields) == Ok::<
            Header,
            (DecodeErrorKind, Seq<char>),
        >(h),
        lookup(header_fields + body_fields, "result"@) == body.result,
        lookup(header_fields + body_fields, "error"@) == body.error,
{
    reveal_strlit("jsonrpc");
    reveal_strlit("id");
    reveal_strlit("result");
    reveal_strlit("error");
    assert("jsonrpc"@.len() == 7);
    assert("id"@.len() == 2);
    assert("result"@.len() == 6);
    assert("error"@.len() == 5);
    lemma_request_round_trip(header_fields, body_fields, h);
    lemma_body_fields_lookup(body_fields, body);
}

} // verus!
