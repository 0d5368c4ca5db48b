use jsonrpc_envelope::Header;
use jsonrpc_envelope::Json;
use jsonrpc_envelope::Response;
use jsonrpc_envelope::Version;

#[test]
fn test_header_constructors() {
    let header = Header::v1(Some(123));
    assert_eq!(header.jsonrpc, Version::One);
    assert_eq!(header.id, Some(123));

    let header = Header::v1(None);
    assert_eq!(header.jsonrpc, Version::One);
    assert_eq!(header.id, None);

    let header = Header::v2(Some(456));
    assert_eq!(header.jsonrpc, Version::Two);
    assert_eq!(header.id, Some(456));

    let header = Header::v2(None);
    assert_eq!(header.jsonrpc, Version::Two);
    assert_eq!(header.id, None);
}

#[test]
fn test_response_constructors() {
    let response: Response<&str, ()> = Response::result("success");
    assert_eq!(response.result, Some("success"));
    assert_eq!(response.error, None);

    let response: Response<(), &str> = Response::error("error");
    assert_eq!(response.result, None);
    assert_eq!(response.error, Some("error"));
}

#[test]
fn test_version_to_text() {
    assert_eq!(Version::One.to_text(), "1.0".to_string());
    assert_eq!(Version::Two.to_text(), "2.0".to_string());
    assert_eq!(Version::One.to_json(), Json::Text("1.0".to_string()));
    assert_eq!(Version::Two.to_json(), Json::Text("2.0".to_string()));
}

#[test]
fn test_header_to_fields_order() {
    let fields = Header::v2(Some(7)).to_fields();
    assert_eq!(fields.len(), 2);
    assert_eq!(fields[0].0, "jsonrpc".to_string());
    assert_eq!(fields[0].1, Json::Text("2.0".to_string()));
    assert_eq!(fields[1].0, "id".to_string());
    assert_eq!(fields[1].1, Json::Number(7));
}
