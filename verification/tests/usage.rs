use deepl::usage::handle_usage_response;
use deepl::usage::UsageResponse;
use deepl::Error;

#[test]
fn canonical_usage_payload_decodes() {
    let body = r#"{"character_count":30315,"character_limit":500000}"#;
    let u = handle_usage_response(true, body).unwrap();
    assert_eq!(
        u,
        UsageResponse { character_count: 30315, character_limit: 500000 }
    );
}

#[test]
fn usage_payload_without_fields_is_invalid_response() {
    let e = handle_usage_response(true, r#"{"character_count":1}"#).unwrap_err();
    assert_eq!(
        e,
        Error::InvalidResponse(
            "missing integer fields `character_count` and `character_limit`".to_string()
        )
    );
}

#[test]
fn usage_error_response_carries_service_message() {
    let e = handle_usage_response(false, r#"{"message":"no key"}"#).unwrap_err();
    assert_eq!(e, Error::RequestFail("no key".to_string()));
}
