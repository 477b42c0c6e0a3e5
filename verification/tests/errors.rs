use deepl::extract_deepl_error;
use deepl::Error;

#[test]
fn service_error_with_message_becomes_request_fail() {
    let e = extract_deepl_error(r#"{"message":"quota exceeded"}"#);
    assert_eq!(e, Error::RequestFail("quota exceeded".to_string()));
}

#[test]
fn non_json_error_body_becomes_invalid_response() {
    let e = extract_deepl_error("Service Unavailable");
    match e {
        Error::InvalidResponse(d) => assert!(!d.is_empty()),
        other => panic!("expected InvalidResponse, got {:?}", other),
    }
}

#[test]
fn json_error_body_without_message_becomes_invalid_response() {
    let e = extract_deepl_error(r#"{"detail":"nope"}"#);
    match e {
        Error::InvalidResponse(d) => assert_eq!(d, "missing string field `message`"),
        other => panic!("expected InvalidResponse, got {:?}", other),
    }
}

#[test]
fn error_messages_render() {
    assert_eq!(
        Error::InvalidResponse("broken".to_string()).message(),
        "invalid response: broken"
    );
    assert_eq!(
        Error::RequestFail("quota exceeded".to_string()).message(),
        "request fail: quota exceeded"
    );
    assert_eq!(
        Error::ReadFileError("a.txt".to_string(), "not found".to_string()).message(),
        "fail to read file a.txt: not found"
    );
    assert_eq!(
        Error::NonExistDocument.message(),
        "trying to download a document using a non-existing document ID or the wrong document key"
    );
    assert_eq!(
        Error::TranslationNotDone.message(),
        "tries to download a translated document that is currently being processed and is not yet ready for download"
    );
    assert_eq!(
        Error::WriteFileError("out.txt".to_string()).message(),
        "fail to write file: out.txt"
    );
}
