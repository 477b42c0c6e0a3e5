use deepl::document::download_form;
use deepl::document::download_path;
use deepl::document::handle_download_response;
use deepl::document::handle_upload_response;
use deepl::document::write_outcome;
use deepl::document::DocumentHandle;
use deepl::document::UploadDocumentRequester;
use deepl::Error;
use deepl::Formality;

#[test]
fn upload_required_field_only() {
    let b = UploadDocumentRequester::new("book.txt".to_string(), "JA".to_string());
    assert_eq!(
        b.form_params(),
        vec![("target_lang".to_string(), "JA".to_string())]
    );
}

#[test]
fn upload_optional_fields_appear_when_set() {
    let b = UploadDocumentRequester::new("book.txt".to_string(), "JA".to_string())
        .filename("book-ja.txt".to_string())
        .formality(Formality::PreferMore)
        .glossary_id("g-9".to_string());
    assert_eq!(
        b.form_params(),
        vec![
            ("target_lang".to_string(), "JA".to_string()),
            ("filename".to_string(), "book-ja.txt".to_string()),
            ("formality".to_string(), "prefer_more".to_string()),
            ("glossary_id".to_string(), "g-9".to_string()),
        ]
    );
}

#[test]
fn missing_source_file_fails_before_any_request() {
    let b = UploadDocumentRequester::new("no-such.txt".to_string(), "JA".to_string());
    let e = b.file_contents(Err("No such file or directory".to_string())).unwrap_err();
    assert_eq!(
        e,
        Error::ReadFileError(
            "no-such.txt".to_string(),
            "No such file or directory".to_string()
        )
    );
}

#[test]
fn readable_source_file_passes_through() {
    let b = UploadDocumentRequester::new("book.txt".to_string(), "JA".to_string());
    let contents = b.file_contents(Ok(vec![1, 2, 3])).unwrap();
    assert_eq!(contents, vec![1, 2, 3]);
}

#[test]
fn canonical_upload_payload_decodes() {
    let body = r#"{"document_id":"04DE5AD2","document_key":"0CB0054F"}"#;
    let h = handle_upload_response(true, body).unwrap();
    assert_eq!(h.document_id, "04DE5AD2");
    assert_eq!(h.document_key, "0CB0054F");
}

#[test]
fn malformed_upload_payload_is_invalid_response() {
    let e = handle_upload_response(true, r#"{"document_id":"04DE5AD2"}"#).unwrap_err();
    assert_eq!(
        e,
        Error::InvalidResponse(
            "missing string fields `document_id` and `document_key`".to_string()
        )
    );
}

#[test]
fn download_request_is_key_at_document_path() {
    let h = DocumentHandle {
        document_id: "04DE5AD2".to_string(),
        document_key: "0CB0054F".to_string(),
    };
    assert_eq!(download_path(&h), "document/04DE5AD2/result");
    assert_eq!(
        download_form(&h),
        vec![("document_key".to_string(), "0CB0054F".to_string())]
    );
}

#[test]
fn unknown_document_fails_with_non_exist_document() {
    let e = handle_download_response(404, r#"{"message":"not found"}"#).unwrap_err();
    assert_eq!(e, Error::NonExistDocument);
}

#[test]
fn unfinished_translation_fails_with_translation_not_done() {
    let e = handle_download_response(503, "").unwrap_err();
    assert_eq!(e, Error::TranslationNotDone);
}

#[test]
fn successful_download_status_is_ok() {
    assert_eq!(handle_download_response(200, ""), Ok(()));
}

#[test]
fn other_download_error_carries_service_message() {
    let e = handle_download_response(456, r#"{"message":"bad key"}"#).unwrap_err();
    assert_eq!(e, Error::RequestFail("bad key".to_string()));
}

#[test]
fn failed_write_surfaces_destination_path() {
    let e = write_outcome("out/translated.txt".to_string(), false).unwrap_err();
    assert_eq!(e, Error::WriteFileError("out/translated.txt".to_string()));
    assert_eq!(write_outcome("out/translated.txt".to_string(), true), Ok(()));
}
