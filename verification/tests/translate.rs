use deepl::translate::handle_translate_response;
use deepl::translate::TranslateRequester;
use deepl::Error;
use deepl::Formality;

#[test]
fn required_fields_only() {
    let b = TranslateRequester::new("Hello".to_string(), "DE".to_string());
    let ps = b.form_params();
    assert_eq!(
        ps,
        vec![
            ("text".to_string(), "Hello".to_string()),
            ("target_lang".to_string(), "DE".to_string()),
        ]
    );
}

#[test]
fn unset_optional_fields_are_omitted() {
    let b = TranslateRequester::new("Hello".to_string(), "DE".to_string());
    let ps = b.form_params();
    assert!(ps.iter().all(|p| p.0 != "source_lang" && p.0 != "formality" && p.0 != "glossary_id"));
}

#[test]
fn set_optional_fields_appear_exactly_once() {
    let b = TranslateRequester::new("Hello".to_string(), "DE".to_string())
        .source_lang("EN".to_string())
        .formality(Formality::PreferLess)
        .glossary_id("g-1".to_string());
    let ps = b.form_params();
    assert_eq!(
        ps,
        vec![
            ("text".to_string(), "Hello".to_string()),
            ("target_lang".to_string(), "DE".to_string()),
            ("source_lang".to_string(), "EN".to_string()),
            ("formality".to_string(), "prefer_less".to_string()),
            ("glossary_id".to_string(), "g-1".to_string()),
        ]
    );
}

#[test]
fn last_set_value_wins() {
    let b = TranslateRequester::new("Hello".to_string(), "DE".to_string())
        .formality(Formality::Less)
        .formality(Formality::More);
    let ps = b.form_params();
    let formalities: Vec<&(String, String)> =
        ps.iter().filter(|p| p.0 == "formality").collect();
    assert_eq!(formalities, vec![&("formality".to_string(), "more".to_string())]);
}

#[test]
fn canonical_success_payload_decodes() {
    let body = r#"{"translations":[{"detected_source_language":"EN","text":"Hallo, Welt!"}]}"#;
    let resp = handle_translate_response(true, body).unwrap();
    assert_eq!(resp.translations.len(), 1);
    assert_eq!(resp.translations[0].detected_source_language, "EN");
    assert_eq!(resp.translations[0].text, "Hallo, Welt!");
}

#[test]
fn multiple_translations_decode_in_order() {
    let body = r#"{"translations":[{"detected_source_language":"EN","text":"eins"},{"detected_source_language":"FR","text":"zwei"}]}"#;
    let resp = handle_translate_response(true, body).unwrap();
    assert_eq!(resp.translations.len(), 2);
    assert_eq!(resp.translations[0].text, "eins");
    assert_eq!(resp.translations[1].detected_source_language, "FR");
    assert_eq!(resp.translations[1].text, "zwei");
}

#[test]
fn malformed_success_payload_is_invalid_response() {
    let e = handle_translate_response(true, r#"{"translations":"none"}"#).unwrap_err();
    assert_eq!(
        e,
        Error::InvalidResponse("missing array field `translations`".to_string())
    );
}

#[test]
fn unparsable_success_payload_is_invalid_response() {
    let e = handle_translate_response(true, "<html></html>").unwrap_err();
    assert!(matches!(e, Error::InvalidResponse(_)));
}

#[test]
fn error_response_carries_service_message() {
    let e = handle_translate_response(false, r#"{"message":"quota exceeded"}"#).unwrap_err();
    assert_eq!(e, Error::RequestFail("quota exceeded".to_string()));
}
