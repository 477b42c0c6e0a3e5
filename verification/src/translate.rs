//! The text-translation endpoint: a builder for its request parameters and
//! the decoding of its response.

use vstd::prelude::*;
use crate::error::Error;
use crate::form::count_key;
use crate::form::entries_view;
use crate::form::lemma_count_key_opt;
use crate::form::lemma_count_key_segments;
use crate::form::lemma_count_key_two;
use crate::form::opt_entry;
use crate::form::opt_formality_view;
use crate::form::opt_string_view;
use crate::form::push_entry;
use crate::formality::Formality;
use crate::json::decode_translations;
use crate::json::translations_of;
use crate::response::extract_deepl_error;
use crate::response::is_service_error;

verus! {

/// One translated sentence group of a response: the language the service
/// detected in the source, and the translated text.
#[derive(Debug, Clone, PartialEq, Eq)]
pub struct Translation {
    pub detected_source_language: String,
    pub text: String,
}

/// A decoded response of the text-translation endpoint.
#[derive(Debug, Clone, PartialEq, Eq)]
pub struct TranslateResponse {
    pub translations: Vec<Translation>,
}

/// View of a list of translations: each as its pair of character sequences.
pub open spec fn translations_view(ts: Seq<Translation>) -> Seq<(Seq<char>, Seq<char>)> {
    ts.map_values(|t: Translation| (t.detected_source_language@, t.text@))
}

/// Accumulates the parameters of one text-translation call: the required
/// fields are fixed at construction, the optional fields default to unset and
/// are set by the fluent setters, the last set value winning. The builder is
/// consumed when the call is made, so its field set is immutable from then on.
#[derive(Debug, Clone, PartialEq, Eq)]
pub struct TranslateRequester {
    pub text: String,
    pub target_lang: String,
    pub source_lang: Option<String>,
    pub formality: Option<Formality>,
    pub glossary_id: Option<String>,
}

impl TranslateRequester {
    /// The wire form parameters this builder state constructs: the required
    /// fields verbatim, then one entry for each optional field that is set.
    pub open spec fn params(self) -> Seq<(Seq<char>, Seq<char>)> {
        seq![("text"@, self.text@), ("target_lang"@, self.target_lang@)] + opt_entry(
            "source_lang"@,
            opt_string_view(self.source_lang),
        ) + opt_entry("formality"@, opt_formality_view(self.formality)) + opt_entry(
            "glossary_id"@,
            opt_string_view(self.glossary_id),
        )
    }

    /// A builder for translating `text` into `target_lang`, with every
    /// optional field unset.
    pub fn new(text: String, target_lang: String) -> (r: Self)
        ensures
            r.text == text,
            r.target_lang == target_lang,
            r.source_lang is None,
            r.formality is None,
            r.glossary_id is None,
    {
        TranslateRequester { text, target_lang, source_lang: None, formality: None, glossary_id: None }
    }

    /// Set the source language, replacing any earlier setting.
    pub fn source_lang(self, source_lang: String) -> (r: Self)
        ensures
            r.source_lang == Some(source_lang),
            r.text == self.text,
            r.target_lang == self.target_lang,
            r.formality == self.formality,
            r.glossary_id == self.glossary_id,
    {
        TranslateRequester { source_lang: Some(source_lang), ..self }
    }

    /// Set the formality option, replacing any earlier setting.
    pub fn formality(self, formality: Formality) -> (r: Self)
        ensures
            r.formality == Some(formality),
            r.text == self.text,
            r.target_lang == self.target_lang,
            r.source_lang == self.source_lang,
            r.glossary_id == self.glossary_id,
    {
        TranslateRequester { formality: Some(formality), ..self }
    }

    /// Set the glossary to translate with, replacing any earlier setting.
    pub fn glossary_id(self, glossary_id: String) -> (r: Self)
        ensures
            r.glossary_id == Some(glossary_id),
            r.text == self.text,
            r.target_lang == self.target_lang,
            r.source_lang == self.source_lang,
            r.formality == self.formality,
    {
        TranslateRequester { glossary_id: Some(glossary_id), ..self }
    }

    /// Construct the request's form parameters from the current field state.
    pub fn form_params(&self) -> (r: Vec<(String, String)>)
        ensures
            entries_view(r@) == self.params(),
    {
        let mut params: Vec<(String, String)> = Vec::new();
        proof {
            assert(entries_view(params@) =~= Seq::<(Seq<char>, Seq<char>)>::empty());
        }
        push_entry(&mut params, "text", self.text.clone());
        push_entry(&mut params, "target_lang", self.target_lang.clone());
        proof {
            assert(entries_view(params@) =~= seq![
                ("text"@, self.text@),
                ("target_lang"@, self.target_lang@),
            ]);
        }
        let ghost after_required = entries_view(params@);
        if let Some(v) = &self.source_lang {
            push_entry(&mut params, "source_lang", v.clone());
        }
        proof {
            assert(entries_view(params@) =~= after_required + opt_entry(
                "source_lang"@,
                opt_string_view(self.source_lang),
            ));
        }
        let ghost after_source = entries_view(params@);
        if let Some(f) = &self.formality {
            push_entry(&mut params, "formality", f.to_string());
        }
        proof {
            assert(entries_view(params@) =~= after_source + opt_entry(
                "formality"@,
                opt_formality_view(self.formality),
            ));
        }
        let ghost after_formality = entries_view(params@);
        if let Some(v) = &self.glossary_id {
            push_entry(&mut params, "glossary_id", v.clone());
        }
        proof {
            assert(entries_view(params@) =~= after_formality + opt_entry(
                "glossary_id"@,
                opt_string_view(self.glossary_id),
            ));
            assert(entries_view(params@) =~= self.params());
        }
        params
    }
}

/// The form-field keys of this endpoint differ pairwise.
proof fn lemma_translate_keys_distinct()
    ensures
        "text"@ != "source_lang"@,
        "text"@ != "formality"@,
        "text"@ != "glossary_id"@,
        "target_lang"@ != "source_lang"@,
        "target_lang"@ != "formality"@,
        "target_lang"@ != "glossary_id"@,
        "source_lang"@ != "formality"@,
        "source_lang"@ != "glossary_id"@,
        "formality"@ != "glossary_id"@,
{
    reveal_strlit("text");
    reveal_strlit("target_lang");
    reveal_strlit("source_lang");
    reveal_strlit("formality");
    reveal_strlit("glossary_id");
    assert("text"@.len() == 4);
    assert("formality"@.len() == 9);
    assert("target_lang"@.len() == 11);
    assert("source_lang"@.len() == 11);
    assert("glossary_id"@.len() == 11);
    assert("target_lang"@[0] == 't');
    assert("source_lang"@[0] == 's');
    assert("glossary_id"@[0] == 'g');
}

/// Required fields supplied at construction are always present in the
/// constructed request, verbatim, ahead of every optional field.
pub proof fn lemma_required_fields_present(r: TranslateRequester)
    ensures
        r.params().len() >= 2,
        r.params()[0] == ("text"@, r.text@),
        r.params()[1] == ("target_lang"@, r.target_lang@),
{
}

/// An optional field left unset is omitted from the constructed request; one
/// that is set appears in it exactly once, carrying the set value.
pub proof fn lemma_optional_fields(r: TranslateRequester)
    ensures
        r.source_lang is None ==> count_key(r.params(), "source_lang"@) == 0,
        r.source_lang matches Some(v) ==> count_key(r.params(), "source_lang"@) == 1
            && r.params().contains(("source_lang"@, v@)),
        r.formality is None ==> count_key(r.params(), "formality"@) == 0,
        r.formality matches Some(f) ==> count_key(r.params(), "formality"@) == 1
            && r.params().contains(("formality"@, f.wire())),
        r.glossary_id is None ==> count_key(r.params(), "glossary_id"@) == 0,
        r.glossary_id matches Some(v) ==> count_key(r.params(), "glossary_id"@) == 1
            && r.params().contains(("glossary_id"@, v@)),
{
    lemma_translate_keys_distinct();
    let head = seq![("text"@, r.text@), ("target_lang"@, r.target_lang@)];
    let o1 = opt_entry("source_lang"@, opt_string_view(r.source_lang));
    let o2 = opt_entry("formality"@, opt_formality_view(r.formality));
    let o3 = opt_entry("glossary_id"@, opt_string_view(r.glossary_id));
    assert(r.params() == head + o1 + o2 + o3);
    let keys = seq!["source_lang"@, "formality"@, "glossary_id"@];
    assert forall|k: Seq<char>| keys.contains(k) implies count_key(r.params(), k) == count_key(
        o1,
        k,
    ) + count_key(o2, k) + count_key(o3, k) by {
        lemma_count_key_segments(head, o1, o2, o3, k);
        lemma_count_key_two(("text"@, r.text@), ("target_lang"@, r.target_lang@), k);
    }
    assert(keys.contains("source_lang"@) && keys.contains("formality"@) && keys.contains(
        "glossary_id"@,
    )) by {
        assert(keys[0] == "source_lang"@ && keys[1] == "formality"@ && keys[2] == "glossary_id"@);
    }
    lemma_count_key_opt("source_lang"@, opt_string_view(r.source_lang), "source_lang"@);
    lemma_count_key_opt("source_lang"@, opt_string_view(r.source_lang), "formality"@);
    lemma_count_key_opt("source_lang"@, opt_string_view(r.source_lang), "glossary_id"@);
    lemma_count_key_opt("formality"@, opt_formality_view(r.formality), "source_lang"@);
    lemma_count_key_opt("formality"@, opt_formality_view(r.formality), "formality"@);
    lemma_count_key_opt("formality"@, opt_formality_view(r.formality), "glossary_id"@);
    lemma_count_key_opt("glossary_id"@, opt_string_view(r.glossary_id), "source_lang"@);
    lemma_count_key_opt("glossary_id"@, opt_string_view(r.glossary_id), "formality"@);
    lemma_count_key_opt("glossary_id"@, opt_string_view(r.glossary_id), "glossary_id"@);
    if let Some(v) = r.source_lang {
        assert(r.params()[2] == ("source_lang"@, v@));
        assert(r.params().contains(("source_lang"@, v@)));
    }
    if let Some(f) = r.formality {
        let i = 2 + o1.len() as int;
        assert(r.params()[i] == ("formality"@, f.wire()));
        assert(r.params().contains(("formality"@, f.wire())));
    }
    if let Some(v) = r.glossary_id {
        let i = 2 + o1.len() as int + o2.len() as int;
        assert(r.params()[i] == ("glossary_id"@, v@));
        assert(r.params().contains(("glossary_id"@, v@)));
    }
}

/// Decode what the text-translation endpoint answered: the typed result for
/// a success response whose payload decodes, an invalid-response error for a
/// success response whose payload does not, and the service's error for a
/// non-success response.
pub fn handle_translate_response(success: bool, body: &str) -> (r: Result<TranslateResponse, Error>)
    ensures
        success ==> (match translations_of(body@) {
            Ok(ts) => r matches Ok(resp) && translations_view(resp.translations@) == ts,
            Err(d) => r matches Err(e) && (e matches Error::InvalidResponse(m) && m@ == d),
        }),
        !success ==> (r matches Err(e) && is_service_error(body@, e)),
{
    if success {
        match decode_translations(body) {
            Ok(pairs) => {
                let mut ts: Vec<Translation> = Vec::new();
                let mut i: usize = 0;
                while i < pairs.len()
                    invariant
                        i <= pairs.len(),
                        ts@.len() == i as int,
                        forall|j: int|
                            0 <= j < i as int ==> (#[trigger] ts@[j]).detected_source_language@
                                == pairs@[j].0@ && ts@[j].text@ == pairs@[j].1@,
                    decreases pairs@.len() - i,
                {
                    let lang = pairs[i].0.clone();
                    let text = pairs[i].1.clone();
                    ts.push(Translation { detected_source_language: lang, text });
                    i += 1;
                }
                proof {
                    assert(translations_view(ts@) =~= entries_view(pairs@));
                }
                Ok(TranslateResponse { translations: ts })
            },
            Err(d) => Err(Error::InvalidResponse(d)),
        }
    } else {
        Err(extract_deepl_error(body))
    }
}

} // verus!
