//! The JSON decoding the library takes on trust. Each payload shape the
//! service sends has one decoding function here, marked `external_body`,
//! whose result is given a name by an uninterpreted spec function: the
//! decodings are pure functions of the body text, so naming them is sound.
//! Everything that interprets a decoded value is verified code elsewhere.

use vstd::prelude::*;
use crate::form::entries_view;

verus! {

/// What decoding the service's error envelope from a body yields: the value
/// of its string field `message`, or the decoder's description of why the
/// body does not have that shape.
pub uninterp spec fn error_envelope_of(body: Seq<char>) -> Result<Seq<char>, Seq<char>>;

/// Relies on serde_json::from_str::<serde_json::Value>, serde_json::Value::get
/// and serde_json::Value::as_str: decodes a JSON object with a string field
/// `message`. The result depends on the body text alone.
#[verifier::external_body]
pub(crate) fn decode_error_envelope(body: &str) -> (r: Result<String, String>)
    ensures
        (match r {
            Ok(m) => error_envelope_of(body@) == Ok::<Seq<char>, Seq<char>>(m@),
            Err(d) => error_envelope_of(body@) == Err::<Seq<char>, Seq<char>>(d@),
        }),
{
    let v: serde_json::Value = match serde_json::from_str(body) {
        Ok(v) => v,
        Err(e) => return Err(format!("{e}")),
    };
    match v.get("message").and_then(serde_json::Value::as_str) {
        Some(m) => Ok(m.to_owned()),
        None => Err("missing string field `message`".to_owned()),
    }
}

/// What decoding a usage payload yields: the values of its integer fields
/// `character_count` and `character_limit`, or the decoder's description of
/// why the body does not have that shape.
pub uninterp spec fn usage_of(body: Seq<char>) -> Result<(u64, u64), Seq<char>>;

/// Relies on serde_json::from_str::<serde_json::Value>, serde_json::Value::get
/// and serde_json::Value::as_u64: decodes a JSON object with integer fields
/// `character_count` and `character_limit`. The result depends on the body
/// text alone.
#[verifier::external_body]
pub(crate) fn decode_usage(body: &str) -> (r: Result<(u64, u64), String>)
    ensures
        (match r {
            Ok(cl) => usage_of(body@) == Ok::<(u64, u64), Seq<char>>(cl),
            Err(d) => usage_of(body@) == Err::<(u64, u64), Seq<char>>(d@),
        }),
{
    let v: serde_json::Value = match serde_json::from_str(body) {
        Ok(v) => v,
        Err(e) => return Err(format!("{e}")),
    };
    let count = v.get("character_count").and_then(serde_json::Value::as_u64);
    match (count, v.get("character_limit").and_then(serde_json::Value::as_u64)) {
        (Some(c), Some(l)) => Ok((c, l)),
        _ => Err("missing integer fields `character_count` and `character_limit`".to_owned()),
    }
}

/// What decoding a translation payload yields: for each entry of its array
/// field `translations`, the values of the entry's string fields
/// `detected_source_language` and `text`, in order; or the decoder's
/// description of why the body does not have that shape.
pub uninterp spec fn translations_of(body: Seq<char>) -> Result<
    Seq<(Seq<char>, Seq<char>)>,
    Seq<char>,
>;

/// Relies on serde_json::from_str::<serde_json::Value>, serde_json::Value::get,
/// serde_json::Value::as_array and serde_json::Value::as_str: decodes a JSON
/// object with an array field `translations` whose entries are objects with
/// string fields `detected_source_language` and `text`. The result depends on
/// the body text alone.
#[verifier::external_body]
pub(crate) fn decode_translations(body: &str) -> (r: Result<Vec<(String, String)>, String>)
    ensures
        (match r {
            Ok(ts) => translations_of(body@) == Ok::<Seq<(Seq<char>, Seq<char>)>, Seq<char>>(
                entries_view(ts@),
            ),
            Err(d) => translations_of(body@) == Err::<Seq<(Seq<char>, Seq<char>)>, Seq<char>>(d@),
        }),
{
    let v: serde_json::Value = serde_json::from_str(body).map_err(|e| format!("{e}"))?;
    let list = v.get("translations").and_then(serde_json::Value::as_array);
    let mut out = Vec::new();
    for t in list.ok_or_else(|| "missing array field `translations`".to_owned())? {
        let lang = t.get("detected_source_language").and_then(serde_json::Value::as_str);
        match (lang, t.get("text").and_then(serde_json::Value::as_str)) {
            (Some(l), Some(x)) => out.push((l.to_owned(), x.to_owned())),
            _ => return Err("malformed entry in `translations`".to_owned()),
        }
    }
    Ok(out)
}

/// What decoding a document-upload payload yields: the values of its string
/// fields `document_id` and `document_key`, or the decoder's description of
/// why the body does not have that shape.
pub uninterp spec fn document_handle_of(body: Seq<char>) -> Result<
    (Seq<char>, Seq<char>),
    Seq<char>,
>;

/// Relies on serde_json::from_str::<serde_json::Value>, serde_json::Value::get
/// and serde_json::Value::as_str: decodes a JSON object with string fields
/// `document_id` and `document_key`. The result depends on the body text
/// alone.
#[verifier::external_body]
pub(crate) fn decode_document_handle(body: &str) -> (r: Result<(String, String), String>)
    ensures
        (match r {
            Ok(ik) => document_handle_of(body@) == Ok::<(Seq<char>, Seq<char>), Seq<char>>(
                (ik.0@, ik.1@),
            ),
            Err(d) => document_handle_of(body@) == Err::<(Seq<char>, Seq<char>), Seq<char>>(d@),
        }),
{
    let v: serde_json::Value = match serde_json::from_str(body) {
        Ok(v) => v,
        Err(e) => return Err(format!("{e}")),
    };
    let id = v.get("document_id").and_then(serde_json::Value::as_str);
    match (id, v.get("document_key").and_then(serde_json::Value::as_str)) {
        (Some(i), Some(k)) => Ok((i.to_owned(), k.to_owned())),
        _ => Err("missing string fields `document_id` and `document_key`".to_owned()),
    }
}

} // verus!
