//! The document endpoints: uploading a file for translation, and checking
//! and downloading the translated result. Reading and writing the local
//! files and carrying the HTTP exchange are the caller's work; everything
//! that decides and decodes stands here.

use vstd::prelude::*;
use vstd::string::StringExecFns;
use crate::error::Error;
use crate::form::count_key;
use crate::form::entries_view;
use crate::form::lemma_count_key_one;
use crate::form::lemma_count_key_opt;
use crate::form::lemma_count_key_segments;
use crate::form::opt_entry;
use crate::form::opt_formality_view;
use crate::form::opt_string_view;
use crate::form::push_entry;
use crate::formality::Formality;
use crate::json::decode_document_handle;
use crate::json::document_handle_of;
use crate::response::extract_deepl_error;
use crate::response::is_service_error;

verus! {

/// What the service hands back for an uploaded document: the id under which
/// it is processed and the key that authorizes retrieving it.
#[derive(Debug, Clone, PartialEq, Eq)]
pub struct DocumentHandle {
    pub document_id: String,
    pub document_key: String,
}

/// Accumulates the parameters of one document upload: the path of the local
/// source file and the target language are fixed at construction, the
/// optional fields default to unset and are set by the fluent setters, the
/// last set value winning. The builder is consumed when the call is made.
#[derive(Debug, Clone, PartialEq, Eq)]
pub struct UploadDocumentRequester {
    pub file_path: String,
    pub target_lang: String,
    pub filename: Option<String>,
    pub formality: Option<Formality>,
    pub glossary_id: Option<String>,
}

impl UploadDocumentRequester {
    /// The wire form parameters this builder state constructs, beside the
    /// file contents themselves: the required field verbatim, then one entry
    /// for each optional field that is set.
    pub open spec fn params(self) -> Seq<(Seq<char>, Seq<char>)> {
        seq![("target_lang"@, self.target_lang@)] + opt_entry(
            "filename"@,
            opt_string_view(self.filename),
        ) + opt_entry("formality"@, opt_formality_view(self.formality)) + opt_entry(
            "glossary_id"@,
            opt_string_view(self.glossary_id),
        )
    }

    /// A builder for translating the file at `file_path` into `target_lang`,
    /// with every optional field unset.
    pub fn new(file_path: String, target_lang: String) -> (r: Self)
        ensures
            r.file_path == file_path,
            r.target_lang == target_lang,
            r.filename is None,
            r.formality is None,
            r.glossary_id is None,
    {
        UploadDocumentRequester {
            file_path,
            target_lang,
            filename: None,
            formality: None,
            glossary_id: None,
        }
    }

    /// Set the name the service reports for the document, replacing any
    /// earlier setting.
    pub fn filename(self, filename: String) -> (r: Self)
        ensures
            r.filename == Some(filename),
            r.file_path == self.file_path,
            r.target_lang == self.target_lang,
            r.formality == self.formality,
            r.glossary_id == self.glossary_id,
    {
        UploadDocumentRequester { filename: Some(filename), ..self }
    }

    /// Set the formality option, replacing any earlier setting.
    pub fn formality(self, formality: Formality) -> (r: Self)
        ensures
            r.formality == Some(formality),
            r.file_path == self.file_path,
            r.target_lang == self.target_lang,
            r.filename == self.filename,
            r.glossary_id == self.glossary_id,
    {
        UploadDocumentRequester { formality: Some(formality), ..self }
    }

    /// Set the glossary to translate with, replacing any earlier setting.
    pub fn glossary_id(self, glossary_id: String) -> (r: Self)
        ensures
            r.glossary_id == Some(glossary_id),
            r.file_path == self.file_path,
            r.target_lang == self.target_lang,
            r.filename == self.filename,
            r.formality == self.formality,
    {
        UploadDocumentRequester { glossary_id: Some(glossary_id), ..self }
    }

    /// Construct the request's form parameters from the current field state.
    pub fn form_params(&self) -> (r: Vec<(String, String)>)
        ensures
            entries_view(r@) == self.params(),
    {
        let mut params: Vec<(String, String)> = Vec::new();
        push_entry(&mut params, "target_lang", self.target_lang.clone());
        proof {
            assert(entries_view(params@) =~= seq![("target_lang"@, self.target_lang@)]);
        }
        let ghost after_required = entries_view(params@);
        if let Some(v) = &self.filename {
            push_entry(&mut params, "filename", v.clone());
        }
        proof {
            assert(entries_view(params@) =~= after_required + opt_entry(
                "filename"@,
                opt_string_view(self.filename),
            ));
        }
        let ghost after_filename = entries_view(params@);
        if let Some(f) = &self.formality {
            push_entry(&mut params, "formality", f.to_string());
        }
        proof {
            assert(entries_view(params@) =~= after_filename + opt_entry(
                "formality"@,
                opt_formality_view(self.formality),
            ));
        }
        let ghost after_formality = entries_view(params@);
        if let Some(v) = &self.glossary_id {
            push_entry(&mut params, "glossary_id", v.clone());
        }
        proof {
            assert(entries_view(params@) =~= after_formality + opt_entry(
                "glossary_id"@,
                opt_string_view(self.glossary_id),
            ));
            assert(entries_view(params@) =~= self.params());
        }
        params
    }

    /// Gate the upload on the local file having been read: the contents pass
    /// through untouched, a read failure becomes the typed error carrying the
    /// source path and the failure's description, and no request is to be
    /// made.
    pub fn file_contents(&self, read: Result<Vec<u8>, String>) -> (r: Result<Vec<u8>, Error>)
        ensures
            read matches Ok(contents) ==> r == Ok::<Vec<u8>, Error>(contents),
            read matches Err(cause) ==> r == Err::<Vec<u8>, Error>(
                Error::ReadFileError(self.file_path, cause),
            ),
    {
        match read {
            Ok(contents) => Ok(contents),
            Err(cause) => Err(Error::ReadFileError(self.file_path.clone(), cause)),
        }
    }
}

/// The form-field keys of the upload endpoint differ pairwise.
proof fn lemma_upload_keys_distinct()
    ensures
        "target_lang"@ != "filename"@,
        "target_lang"@ != "formality"@,
        "target_lang"@ != "glossary_id"@,
        "filename"@ != "formality"@,
        "filename"@ != "glossary_id"@,
        "formality"@ != "glossary_id"@,
{
    reveal_strlit("target_lang");
    reveal_strlit("filename");
    reveal_strlit("formality");
    reveal_strlit("glossary_id");
    assert("filename"@.len() == 8);
    assert("formality"@.len() == 9);
    assert("target_lang"@.len() == 11);
    assert("glossary_id"@.len() == 11);
    assert("target_lang"@[0] == 't');
    assert("glossary_id"@[0] == 'g');
}

/// The required field supplied at construction is always present in the
/// constructed upload request, verbatim, ahead of every optional field.
pub proof fn lemma_upload_required_field_present(r: UploadDocumentRequester)
    ensures
        r.params().len() >= 1,
        r.params()[0] == ("target_lang"@, r.target_lang@),
{
}

/// An optional upload field left unset is omitted from the constructed
/// request; one that is set appears in it exactly once, carrying the set
/// value.
pub proof fn lemma_upload_optional_fields(r: UploadDocumentRequester)
    ensures
        r.filename is None ==> count_key(r.params(), "filename"@) == 0,
        r.filename matches Some(v) ==> count_key(r.params(), "filename"@) == 1
            && r.params().contains(("filename"@, v@)),
        r.formality is None ==> count_key(r.params(), "formality"@) == 0,
        r.formality matches Some(f) ==> count_key(r.params(), "formality"@) == 1
            && r.params().contains(("formality"@, f.wire())),
        r.glossary_id is None ==> count_key(r.params(), "glossary_id"@) == 0,
        r.glossary_id matches Some(v) ==> count_key(r.params(), "glossary_id"@) == 1
            && r.params().contains(("glossary_id"@, v@)),
{
    lemma_upload_keys_distinct();
    let head = seq![("target_lang"@, r.target_lang@)];
    let o1 = opt_entry("filename"@, opt_string_view(r.filename));
    let o2 = opt_entry("formality"@, opt_formality_view(r.formality));
    let o3 = opt_entry("glossary_id"@, opt_string_view(r.glossary_id));
    assert(r.params() == head + o1 + o2 + o3);
    let keys = seq!["filename"@, "formality"@, "glossary_id"@];
    assert forall|k: Seq<char>| keys.contains(k) implies count_key(r.params(), k) == count_key(
        o1,
        k,
    ) + count_key(o2, k) + count_key(o3, k) by {
        lemma_count_key_segments(head, o1, o2, o3, k);
        lemma_count_key_one(("target_lang"@, r.target_lang@), k);
    }
    assert(keys.contains("filename"@) && keys.contains("formality"@) && keys.contains(
        "glossary_id"@,
    )) by {
        assert(keys[0] == "filename"@ && keys[1] == "formality"@ && keys[2] == "glossary_id"@);
    }
    lemma_count_key_opt("filename"@, opt_string_view(r.filename), "filename"@);
    lemma_count_key_opt("filename"@, opt_string_view(r.filename), "formality"@);
    lemma_count_key_opt("filename"@, opt_string_view(r.filename), "glossary_id"@);
    lemma_count_key_opt("formality"@, opt_formality_view(r.formality), "filename"@);
    lemma_count_key_opt("formality"@, opt_formality_view(r.formality), "formality"@);
    lemma_count_key_opt("formality"@, opt_formality_view(r.formality), "glossary_id"@);
    lemma_count_key_opt("glossary_id"@, opt_string_view(r.glossary_id), "filename"@);
    lemma_count_key_opt("glossary_id"@, opt_string_view(r.glossary_id), "formality"@);
    lemma_count_key_opt("glossary_id"@, opt_string_view(r.glossary_id), "glossary_id"@);
    if let Some(v) = r.filename {
        assert(r.params()[1] == ("filename"@, v@));
        assert(r.params().contains(("filename"@, v@)));
    }
    if let Some(f) = r.formality {
        let i = 1 + o1.len() as int;
        assert(r.params()[i] == ("formality"@, f.wire()));
        assert(r.params().contains(("formality"@, f.wire())));
    }
    if let Some(v) = r.glossary_id {
        let i = 1 + o1.len() as int + o2.len() as int;
        assert(r.params()[i] == ("glossary_id"@, v@));
        assert(r.params().contains(("glossary_id"@, v@)));
    }
}

/// Decode what the upload endpoint answered: the document handle for a
/// success response whose payload decodes, an invalid-response error for a
/// success response whose payload does not, and the service's error for a
/// non-success response.
pub fn handle_upload_response(success: bool, body: &str) -> (r: Result<DocumentHandle, Error>)
    ensures
        success ==> (match document_handle_of(body@) {
            Ok(ik) => r matches Ok(h) && h.document_id@ == ik.0 && h.document_key@ == ik.1,
            Err(d) => r matches Err(e) && (e matches Error::InvalidResponse(m) && m@ == d),
        }),
        !success ==> (r matches Err(e) && is_service_error(body@, e)),
{
    if success {
        match decode_document_handle(body) {
            Ok((id, key)) => Ok(DocumentHandle { document_id: id, document_key: key }),
            Err(d) => Err(Error::InvalidResponse(d)),
        }
    } else {
        Err(extract_deepl_error(body))
    }
}

/// The path, below the service's endpoint root, at which this document's
/// translated result is retrieved.
pub fn download_path(handle: &DocumentHandle) -> (r: String)
    ensures
        r@ == "document/"@ + handle.document_id@ + "/result"@,
{
    "document/".to_owned().concat(handle.document_id.as_str()).concat("/result")
}

/// The form parameters of a download request: the document key alone.
pub fn download_form(handle: &DocumentHandle) -> (r: Vec<(String, String)>)
    ensures
        entries_view(r@) == seq![("document_key"@, handle.document_key@)],
{
    let mut params: Vec<(String, String)> = Vec::new();
    push_entry(&mut params, "document_key", handle.document_key.clone());
    proof {
        assert(entries_view(params@) =~= seq![("document_key"@, handle.document_key@)]);
    }
    params
}

/// Decide what a download response means. The service answers a download
/// request for an unknown document id or a wrong document key with status
/// 404, and one for a document still being processed with status 503; any
/// other non-success response carries the usual error envelope.
pub fn handle_download_response(status: u16, body: &str) -> (r: Result<(), Error>)
    ensures
        200 <= status < 300 ==> r == Ok::<(), Error>(()),
        status == 404 ==> r == Err::<(), Error>(Error::NonExistDocument),
        status == 503 ==> r == Err::<(), Error>(Error::TranslationNotDone),
        !(200 <= status < 300) && status != 404 && status != 503 ==> (r matches Err(e)
            && is_service_error(body@, e)),
{
    if 200 <= status && status < 300 {
        Ok(())
    } else if status == 404 {
        Err(Error::NonExistDocument)
    } else if status == 503 {
        Err(Error::TranslationNotDone)
    } else {
        Err(extract_deepl_error(body))
    }
}

/// Gate the end of a download on the translated bytes having been written to
/// the local destination file: a write failure becomes the typed error
/// carrying the destination path.
pub fn write_outcome(path: String, wrote: bool) -> (r: Result<(), Error>)
    ensures
        wrote ==> r == Ok::<(), Error>(()),
        !wrote ==> r == Err::<(), Error>(Error::WriteFileError(path)),
{
    if wrote {
        Ok(())
    } else {
        Err(Error::WriteFileError(path))
    }
}

} // verus!
