//! The closed set of error kinds produced by any request path.

use vstd::prelude::*;
use vstd::string::StringExecFns;

verus! {

/// An error during interaction with the translation service. Every fallible
/// step of a call produces one of these kinds and returns it immediately to
/// the caller: no retries, no partial recovery.
#[derive(Debug, Clone, PartialEq, Eq)]
pub enum Error {
    /// The response body is not valid JSON or not decodable into the expected
    /// shape; carries the decoder's description of the failure.
    InvalidResponse(String),
    /// The service returned a structured error; carries the service's message.
    RequestFail(String),
    /// A local source file could not be read; carries the path and the
    /// description of the underlying I/O failure.
    ReadFileError(String, String),
    /// A document download was requested with a document id or key unknown to
    /// the service.
    NonExistDocument,
    /// A document download was requested while the translation is still being
    /// processed and is not yet ready.
    TranslationNotDone,
    /// A local destination file could not be written; carries the path.
    WriteFileError(String),
}

impl Error {
    /// The human-readable rendering of this error.
    pub open spec fn spec_message(self) -> Seq<char> {
        match self {
            Error::InvalidResponse(d) => "invalid response: "@ + d@,
            Error::RequestFail(m) => "request fail: "@ + m@,
            Error::ReadFileError(p, c) => "fail to read file "@ + p@ + ": "@ + c@,
            Error::NonExistDocument => {
                "trying to download a document using a non-existing document ID or the wrong document key"@
            },
            Error::TranslationNotDone => {
                "tries to download a translated document that is currently being processed and is not yet ready for download"@
            },
            Error::WriteFileError(p) => "fail to write file: "@ + p@,
        }
    }

    /// Render the error as text.
    pub fn message(&self) -> (m: String)
        ensures
            m@ == self.spec_message(),
    {
        match self {
            Error::InvalidResponse(d) => "invalid response: ".to_owned().concat(d.as_str()),
            Error::RequestFail(m) => "request fail: ".to_owned().concat(m.as_str()),
            Error::ReadFileError(p, c) => {
                "fail to read file ".to_owned().concat(p.as_str()).concat(": ").concat(c.as_str())
            },
            Error::NonExistDocument => {
                "trying to download a document using a non-existing document ID or the wrong document key".to_owned()
            },
            Error::TranslationNotDone => {
                "tries to download a translated document that is currently being processed and is not yet ready for download".to_owned()
            },
            Error::WriteFileError(p) => "fail to write file: ".to_owned().concat(p.as_str()),
        }
    }
}

} // verus!
