//! Client-side logic for a machine-translation web service: typed request
//! builders with required and optional form fields, wire encodings for the
//! request options, and decoding of the service's JSON responses into typed
//! results or a closed set of error kinds.

pub mod document;
mod error;
pub mod form;
mod formality;
pub mod json;
pub mod response;
pub mod translate;
pub mod usage;

pub use error::Error;
pub use formality::Formality;
pub use response::extract_deepl_error;
