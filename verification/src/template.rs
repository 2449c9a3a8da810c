//! Prompt template engine: a reserved placeholder in a prompt is replaced by
//! the text of the currently loaded document.
use crate::text::contains_seq;
use crate::text::contains_str;
use crate::text::replace_seq;
use crate::text::replace_str;
use vstd::prelude::*;
use vstd::string::StringExecFns;

verus! {

/// The reserved placeholder that a loaded document's text replaces.
pub open spec fn placeholder() -> Seq<char> {
    "{pdf}"@
}

/// The placeholder literal, for building prompts and messages.
pub fn placeholder_str() -> (r: &'static str)
    ensures
        r@ == placeholder(),
        r@.len() == 5,
{
    proof {
        reveal_strlit("{pdf}");
    }
    "{pdf}"
}

/// Why a substitution failed.
#[derive(Clone, Copy, Debug, PartialEq, Eq, Structural)]
pub enum SubstituteError {
    /// The prompt holds the placeholder, but no document is loaded.
    NoDocumentLoaded,
}

/// The remediation message shown when the placeholder is used before any
/// document was loaded.
pub open spec fn no_document_message() -> Seq<char> {
    "Specify a PDF with ':use <path>'\n"@
}

impl SubstituteError {
    /// The user-facing text of this error.
    pub fn message(&self) -> (m: String)
        ensures
            m@ == no_document_message(),
    {
        String::from_str("Specify a PDF with ':use <path>'\n")
    }
}

/// Resolves a raw prompt against the loaded document: a prompt without the
/// placeholder passes through unchanged; one with the placeholder has every
/// occurrence replaced by the document's text, and fails if no document is
/// loaded.
pub fn substitue_pdf(prompt: &str, pdf: &Option<String>) -> (res: Result<
    String,
    SubstituteError,
>)
    ensures
        !contains_seq(prompt@, placeholder()) ==> (res matches Ok(out) && out@ == prompt@),
        contains_seq(prompt@, placeholder()) && pdf is Some ==> (res matches Ok(out) && out@
            == replace_seq(prompt@, placeholder(), pdf->0@)),
        res is Err <==> contains_seq(prompt@, placeholder()) && pdf is None,
{
    let ph = placeholder_str();
    if !contains_str(prompt, ph) {
        return Ok(prompt.to_owned());
    }
    match pdf {
        Some(doc) => Ok(replace_str(prompt, ph, doc.as_str())),
        None => Err(SubstituteError::NoDocumentLoaded),
    }
}

} // verus!
