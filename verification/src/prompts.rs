//! The fixed prompts of the one-shot operations, built around a document's
//! extracted text.
use vstd::prelude::*;
use vstd::string::StringExecFns;

verus! {

/// The instruction prefixed to a document for one-shot summarization.
pub open spec fn summarize_instruction() -> Seq<char> {
    "Summarize the following text that is from a PDF.\n"@
}

/// The instruction prefixed to a document for one-shot title generation.
pub open spec fn name_instruction() -> Seq<char> {
    "The following text is from a PDF. Give it a suitable and concise title.\n"@
}

/// The full prompt asking the model to summarize `pdf_text`.
pub fn summarize_prompt(pdf_text: &str) -> (p: String)
    ensures
        p@ == summarize_instruction() + pdf_text@,
{
    let mut p = String::from_str("Summarize the following text that is from a PDF.\n");
    p.append(pdf_text);
    p
}

/// The full prompt asking the model to title `pdf_text`.
pub fn name_prompt(pdf_text: &str) -> (p: String)
    ensures
        p@ == name_instruction() + pdf_text@,
{
    let mut p = String::from_str(
        "The following text is from a PDF. Give it a suitable and concise title.\n",
    );
    p.append(pdf_text);
    p
}

} // verus!
