//! The invocation modes of the program: one-shot summarization, one-shot
//! title generation, or an interactive chat session, with the model
//! identifier they share.
use vstd::prelude::*;
use vstd::string::StringExecFns;

verus! {

/// A parsed invocation: the model to talk to and the operation to run.
#[derive(Debug)]
pub struct Args {
    /// The model identifier handed to the inference backend.
    pub model: String,
    /// The operation to perform.
    pub command: Commands,
}

/// The operations the program offers.
#[derive(Debug)]
pub enum Commands {
    /// Summarize the document at `path`.
    Summarize { path: String },
    /// Give a name to the PDF file
    Name { path: String },
    /// Run an interactive chat session.
    Chat,
}

/// The model used when the invocation names none.
pub open spec fn default_model_spec() -> Seq<char> {
    "orca-mini:latest"@
}

/// The model used when the invocation names none.
pub fn default_model() -> (m: String)
    ensures
        m@ == default_model_spec(),
{
    String::from_str("orca-mini:latest")
}

} // verus!
