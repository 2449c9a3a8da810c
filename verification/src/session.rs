//! The chat session: its state (model, generation context, loaded document)
//! and the decision taken for each line of input. The surrounding application
//! performs the I/O that an `Action` asks for and reports the outcome back,
//! so every decision and every state change stands here, verified.
use crate::command::classify;
use crate::command::exit_token;
use crate::command::is_load_command;
use crate::command::missing_path_message;
use crate::command::parse_use_spec;
use crate::command::Command;
use crate::template::no_document_message;
use crate::template::placeholder;
use crate::template::substitue_pdf;
use crate::text::contains_seq;
use crate::text::replace_seq;
use crate::text::trim_seq;
use crate::text::trim_str;
use vstd::prelude::*;
use vstd::string::StringExecFns;

verus! {

/// An opaque continuation token from the inference backend. Its numbers are
/// carried verbatim from one response into the next request and never read.
#[derive(Debug, PartialEq, Eq)]
pub struct ContextToken {
    /// The backend's encoding of the conversation so far.
    pub data: Vec<i32>,
}

/// The live state of one chat invocation.
#[derive(Debug, PartialEq, Eq)]
pub struct Session {
    /// The model identifier, fixed for the session's lifetime.
    pub model: String,
    /// The continuation token of the last completed turn, if any.
    pub context: Option<ContextToken>,
    /// The text of the currently loaded document, if any.
    pub document: Option<String>,
}

/// What the application must do next for the session.
#[derive(Debug)]
pub enum Action {
    /// End the session.
    Quit,
    /// Extract the document at `path` and report the outcome back through
    /// [`Session::on_load_outcome`].
    Load { path: String },
    /// Send `prompt` to the inference backend, stream the response to the
    /// output sink, and report the final continuation token back through
    /// [`Session::on_turn_complete`].
    Generate { prompt: String },
    /// Print `message` to the output sink and continue.
    Report { message: String },
}

/// The marker printed before each line of input is read.
pub fn prompt_marker() -> (m: &'static str)
    ensures
        m@ == "> "@,
{
    "> "
}

/// The confirmation printed after a document was loaded.
pub open spec fn load_success_message() -> Seq<char> {
    "PDF was Successfully loaded. Now {pdf} will be replaced by the content of the PDF.\n"@
}

/// The report printed when a document could not be loaded: the reason `e`,
/// framed.
pub open spec fn load_failure_message(e: Seq<char>) -> Seq<char> {
    "Failed to load PDF: "@ + e + "\n"@
}

fn failure_message(e: &str) -> (m: String)
    ensures
        m@ == load_failure_message(e@),
{
    let mut m = String::from_str("Failed to load PDF: ");
    m.append(e);
    m.append("\n");
    m
}

/// `s` after a successful load of `text`: the document is replaced wholesale,
/// everything else is kept.
pub open spec fn loaded(s: Session, text: String) -> Session {
    Session { model: s.model, context: s.context, document: Some(text) }
}

/// `s` after a completed generation turn: a token returned by the backend
/// replaces the held one verbatim; without one, the held token is kept.
pub open spec fn advanced(s: Session, token: Option<ContextToken>) -> Session {
    Session {
        model: s.model,
        context: if token is Some {
            token
        } else {
            s.context
        },
        document: s.document,
    }
}

impl Session {
    /// A fresh session for `model`: no turn taken yet, no document loaded.
    pub fn new(model: String) -> (s: Session)
        ensures
            s.model == model,
            s.context is None,
            s.document is None,
    {
        Session { model, context: None, document: None }
    }

    /// Decides what one raw line of input asks for. The line is trimmed,
    /// then control commands are recognized before any substitution: the
    /// exit command ends the session, a load command names a document, and
    /// every other line is resolved against the loaded document and sent to
    /// the model, except that a prompt using the placeholder without a
    /// loaded document is answered with a remediation message instead of
    /// reaching the backend.
    pub fn on_line(&self, line: &str) -> (a: Action)
        ensures
            ({
                let t = trim_seq(line@);
                &&& t == exit_token() ==> a is Quit
                &&& (t != exit_token() && is_load_command(t) ==> (match parse_use_spec(t) {
                    Some(p) => a matches Action::Load { path } && path@ == p,
                    None => a matches Action::Report { message } && message@
                        == load_failure_message(missing_path_message()),
                }))
                &&& (t != exit_token() && !is_load_command(t) && !contains_seq(
                    t,
                    placeholder(),
                ) ==> (a matches Action::Generate { prompt } && prompt@ == t))
                &&& (t != exit_token() && !is_load_command(t) && contains_seq(t, placeholder())
                    && self.document is Some ==> (a matches Action::Generate { prompt } && prompt@
                    == replace_seq(t, placeholder(), self.document->0@)))
                &&& (t != exit_token() && !is_load_command(t) && contains_seq(t, placeholder())
                    && self.document is None ==> (a matches Action::Report { message } && message@
                    == no_document_message()))
            }),
    {
        let t = trim_str(line);
        match classify(t) {
            Err(e) => Action::Report { message: failure_message(e.message()) },
            Ok(Command::Exit) => Action::Quit,
            Ok(Command::Load { path }) => Action::Load { path },
            Ok(Command::Prompt { text }) => match substitue_pdf(text.as_str(), &self.document) {
                Ok(prompt) => Action::Generate { prompt },
                Err(e) => Action::Report { message: e.message() },
            },
        }
    }

    /// Takes in what came of a requested document load: on success the new
    /// text replaces any loaded document; on failure the state is untouched.
    /// Returns the message to print either way.
    pub fn on_load_outcome(&mut self, outcome: Result<String, String>) -> (msg: String)
        ensures
            outcome matches Ok(text) ==> (*final(self) == loaded(*old(self), text) && msg@
                == load_success_message()),
            outcome matches Err(e) ==> (*final(self) == *old(self) && msg@
                == load_failure_message(e@)),
    {
        match outcome {
            Ok(text) => {
                self.document = Some(text);
                String::from_str(
                    "PDF was Successfully loaded. Now {pdf} will be replaced by the content of the PDF.\n",
                )
            },
            Err(e) => failure_message(e.as_str()),
        }
    }

    /// Takes in the continuation token of a completed generation turn.
    pub fn on_turn_complete(&mut self, token: Option<ContextToken>)
        ensures
            *final(self) == advanced(*old(self), token),
    {
        if let Some(t) = token {
            self.context = Some(t);
        }
    }
}

/// Loading the same document a second time leaves the session exactly as the
/// first load left it.
pub proof fn lemma_load_idempotent(s: Session, text: String)
    ensures
        loaded(loaded(s, text), text) == loaded(s, text),
{
}

} // verus!
