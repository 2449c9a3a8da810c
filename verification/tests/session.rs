use pdf_summarizer::default_model;
use pdf_summarizer::prompt_marker;
use pdf_summarizer::Action;
use pdf_summarizer::ContextToken;
use pdf_summarizer::Session;

/// Plays the application's part of the chat loop over a scripted list of
/// input lines: extraction is answered by `extract`, every generation turn
/// is answered with `reply`. Returns the output transcript and the prompts
/// that reached the backend.
fn run_chat(
    lines: &[&str],
    extract: &dyn Fn(&str) -> Result<String, String>,
    reply: &str,
) -> (String, Vec<String>) {
    let mut out = String::new();
    let mut prompts = Vec::new();
    let mut session = Session::new(default_model());
    for line in lines {
        out.push_str(prompt_marker());
        match session.on_line(line) {
            Action::Quit => return (out, prompts),
            Action::Load { path } => {
                let msg = session.on_load_outcome(extract(&path));
                out.push_str(&msg);
            }
            Action::Generate { prompt } => {
                prompts.push(prompt);
                out.push_str(reply);
                out.push('\n');
                session.on_turn_complete(Some(ContextToken { data: vec![7, 9] }));
            }
            Action::Report { message } => out.push_str(&message),
        }
    }
    (out, prompts)
}

fn extract_dummy(path: &str) -> Result<String, String> {
    if path == "dummy.pdf" {
        Ok("\n\nDummy PDF file".to_string())
    } else {
        Err(format!("no such file: {path}"))
    }
}

#[test]
fn exit_from_chat() {
    let (out, prompts) = run_chat(&[":exit"], &extract_dummy, "Dummy Response");
    assert_eq!("> ", out);
    assert!(prompts.is_empty());
}

#[test]
fn chat_respond_with_something() {
    let (out, prompts) = run_chat(&["Why is the sky blue?", ":exit"], &extract_dummy, "Dummy Response");
    assert_eq!("> Dummy Response\n> ", out);
    assert_eq!(vec!["Why is the sky blue?".to_string()], prompts);
}

#[test]
fn chat_use_pdf() {
    let (out, prompts) = run_chat(&[":use dummy.pdf", "{pdf}", ":exit"], &extract_dummy, "Dummy Response");
    assert_eq!(
        "> PDF was Successfully loaded. Now {pdf} will be replaced by the content of the PDF.\n> Dummy Response\n> ",
        out
    );
    assert_eq!(vec!["\n\nDummy PDF file".to_string()], prompts);
}

#[test]
fn default_model_is_orca_mini() {
    assert_eq!("orca-mini:latest", default_model());
    let session = Session::new(default_model());
    assert_eq!("orca-mini:latest", session.model);
}

#[test]
fn new_session_has_no_context_and_no_document() {
    let session = Session::new(default_model());
    assert_eq!(None, session.context);
    assert_eq!(None, session.document);
}

#[test]
fn exit_is_recognized_inside_whitespace() {
    let session = Session::new(default_model());
    assert!(matches!(session.on_line("  :exit \n"), Action::Quit));
}

#[test]
fn placeholder_without_document_never_reaches_generation() {
    let session = Session::new(default_model());
    match session.on_line("{pdf}\n") {
        Action::Report { message } => {
            assert_eq!("Specify a PDF with ':use <path>'\n", message);
        }
        other => panic!("expected a report, got {other:?}"),
    }
}

#[test]
fn malformed_load_command_is_reported_and_loads_nothing() {
    let session = Session::new(default_model());
    match session.on_line(":use\n") {
        Action::Report { message } => {
            assert_eq!("Failed to load PDF: :use <path>.\n", message);
        }
        other => panic!("expected a report, got {other:?}"),
    }
    assert_eq!(None, session.document);
}

#[test]
fn failed_load_keeps_the_current_document() {
    let mut session = Session::new(default_model());
    session.on_load_outcome(Ok("first text".to_string()));
    let msg = session.on_load_outcome(Err("broken file".to_string()));
    assert_eq!("Failed to load PDF: broken file\n", msg);
    assert_eq!(Some("first text".to_string()), session.document);
}

#[test]
fn loading_replaces_the_document_wholesale() {
    let mut session = Session::new(default_model());
    session.on_load_outcome(Ok("first".to_string()));
    session.on_load_outcome(Ok("second".to_string()));
    assert_eq!(Some("second".to_string()), session.document);
}

#[test]
fn loading_twice_behaves_like_loading_once() {
    let mut once = Session::new(default_model());
    once.on_load_outcome(Ok("Dummy PDF file".to_string()));
    let mut twice = Session::new(default_model());
    twice.on_load_outcome(Ok("Dummy PDF file".to_string()));
    twice.on_load_outcome(Ok("Dummy PDF file".to_string()));
    assert_eq!(once, twice);
    let a = once.on_line("{pdf}");
    let b = twice.on_line("{pdf}");
    match (a, b) {
        (Action::Generate { prompt: pa }, Action::Generate { prompt: pb }) => {
            assert_eq!(pa, pb);
            assert_eq!("Dummy PDF file", pa);
        }
        other => panic!("expected two generation turns, got {other:?}"),
    }
}

#[test]
fn context_token_is_replaced_verbatim() {
    let mut session = Session::new(default_model());
    session.on_turn_complete(Some(ContextToken { data: vec![1, 2, 3] }));
    assert_eq!(Some(ContextToken { data: vec![1, 2, 3] }), session.context);
    session.on_turn_complete(None);
    assert_eq!(Some(ContextToken { data: vec![1, 2, 3] }), session.context);
    session.on_turn_complete(Some(ContextToken { data: vec![4] }));
    assert_eq!(Some(ContextToken { data: vec![4] }), session.context);
}

#[test]
fn a_longer_word_than_the_load_token_is_a_prompt() {
    let session = Session::new(default_model());
    match session.on_line(":useful x\n") {
        Action::Generate { prompt } => assert_eq!(":useful x", prompt),
        other => panic!("expected a generation turn, got {other:?}"),
    }
}

#[test]
fn control_commands_are_never_substituted() {
    let mut session = Session::new(default_model());
    session.on_load_outcome(Ok("doc".to_string()));
    match session.on_line(":use {pdf}") {
        Action::Load { path } => assert_eq!("{pdf}", path),
        other => panic!("expected a load command, got {other:?}"),
    }
}
