//! Chat-session engine of a PDF summarizer: command classification, document
//! loading, placeholder substitution into prompts, and the session state that
//! carries a generation-context token across turns. All decision logic lives
//! here, verified; reading files, the network and the terminal belong to the
//! surrounding application.
pub mod args;
pub mod command;
pub mod path;
pub mod prompts;
pub mod session;
pub mod template;
pub mod text;

pub use args::default_model;
pub use args::Args;
pub use args::Commands;
pub use command::classify;
pub use command::parse_use_command;
pub use command::Command;
pub use command::CommandError;
pub use path::normalize_path;
pub use path::PathError;
pub use prompts::name_prompt;
pub use prompts::summarize_prompt;
pub use session::prompt_marker;
pub use session::Action;
pub use session::ContextToken;
pub use session::Session;

pub use template::no_document_message;
pub use template::placeholder;
pub use template::substitue_pdf;
pub use template::SubstituteError;
pub use text::contains_seq;
pub use text::occurs_at;
pub use text::replace_seq;
pub use text::starts_with_seq;
