use pdf_summarizer::name_prompt;
use pdf_summarizer::summarize_prompt;

#[test]
fn summarize_prompt_prefixes_the_instruction() {
    assert_eq!(
        "Summarize the following text that is from a PDF.\nDummy PDF file",
        summarize_prompt("Dummy PDF file")
    );
}

#[test]
fn name_prompt_prefixes_the_instruction() {
    assert_eq!(
        "The following text is from a PDF. Give it a suitable and concise title.\nDummy PDF file",
        name_prompt("Dummy PDF file")
    );
}
