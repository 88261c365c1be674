//! What the command line asks for.

use vstd::prelude::*;

verus! {

/// `std::path::PathBuf`, carried through unread.
#[verifier::external_type_specification]
#[verifier::external_body]
pub struct ExPathBuf(std::path::PathBuf);

/// The two commands of the client.
#[derive(Debug)]
pub enum AssemblyCLI {
    Transcribe(TranscriberArgs),
    Question(QuestionArgs),
}

/// Arguments of the `transcribe` command.
#[derive(Debug)]
pub struct TranscriberArgs {
    pub audio_url: Option<String>,
    pub transcript_id: Option<String>,
}

/// Arguments of the `question` command.
#[derive(Debug)]
pub struct QuestionArgs {
    pub questions_file_path: std::path::PathBuf,
    pub transcript_id: Vec<String>,
}

} // verus!
