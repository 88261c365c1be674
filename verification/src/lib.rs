//! A client for a speech-to-text service that also answers questions about
//! finished transcripts.
//!
//! The library decides and computes; it sends and stores nothing. It says
//! which request to send ([`http::Request`]), is told how the exchange ended
//! ([`http::Reply`]), and answers with the next step. The program around it
//! performs the requests, sleeps between status requests, prints, and
//! writes the transcript to disk.
//!
//! - [`transcribe`]: submitting a recording, and following the job until it
//!   has completed or failed.
//! - [`question_answer`]: putting a batch of questions to transcripts and
//!   reading the answers.
//! - [`json`] and [`wire`]: JSON documents as plain values, and their text
//!   form as `serde_json` reads and writes it.
//! - [`headers`] and [`http`]: the headers, requests and replies.
//! - [`error`]: the ways in which a run fails.
//! - [`cli`]: what the command line asks for.

pub mod cli;
pub mod error;
pub mod headers;
pub mod http;
pub mod json;
pub mod question_answer;
pub mod text;
pub mod transcribe;
pub mod wire;
