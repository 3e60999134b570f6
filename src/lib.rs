//! Resolves a content source (a local text file, or an HTML document scoped by a
//! CSS selector) into one plain-text payload for sentiment analysis.
//!
//! The library decides and computes; reading files and talking to the network is
//! left to its caller, which hands the outcomes back as plain values.
use vstd::prelude::*;

pub mod args;
pub mod html;
pub mod load;

pub use args::{Args, Cmd, Origin, Type};
pub use html::extract_text_from_html;
pub use load::{decode_body, import_file, response_status};


verus! {

/// The mathematical value of an [`ErrorKind`]: the same variants over character
/// sequences.
pub enum Failure {
    Request(Seq<char>, Seq<char>),
    Decode(Seq<char>),
    ReadToString(Seq<char>),
    ParseHtml(Seq<char>),
}

/// Why a source could not be resolved into text.
#[derive(Debug)]
pub enum ErrorKind {
    /// The request to the target (first field) failed, for the reason given in
    /// the second field.
    Request(String, String),
    /// A response body could not be read as text.
    Decode(String),
    /// A local file could not be read.
    ReadToString(String),
    /// The selector did not compile, or no text stands at it.
    ParseHtml(String),
}

impl View for ErrorKind {
    type V = Failure;

    open spec fn view(&self) -> Failure {
        match self {
            ErrorKind::Request(target, detail) => Failure::Request(target@, detail@),
            ErrorKind::Decode(detail) => Failure::Decode(detail@),
            ErrorKind::ReadToString(detail) => Failure::ReadToString(detail@),
            ErrorKind::ParseHtml(detail) => Failure::ParseHtml(detail@),
        }
    }
}

/// A result of the library, with its text and its error seen as values.
pub open spec fn outcome(r: Result<String, ErrorKind>) -> Result<Seq<char>, Failure> {
    match r {
        Ok(text) => Ok(text@),
        Err(e) => Err(e@),
    }
}

/// The human-readable message of a failure.
pub open spec fn failure_message(f: Failure) -> Seq<char> {
    match f {
        Failure::Request(target, detail) => "Error making request to '"@ + target + "'. "@
            + detail,
        Failure::Decode(detail) => "Error decoding HTML. "@ + detail,
        Failure::ReadToString(detail) => "Error importing file from file system. "@ + detail,
        Failure::ParseHtml(detail) => "Error parsing HTML. "@ + detail,
    }
}

impl ErrorKind {
    /// The human-readable message of this error.
    pub fn message(&self) -> (r: String)
        ensures
            r@ == failure_message(self@),
    {
        match self {
            ErrorKind::Request(target, detail) => {
                let mut m = String::from_str("Error making request to '");
                m.append(target.as_str());
                m.append("'. ");
                m.append(detail.as_str());
                m
            },
            ErrorKind::Decode(detail) => String::from_str("Error decoding HTML. ").concat(
                detail.as_str(),
            ),
            ErrorKind::ReadToString(detail) => String::from_str(
                "Error importing file from file system. ",
            ).concat(detail.as_str()),
            ErrorKind::ParseHtml(detail) => String::from_str("Error parsing HTML. ").concat(
                detail.as_str(),
            ),
        }
    }
}

} // verus!
