//! The request a user makes of the tool, and how it is resolved into text.
use vstd::prelude::*;

use crate::html::{
    extract_text_from_html, extraction, first_match_texts, no_text_message, selector_error,
};
use crate::Failure;

pub use crate::ErrorKind;

verus! {

/// A request to analyse the sentiment of some text.
pub struct Args {
    pub cmd: Cmd,
}

/// What the tool is asked to do.
pub enum Cmd {
    Analyse(Type),
}

/// Where the text to analyse comes from.
pub enum Type {
    /// The text of the first element that `selector` matches in the HTML
    /// document at `path`, a local file or a URL.
    Html { path: String, selector: String },
    /// The whole of the local text file at `path`.
    Text { path: String },
}

/// What has to be loaded to answer a request: a local file, or the body of a
/// response from a remote site.
pub enum Origin {
    File(String),
    Site(String),
}

/// Whether `path` names a remote resource: it begins with `http`.
pub open spec fn names_remote(path: Seq<char>) -> bool {
    "http"@.is_prefix_of(path)
}

/// Whether `path` names a remote resource rather than a local file.
pub fn is_remote(path: &str) -> (r: bool)
    ensures
        r == names_remote(path@),
{
    proof {
        reveal_strlit("http");
    }
    let n = path.unicode_len();
    if n < 4 {
        return false;
    }
    let r = path.get_char(0) == 'h' && path.get_char(1) == 't' && path.get_char(2) == 't'
        && path.get_char(3) == 'p';
    assert(r ==> "http"@ =~= path@.subrange(0, 4));
    proof {
        if "http"@ =~= path@.subrange(0, 4) {
            assert forall|k: int| 0 <= k < 4 implies path@[k] == "http"@[k] by {
                assert(path@.subrange(0, 4)[k] == path@[k]);
            }
            assert("http"@[0] == 'h' && "http"@[1] == 't' && "http"@[2] == 't' && "http"@[3]
                == 'p');
        }
    }
    r
}

/// What a request of kind `kind` resolves to, once what it loaded is known:
/// a load failure is passed on unchanged; the text of a text file is returned
/// verbatim; an HTML document goes through extraction at its selector.
pub open spec fn resolution(kind: Type, loaded: Result<Seq<char>, Failure>) -> Result<
    Seq<char>,
    Failure,
> {
    match loaded {
        Err(f) => Err(f),
        Ok(content) => match kind {
            Type::Text { .. } => Ok(content),
            Type::Html { selector, .. } => extraction(content, selector@),
        },
    }
}

/// A request for the text at a selector that compiles but matches no element
/// of the loaded document resolves to the failure saying that no text is
/// available there.
pub proof fn lemma_unmatched_selector_resolves_to_no_text(args: Args, content: Seq<char>)
    requires
        match args.kind() {
            Type::Html { selector, .. } => selector_error(selector@) is None && first_match_texts(
                content,
                selector@,
            ) is None,
            Type::Text { .. } => false,
        },
    ensures
        resolution(args.kind(), Ok(content)) == Err::<Seq<char>, Failure>(
            Failure::ParseHtml(no_text_message()),
        ),
{
}

impl Args {
    /// The kind of source asked for.
    pub open spec fn kind(self) -> Type {
        match self.cmd {
            Cmd::Analyse(kind) => kind,
        }
    }

    /// Where the content for this request must be loaded from: a text file is
    /// always local; an HTML path is fetched from its site where it begins
    /// with `http`, and read from disk otherwise.
    pub fn origin(&self) -> (r: Origin)
        ensures
            match self.kind() {
                Type::Text { path } => r == Origin::File(path),
                Type::Html { path, .. } => r == if names_remote(path@) {
                    Origin::Site(path)
                } else {
                    Origin::File(path)
                },
            },
    {
        match &self.cmd {
            Cmd::Analyse(kind) => match kind {
                Type::Text { path } => Origin::File(path.clone()),
                Type::Html { path, .. } => {
                    if is_remote(path.as_str()) {
                        Origin::Site(path.clone())
                    } else {
                        Origin::File(path.clone())
                    }
                },
            },
        }
    }

    /// Resolves this request into the text to analyse, given what loading its
    /// [`origin`](Args::origin) came to.
    pub fn get_text(self, loaded: Result<String, ErrorKind>) -> (r: Result<String, ErrorKind>)
        ensures
            crate::outcome(r) == resolution(self.kind(), crate::outcome(loaded)),
    {
        let content = match loaded {
            Ok(content) => content,
            Err(e) => return Err(e),
        };
        match self.cmd {
            Cmd::Analyse(kind) => match kind {
                Type::Text { .. } => Ok(content),
                Type::Html { selector, .. } => extract_text_from_html(
                    content.as_str(),
                    selector.as_str(),
                ),
            },
        }
    }
}

} // verus!
