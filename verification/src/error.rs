//! What can go wrong in a session, and how badly.
//!
//! A failure of the transport is fatal: the wire broke, and the port is
//! given up. Every other error concerns one message on an intact wire: the
//! message is dropped and the session goes on.

use vstd::prelude::*;

verus! {

/// An error of a session.
#[derive(Debug)]
pub enum SessionError {
    /// Reading from or writing to the port failed.
    Transport,
    /// The bytes between two delimiters are no text.
    Encoding { raw: Vec<u8> },
    /// The text between two delimiters is no JSON document.
    Syntax { error: serde_json::Error, source_string: String },
    /// The document names no kind of request: its discriminant is missing, is
    /// no unsigned number (`tag` is `None`), or is a number that stands for
    /// nothing.
    Protocol { tag: Option<u64>, source_string: String },
}

/// The value of a `SessionError`: what it says, without what the JSON parser added
/// for a reader of the log.
pub enum SessionErrorView {
    Transport,
    Encoding { raw: Seq<u8> },
    Syntax { source_string: Seq<char> },
    Protocol { tag: Option<u64>, source_string: Seq<char> },
}

impl SessionErrorView {
    /// Only the failure of the transport ends a session.
    pub open spec fn fatal(self) -> bool {
        self is Transport
    }
}

impl View for SessionError {
    type V = SessionErrorView;

    open spec fn view(&self) -> SessionErrorView {
        match self {
            SessionError::Transport => SessionErrorView::Transport,
            SessionError::Encoding { raw } => SessionErrorView::Encoding { raw: raw@ },
            SessionError::Syntax { error, source_string } => SessionErrorView::Syntax {
                source_string: source_string@,
            },
            SessionError::Protocol { tag, source_string } => SessionErrorView::Protocol {
                tag: *tag,
                source_string: source_string@,
            },
        }
    }
}

impl SessionError {
    /// Whether the error ends the session.
    pub fn is_fatal(&self) -> (fatal: bool)
        ensures
            fatal == self@.fatal(),
    {
        match self {
            SessionError::Transport => true,
            _ => false,
        }
    }
}

} // verus!
