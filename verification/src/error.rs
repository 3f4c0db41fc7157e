//! The error every fallible operation reports.

use vstd::prelude::*;

verus! {

/// Unified error type for all UDA operations.
#[derive(Debug)]
pub enum UdaError {
    /// The feature is not available here.
    NotSupported(String),
    /// A probe of the environment failed.
    DetectionFailed(String),
    /// A helper command failed.
    CommandFailed(String),
    /// An input or output operation failed; carries its description.
    Io(String),
    /// Anything else that went wrong inside the library.
    Internal(String),
}

/// What a [`UdaError`] says.
#[verifier::ext_equal]
pub enum ErrorView {
    NotSupported(Seq<char>),
    DetectionFailed(Seq<char>),
    CommandFailed(Seq<char>),
    Io(Seq<char>),
    Internal(Seq<char>),
}

impl View for UdaError {
    type V = ErrorView;

    open spec fn view(&self) -> ErrorView {
        match *self {
            UdaError::NotSupported(text) => ErrorView::NotSupported(text@),
            UdaError::DetectionFailed(text) => ErrorView::DetectionFailed(text@),
            UdaError::CommandFailed(text) => ErrorView::CommandFailed(text@),
            UdaError::Io(text) => ErrorView::Io(text@),
            UdaError::Internal(text) => ErrorView::Internal(text@),
        }
    }
}

impl ErrorView {
    /// The error as shown to a person: its category, then its detail.
    pub open spec fn shown(self) -> Seq<char> {
        match self {
            ErrorView::NotSupported(text) => "Feature not supported: "@ + text,
            ErrorView::DetectionFailed(text) => "Detection failed: "@ + text,
            ErrorView::CommandFailed(text) => "Command failed: "@ + text,
            ErrorView::Io(text) => "IO error: "@ + text,
            ErrorView::Internal(text) => "Internal error: "@ + text,
        }
    }
}

impl UdaError {
    /// The error as shown to a person: its category, then its detail.
    pub fn message(&self) -> (text: String)
        ensures
            text@ == self@.shown(),
    {
        match self {
            UdaError::NotSupported(detail) => "Feature not supported: ".to_owned().concat(
                detail.as_str(),
            ),
            UdaError::DetectionFailed(detail) => "Detection failed: ".to_owned().concat(
                detail.as_str(),
            ),
            UdaError::CommandFailed(detail) => "Command failed: ".to_owned().concat(
                detail.as_str(),
            ),
            UdaError::Io(detail) => "IO error: ".to_owned().concat(detail.as_str()),
            UdaError::Internal(detail) => "Internal error: ".to_owned().concat(detail.as_str()),
        }
    }
}

/// No two errors read alike: what is shown tells both the category and the detail.
pub proof fn errors_read_differently(a: ErrorView, b: ErrorView)
    requires
        a.shown() == b.shown(),
    ensures
        a == b,
{
    reveal_strlit("Feature not supported: ");
    reveal_strlit("Detection failed: ");
    reveal_strlit("Command failed: ");
    reveal_strlit("IO error: ");
    reveal_strlit("Internal error: ");
    let s = a.shown();
    let t = b.shown();
    assert(s[0] == t[0] && s[1] == t[1]);
    match (a, b) {
        (ErrorView::NotSupported(x), ErrorView::NotSupported(y)) => {
            lemma_same_detail("Feature not supported: "@, x, y);
        },
        (ErrorView::DetectionFailed(x), ErrorView::DetectionFailed(y)) => {
            lemma_same_detail("Detection failed: "@, x, y);
        },
        (ErrorView::CommandFailed(x), ErrorView::CommandFailed(y)) => {
            lemma_same_detail("Command failed: "@, x, y);
        },
        (ErrorView::Io(x), ErrorView::Io(y)) => {
            lemma_same_detail("IO error: "@, x, y);
        },
        (ErrorView::Internal(x), ErrorView::Internal(y)) => {
            lemma_same_detail("Internal error: "@, x, y);
        },
        _ => {},
    }
}

proof fn lemma_same_detail(prefix: Seq<char>, x: Seq<char>, y: Seq<char>)
    requires
        prefix + x == prefix + y,
    ensures
        x == y,
{
    assert(x =~= (prefix + x).skip(prefix.len() as int));
    assert(y =~= (prefix + y).skip(prefix.len() as int));
}

} // verus!
