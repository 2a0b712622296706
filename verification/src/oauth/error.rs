//! Errors of the credential store and of refresh transactions.

use vstd::prelude::*;


verus! {

/// An error message, and the messages of the errors behind it, each the cause of the one before.
#[derive(Clone, Debug, PartialEq, Eq)]
pub struct OAuthError {
    pub message: String,
    pub causes: Vec<String>,
}

/// What an `OAuthError` says.
#[verifier::ext_equal]
pub struct OAuthErrorView {
    pub message: Seq<char>,
    pub causes: Seq<Seq<char>>,
}

impl DeepView for OAuthError {
    type V = OAuthErrorView;

    open spec fn deep_view(&self) -> OAuthErrorView {
        OAuthErrorView { message: self.message@, causes: self.causes.deep_view() }
    }
}

impl OAuthErrorView {
    /// An error with nothing behind it.
    pub open spec fn plain(message: Seq<char>) -> OAuthErrorView {
        OAuthErrorView { message, causes: seq![] }
    }

    /// An error that reports another one, of which only the message is known.
    pub open spec fn caused(message: Seq<char>, cause: Seq<char>) -> OAuthErrorView {
        OAuthErrorView { message, causes: seq![cause] }
    }

    /// An error that reports this one.
    pub open spec fn in_context(self, message: Seq<char>) -> OAuthErrorView {
        OAuthErrorView { message, causes: seq![self.message] + self.causes }
    }
}

impl OAuthError {
    /// An error with nothing behind it.
    pub fn plain(message: String) -> (error: OAuthError)
        ensures
            error.deep_view() == OAuthErrorView::plain(message@),
    {
        let error = OAuthError { message, causes: Vec::new() };
        assert(error.deep_view() =~= OAuthErrorView::plain(message@));
        error
    }

    /// An error that reports another one, of which only the message is known.
    pub fn caused(message: String, cause: String) -> (error: OAuthError)
        ensures
            error.deep_view() == OAuthErrorView::caused(message@, cause@),
    {
        let error = OAuthError { message, causes: vec![cause] };
        assert(error.deep_view() =~= OAuthErrorView::caused(message@, cause@));
        error
    }

    /// An error that reports this one.
    pub fn in_context(self, message: String) -> (error: OAuthError)
        ensures
            error.deep_view() == self.deep_view().in_context(message@),
    {
        let mut causes = self.causes;
        causes.insert(0, self.message);
        let error = OAuthError { message, causes };
        assert(error.deep_view() =~= self.deep_view().in_context(message@));
        error
    }
}

} // verus!
