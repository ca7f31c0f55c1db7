//! The capability by which an application decides, request by request, whether the version is
//! to be written into the path.

use vstd::prelude::*;

verus! {

/// Failure of a filter to reach a verdict. Its message is meant for diagnostics and is never
/// shown to the client.
#[derive(Debug, PartialEq, Eq)]
pub struct FilterError {
    message: String,
}

impl View for FilterError {
    type V = Seq<char>;

    closed spec fn view(&self) -> Seq<char> {
        self.message@
    }
}

impl FilterError {
    /// A failure with the given message.
    pub fn new(message: &str) -> (error: Self)
        ensures
            error@ == message@,
    {
        FilterError { message: message.to_owned() }
    }

    /// The message of the failure.
    pub fn message(&self) -> (message: &str)
        ensures
            message@ == self@,
    {
        self.message.as_str()
    }
}

impl Clone for FilterError {
    fn clone(&self) -> (error: Self)
        ensures
            error@ == self@,
    {
        FilterError { message: self.message.clone() }
    }
}

/// What a filter found: whether to rewrite the request, or the message of its failure.
pub open spec fn verdict_of(verdict: Result<bool, FilterError>) -> Result<bool, Seq<char>> {
    match verdict {
        Ok(rewrite) => Ok(rewrite),
        Err(error) => Err(error@),
    }
}

/// Decides whether a request is to be rewritten. An implementation may consult anything it
/// likes, but sees no more of the request than its target: the path and, after a `?`, the query.
/// One filter serves all requests, so it can be asked from several threads at once.
pub trait RewriteFilter: Send + Sync {
    /// Whether the request with the given target is to be rewritten.
    fn should_rewrite(&self, target: &str) -> Result<bool, FilterError>;
}

/// The filter that has every request rewritten.
#[derive(Debug, Clone, Copy, PartialEq, Eq, Structural)]
pub struct All;

impl RewriteFilter for All {
    fn should_rewrite(&self, target: &str) -> (verdict: Result<bool, FilterError>)
        ensures
            verdict_of(verdict) == Ok::<bool, Seq<char>>(true),
    {
        Ok(true)
    }
}

} // verus!
