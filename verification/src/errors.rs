use vstd::prelude::*;

verus! {

/// The two domain failures of reaction removal: a counter that already
/// stands at zero cannot support the removal of a further reaction of its
/// kind, and the operation must abort rather than wrap around.
#[derive(Clone, Copy, PartialEq, Eq, Structural, Debug)]
pub enum TwitterError {
    MinLikesReached,
    MinDislikesReached,
}

impl TwitterError {
    /// The condition's wording, as surfaced to callers.
    pub fn message(&self) -> (m: &'static str)
        ensures
            *self is MinLikesReached ==> m@ == "minimum likes reached"@,
            *self is MinDislikesReached ==> m@ == "minimum dislikes reached"@,
    {
        match self {
            TwitterError::MinLikesReached => "minimum likes reached",
            TwitterError::MinDislikesReached => "minimum dislikes reached",
        }
    }
}

/// What the full operation can report: a failure of the host runtime's
/// account resolution, or a domain error raised by the handler itself.
#[derive(Clone, Copy, PartialEq, Eq, Structural, Debug)]
pub enum ProgramError {
    /// No live reaction record exists for the given author and tweet.
    AccountNotFound,
    /// A record for the given author and tweet already exists.
    AccountAlreadyInUse,
    /// The handler rejected the decrement.
    Custom(TwitterError),
}

} // verus!
