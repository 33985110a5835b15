//! The placeholder that fills the place of the cryptographic backend's failure
//! type where the backend is not in use.

use vstd::prelude::*;

verus! {

/// A failure of a cryptographic backend that was never called. It carries
/// nothing: every value of it is the same value, and describes and renders
/// itself by the same fixed message.
#[derive(Debug, Clone, Copy, PartialEq, Eq)]
pub struct SslErrorStack;

impl SslErrorStack {
    /// The one message of the placeholder.
    pub open spec fn message() -> Seq<char> {
        "openssl feature not enabled"@
    }

    /// The short description: the fixed message.
    pub fn description(&self) -> (s: &'static str)
        ensures
            s@ == Self::message(),
    {
        "openssl feature not enabled"
    }

    /// The text for display: the fixed message again.
    pub fn render(&self) -> (s: String)
        ensures
            s@ == Self::message(),
    {
        String::from_str("openssl feature not enabled")
    }
}

/// However a placeholder was made, it is the same value as any other.
pub proof fn lemma_placeholder_is_constant(a: SslErrorStack, b: SslErrorStack)
    ensures
        a == b,
{
}

} // verus!
