//! The outcome of comparing the user's guess with the loaded creature's name.
use vstd::prelude::*;

verus! {

/// Tri-state result of a guess. `Correct` and `Incorrect` carry the user's
/// input after lower-casing, exactly as it was compared.
#[derive(Debug, Clone, PartialEq, Eq)]
pub enum GuessOutcome {
    NoGuess,
    Correct(String),
    Incorrect(String),
}

/// The lower-cased form of a character sequence, as `str::to_lowercase`
/// computes it. Unicode case folding is too large to restate here; the
/// contracts that depend on it speak of this name.
pub uninterp spec fn lower_of(s: Seq<char>) -> Seq<char>;

/// Relies on `str::to_lowercase`: the result depends on the characters of
/// the input alone.
#[verifier::external_body]
pub(crate) fn lowercase(s: &str) -> (r: String)
    ensures
        r@ == lower_of(s@),
{
    s.to_lowercase()
}

} // verus!
