//! POSIX-style word splitting of command lines, done by the `shell_words` crate.
use vstd::prelude::*;

verus! {

/// The words that `shell_words::split` makes of a command line, or `None` when it
/// reports an unmatched quote. Each word is given by its characters.
pub uninterp spec fn shell_split(s: Seq<char>) -> Option<Seq<Seq<char>>>;

/// Calls `shell_words::split`. The contract claims only that the outcome is a function of
/// the input's characters: `Some` of the words exactly when the crate returns `Ok`, and
/// `None` exactly when it returns its parse error. What the words are is left to the name
/// [`shell_split`].
#[verifier::external_body]
pub(crate) fn split_words(s: &str) -> (r: Option<Vec<String>>)
    ensures
        match r {
            Some(v) => shell_split(s@) == Some(v.deep_view()),
            None => shell_split(s@) is None,
        },
{
    shell_words::split(s).ok()
}

} // verus!
