use vstd::prelude::*;

verus! {

/// What shell_words::split returns for a string: its POSIX-style word
/// splitting, or nothing when the string has an unmatched quote. The result
/// is a function of the string alone.
pub uninterp spec fn shell_split_words(s: Seq<char>) -> Option<Seq<Seq<char>>>;

/// Relies on shell_words::split: POSIX shell word splitting, a pure function
/// of the input string; it fails exactly on input with an unmatched quote.
#[verifier::external_body]
pub(crate) fn shell_split(s: &str) -> (r: Option<Vec<String>>)
    ensures
        (r is Some) == (shell_split_words(s@) is Some),
        r matches Some(v) ==> v.deep_view() == shell_split_words(s@)->Some_0,
{
    match shell_words::split(s) {
        Ok(v) => Some(v),
        Err(_) => None,
    }
}

} // verus!
