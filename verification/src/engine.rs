//! The calls into the analysis engine and into the pattern matcher.
//!
//! Nothing in this file is proved: each function states what the library
//! takes on trust from the code it calls. The engine's error messages are
//! coloured according to the terminal and the environment, so no contract
//! says what a message holds.

use vstd::prelude::*;
use crate::document::Frequency;
use crate::text::opt_view;

verus! {

/// The text that is left when every match of a pattern is taken out of a
/// text, leftmost match first; nothing where the pattern does not compile.
pub uninterp spec fn matches_removed(pattern: Seq<char>, text: Seq<char>) -> Option<Seq<char>>;

/// `gorder::input::EstimateError::new`, called with a number of blocks.
/// It fails on fewer than two blocks, and else holds the number of blocks and
/// the output file as they were given; both are read back from what it built.
#[verifier::external_body]
pub(crate) fn estimate_error_new(n_blocks: usize, output: &Option<String>) -> (r: Result<
    (usize, Option<String>),
    String,
>)
    ensures
        r is Ok <==> n_blocks >= 2,
        r matches Ok(parts) ==> parts.0 == n_blocks && opt_view(parts.1) == opt_view(*output),
{
    match gorder::input::EstimateError::new(Some(n_blocks), output.as_deref()) {
        Ok(e) => Ok((e.n_blocks(), e.output_convergence().map(|s| s.to_string()))),
        Err(e) => Err(e.to_string()),
    }
}

/// `gorder::input::Frequency::every`. It fails on a period of zero, and else
/// gives the frequency with that period.
#[verifier::external_body]
pub(crate) fn frequency_every(n_frames: usize) -> (r: Result<Frequency, String>)
    ensures
        r is Ok <==> n_frames >= 1,
        r matches Ok(f) ==> f == Frequency::Every(n_frames),
{
    match gorder::input::Frequency::every(n_frames) {
        Ok(gorder::input::Frequency::Every(n)) => Ok(Frequency::Every(n.get())),
        Ok(gorder::input::Frequency::Once) => Ok(Frequency::Once),
        Err(e) => Err(e.to_string()),
    }
}

/// `Regex::new` and `Regex::replace_all` of the regex crate, with the empty
/// replacement: the text without the matches of the pattern, or nothing where
/// the pattern does not compile.
#[verifier::external_body]
pub(crate) fn remove_matches(pattern: &str, text: &str) -> (r: Option<String>)
    ensures
        opt_view(r) == matches_removed(pattern@, text@),
{
    match regex::Regex::new(pattern) {
        Ok(re) => Some(re.replace_all(text, "").into_owned()),
        Err(_) => None,
    }
}

/// `String::push` of the standard library: the character is added at the end.
#[verifier::external_body]
pub(crate) fn push_char(s: &mut String, c: char)
    ensures
        final(s)@ == old(s)@.push(c),
{
    s.push(c)
}

} // verus!
