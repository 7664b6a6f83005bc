//! Regular expressions, as the `regex` crate understands them.

use vstd::prelude::*;

verus! {

/// Whether the regular expression `pattern` matches somewhere in `haystack`;
/// `None` where `pattern` is no regular expression that the `regex` crate
/// takes.
pub uninterp spec fn regex_match(pattern: Seq<char>, haystack: Seq<char>) -> Option<bool>;

/// Whether `c` is one of the letters `a` to `z`.
pub open spec fn is_lower(c: char) -> bool {
    'a' <= c && c <= 'z'
}

/// The word of an anchored pattern: `pattern` is `^`, then an escaped slash,
/// then the word, which is one to sixteen letters from `a` to `z`.
pub open spec fn anchored_word(pattern: Seq<char>) -> Option<Seq<char>> {
    if 3 < pattern.len() <= 19 && pattern[0] == '^' && pattern[1] == '\\' && pattern[2] == '/' && (
    forall|i: int| 3 <= i < pattern.len() ==> is_lower(#[trigger] pattern[i])) {
        Some(pattern.skip(3))
    } else {
        None
    }
}

/// What an anchored pattern answers: whether the haystack begins with a slash
/// and the word. Any other pattern is left to `regex_match`.
pub open spec fn anchored_answer(pattern: Seq<char>, haystack: Seq<char>, r: Option<bool>) -> bool {
    match anchored_word(pattern) {
        Some(word) => r == Some((seq!['/'] + word).is_prefix_of(haystack)),
        None => true,
    }
}

/// Compiles `pattern` with `regex::Regex::new` and searches `haystack` with
/// `Regex::is_match`. Both depend on their arguments alone, so the contract
/// gives the result a name, `regex_match`. Of one kind of pattern it says
/// more, as the crate's syntax has it: `^` stands for the beginning of the
/// haystack, an escaped slash for a slash, and a letter for itself, so an
/// anchored pattern is taken and matches the haystacks that begin with a
/// slash and its word. Of other patterns it says neither which are taken
/// nor what they match.
#[verifier::external_body]
pub(crate) fn is_match(pattern: &str, haystack: &str) -> (r: Option<bool>)
    ensures
        r == regex_match(pattern@, haystack@),
        anchored_answer(pattern@, haystack@, r),
{
    match regex::Regex::new(pattern) {
        Ok(re) => Some(re.is_match(haystack)),
        Err(_) => None,
    }
}

} // verus!
