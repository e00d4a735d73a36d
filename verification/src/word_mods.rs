use crate::text::{is_prefix, starts_with};
use vstd::prelude::*;
use vstd::string::*;

verus! {

/// `word` with its leading `from` replaced by `to`, or `word` itself where
/// it does not begin with `from`.
pub open spec fn flipped(from: Seq<char>, to: Seq<char>, word: Seq<char>) -> Seq<char> {
    if is_prefix(from, word) {
        to + word.skip(from.len() as int)
    } else {
        word
    }
}

/// `word` with a leading `first` replaced by `second`; failing that, with a
/// leading `second` replaced by `first`; failing both, `word` itself.
pub open spec fn flip_flopped(first: Seq<char>, second: Seq<char>, word: Seq<char>) -> Seq<
    char,
> {
    if is_prefix(first, word) {
        second + word.skip(first.len() as int)
    } else if is_prefix(second, word) {
        first + word.skip(second.len() as int)
    } else {
        word
    }
}

/// Replaces the beginning `from` of `word` by `to`.
fn replace_start(from: &str, to: &str, word: &str) -> (r: String)
    requires
        is_prefix(from@, word@),
    ensures
        r@ == to@ + word@.skip(from@.len() as int),
{
    let n = from.unicode_len();
    let m = word.unicode_len();
    String::from_str(to).concat(word.substring_char(n, m))
}

/// Rewrites a word that begins with `from` so that it begins with `to`.
pub fn flip(from: &str, to: &str, word: &str) -> (r: String)
    ensures
        r@ == flipped(from@, to@, word@),
{
    if starts_with(word, from) {
        replace_start(from, to, word)
    } else {
        String::from_str(word)
    }
}

/// Exchanges the beginnings `first` and `second` of a word, trying `first`
/// before `second`.
pub fn flip_flop(first: &str, second: &str, word: &str) -> (r: String)
    ensures
        r@ == flip_flopped(first@, second@, word@),
{
    if starts_with(word, first) {
        replace_start(first, second, word)
    } else if starts_with(word, second) {
        replace_start(second, first, word)
    } else {
        String::from_str(word)
    }
}

} // verus!
