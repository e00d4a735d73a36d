use crate::trick_list::{is_trick_letter, match_tricks_list, trick_table, Trick};
use crate::text::same_text;
use crate::word_mods::{flip, flip_flop, flip_flopped, flipped};
use vstd::prelude::*;
use vstd::string::*;

verus! {

/// What a spelling rule does to a word.
#[derive(Debug, Clone, Copy, PartialEq, Eq)]
pub enum Operation {
    FlipFlop,
    Flip,
    Internal,
    Slur,
}

/// Whether a character is one of the five vowels, in lower case.
pub open spec fn vowel(c: char) -> bool {
    c == 'a' || c == 'e' || c == 'i' || c == 'o' || c == 'u'
}

/// The value of a Roman digit, in either case; 0 for any other character.
pub open spec fn roman_digit_value(c: char) -> int {
    if c == 'I' || c == 'i' {
        1
    } else if c == 'V' || c == 'v' {
        5
    } else if c == 'X' || c == 'x' {
        10
    } else if c == 'L' || c == 'l' {
        50
    } else if c == 'C' || c == 'c' {
        100
    } else if c == 'D' || c == 'd' {
        500
    } else if c == 'M' || c == 'm' {
        1000
    } else {
        0
    }
}

/// Whether a character is one of the seven Roman digits, in either case.
pub open spec fn roman_digit(c: char) -> bool {
    roman_digit_value(c) != 0
}

/// Whether every character of `s` is a Roman digit.
pub open spec fn roman_number(s: Seq<char>) -> bool {
    forall|i: int| 0 <= i < s.len() ==> roman_digit(#[trigger] s[i])
}

/// What the digit at position `i` contributes to the numeral `s`: its value,
/// taken negative where the digit that follows it is greater.
pub open spec fn signed_digit(s: Seq<char>, i: int) -> int {
    if i + 1 < s.len() && roman_digit_value(s[i]) < roman_digit_value(s[i + 1]) {
        -roman_digit_value(s[i])
    } else {
        roman_digit_value(s[i])
    }
}

/// The sum of the contributions of the digits of `s` from position `from`
/// to the end.
pub open spec fn roman_sum(s: Seq<char>, from: int) -> int
    decreases s.len() - from,
{
    if 0 <= from < s.len() {
        signed_digit(s, from) + roman_sum(s, from + 1)
    } else {
        0
    }
}

/// The value of the Roman numeral `s`.
pub open spec fn roman_value(s: Seq<char>) -> int {
    roman_sum(s, 0)
}

/// The sum of the values of the Roman digits that are smaller than `value`.
pub open spec fn smaller_digits(value: int) -> int {
    if value <= 1 {
        0
    } else if value <= 5 {
        1
    } else if value <= 10 {
        6
    } else if value <= 50 {
        16
    } else if value <= 100 {
        66
    } else if value <= 500 {
        166
    } else {
        666
    }
}

/// The longest numeral whose value is sure to fit in 32 bits.
pub const MAX_NUMERAL_LEN: usize = 4_000_000;

/// Tests whether a character is a vowel.
pub fn is_vowel(c: char) -> (r: bool)
    ensures
        r == vowel(c),
{
    match c {
        'a' | 'e' | 'i' | 'o' | 'u' => true,
        _ => false,
    }
}

/// Tests whether a character is a Roman digit.
pub fn is_roman_digit(c: char) -> (r: bool)
    ensures
        r == roman_digit(c),
{
    match c {
        'I' | 'V' | 'X' | 'L' | 'C' | 'D' | 'M' => true,
        'i' | 'v' | 'x' | 'l' | 'c' | 'd' | 'm' => true,
        _ => false,
    }
}

/// Tests whether a word is made of Roman digits alone.
pub fn is_roman_number(possible_roman_number: &str) -> (r: bool)
    ensures
        r == roman_number(possible_roman_number@),
{
    let n = possible_roman_number.unicode_len();
    let mut i: usize = 0;
    while i < n
        invariant
            n == possible_roman_number@.len(),
            i <= n,
            forall|j: int| 0 <= j < i ==> roman_digit(#[trigger] possible_roman_number@[j]),
        decreases n - i,
    {
        if !is_roman_digit(possible_roman_number.get_char(i)) {
            return false;
        }
        i += 1;
    }
    true
}

/// Whether `prefix` is one of the prefixes that are stripped without
/// consulting the dictionary.
pub open spec fn common_prefix(prefix: Seq<char>) -> bool {
    prefix == "dis"@ || prefix == "ex"@ || prefix == "in"@ || prefix == "per"@ || prefix
        == "prae"@ || prefix == "pro"@ || prefix == "re"@ || prefix == "si"@ || prefix == "sub"@
        || prefix == "super"@ || prefix == "trans"@
}

/// Tests whether a prefix is one of the common ones.
pub fn is_common_prefix(prefix: String) -> (r: bool)
    ensures
        r == common_prefix(prefix@),
{
    let constant_prefixes = vec![
        "dis",
        "ex",
        "in",
        "per",
        "prae",
        "pro",
        "re",
        "si",
        "sub",
        "super",
        "trans",
    ];
    let mut i: usize = 0;
    while i < constant_prefixes.len()
        invariant
            i <= constant_prefixes.len(),
            constant_prefixes@ == seq![
                "dis",
                "ex",
                "in",
                "per",
                "prae",
                "pro",
                "re",
                "si",
                "sub",
                "super",
                "trans",
            ],
            forall|j: int| 0 <= j < i ==> prefix@ != (#[trigger] constant_prefixes@[j])@,
        decreases constant_prefixes.len() - i,
    {
        if same_text(prefix.as_str(), constant_prefixes[i]) {
            return true;
        }
        i += 1;
    }
    false
}

/// The value of a Roman digit.
pub fn translate_roman_digit_to_number(c: char) -> (r: u32)
    requires
        roman_digit(c),
    ensures
        r as int == roman_digit_value(c),
{
    match c {
        'I' | 'i' => 1,
        'V' | 'v' => 5,
        'X' | 'x' => 10,
        'L' | 'l' => 50,
        'C' | 'c' => 100,
        'D' | 'd' => 500,
        _ => 1000,
    }
}

/// Evaluates a Roman numeral by a scan from its last digit to its first:
/// a digit smaller than the one after it is subtracted, any other added.
pub fn evaluate_roman_numeral(roman_numeral: &str) -> (r: u32)
    requires
        roman_number(roman_numeral@),
        roman_numeral@.len() <= MAX_NUMERAL_LEN,
    ensures
        r as int == roman_value(roman_numeral@),
{
    let n = roman_numeral.unicode_len();
    let mut result: u32 = 0;
    let mut last_digit: u32 = 0;
    let mut i: usize = n;
    while i > 0
        invariant
            n == roman_numeral@.len(),
            n <= MAX_NUMERAL_LEN,
            roman_number(roman_numeral@),
            i <= n,
            result as int == roman_sum(roman_numeral@, i as int),
            i < n ==> last_digit as int == roman_digit_value(roman_numeral@[i as int]),
            i == n ==> last_digit == 0,
            result >= smaller_digits(last_digit as int),
            result <= 1000 * (n - i),
        decreases i,
    {
        i -= 1;
        let digit = translate_roman_digit_to_number(roman_numeral.get_char(i));
        if digit < last_digit {
            result -= digit;
        } else {
            result += digit;
        }
        last_digit = digit;
    }
    result
}

/// The word after one pass over a list of rules. Each flip and flip-flop
/// rewrites the word that the rules before it left; the pass ends at the
/// first rule of another kind.
pub open spec fn tricks_applied(tricks: Seq<Trick>, word: Seq<char>) -> Seq<char>
    decreases tricks.len(),
{
    if tricks.len() == 0 {
        word
    } else {
        match tricks[0].operation {
            Operation::FlipFlop => tricks_applied(
                tricks.skip(1),
                flip_flopped(tricks[0].flip_flop1@, tricks[0].flip_flop2@, word),
            ),
            Operation::Flip => tricks_applied(
                tricks.skip(1),
                flipped(tricks[0].flip_flip3@, tricks[0].flip_flip4@, word),
            ),
            Operation::Internal => word,
            Operation::Slur => word,
        }
    }
}

/// The spelling variant of a word: two passes over the rules of its first
/// letter, or the word itself where it is empty or its first letter has no
/// rules.
pub open spec fn tricked(word: Seq<char>) -> Seq<char> {
    if word.len() > 0 && is_trick_letter(word[0]) {
        tricks_applied(trick_table(word[0]), tricks_applied(trick_table(word[0]), word))
    } else {
        word
    }
}

/// Tests whether the table has rules for a first letter.
pub fn has_tricks(c: char) -> (r: bool)
    ensures
        r == is_trick_letter(c),
{
    match c {
        'a' | 'd' | 'e' | 'f' | 'g' | 'h' | 'k' | 'l' | 'm' | 'n' | 'o' | 'p' | 's' | 't' | 'u'
        | 'y' | 'z' => true,
        _ => false,
    }
}

/// Rewrites a word by the rules of its first letter, in two passes.
pub fn try_tricks(word: String) -> (r: String)
    ensures
        r@ == tricked(word@),
        !(word@.len() > 0 && is_trick_letter(word@[0])) ==> r@ == word@,
{
    let mut word = word;
    if word.as_str().unicode_len() == 0 {
        return word;
    }
    let first_char = word.as_str().get_char(0);
    if has_tricks(first_char) {
        let trick_list = get_trick_lists(word.clone());
        let mut max_attempts: u8 = 0;
        let ghost start = word@;
        while max_attempts < 2
            invariant
                max_attempts <= 2,
                trick_list@ == trick_table(first_char),
                max_attempts == 0 ==> word@ == start,
                max_attempts == 1 ==> word@ == tricks_applied(trick_list@, start),
                max_attempts == 2 ==> word@ == tricks_applied(
                    trick_list@,
                    tricks_applied(trick_list@, start),
                ),
            decreases 2 - max_attempts,
        {
            word = iterate_over_tricks(&trick_list, word);
            max_attempts += 1;
        }
    }
    word
}

/// The rules for the first letter of a word.
pub fn get_trick_lists(word: String) -> (r: Vec<Trick>)
    requires
        word@.len() > 0,
    ensures
        r@ == trick_table(word@[0]),
{
    let first_char = word.as_str().get_char(0);
    match_tricks_list(first_char)
}

/// Applies a list of rules to a word, each to the result of the one before.
pub fn iterate_over_tricks(trick_list: &Vec<Trick>, word: String) -> (r: String)
    ensures
        r@ == tricks_applied(trick_list@, word@),
{
    let mut current = word;
    let mut i: usize = 0;
    assert(trick_list@.skip(0) =~= trick_list@);
    while i < trick_list.len()
        invariant
            i <= trick_list.len(),
            tricks_applied(trick_list@, word@) == tricks_applied(
                trick_list@.skip(i as int),
                current@,
            ),
        decreases trick_list.len() - i,
    {
        let trick = &trick_list[i];
        assert(trick_list@.skip(i as int).skip(1) =~= trick_list@.skip(i + 1));
        assert(trick_list@.skip(i as int)[0] == *trick);
        current =
        match trick.operation {
            Operation::FlipFlop => flip_flop(trick.flip_flop1, trick.flip_flop2, current.as_str()),
            Operation::Flip => flip(trick.flip_flip3, trick.flip_flip4, current.as_str()),
            Operation::Internal => {
                return current;
            },
            Operation::Slur => {
                return current;
            },
        };
        i += 1;
    }
    current
}

} // verus!
