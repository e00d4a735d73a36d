use vstd::prelude::*;
use vstd::string::*;

verus! {

/// The character sequences held by a list of owned strings.
pub open spec fn texts(v: Seq<String>) -> Seq<Seq<char>> {
    Seq::new(v.len(), |i: int| v[i]@)
}

/// The character sequences held by a list of string slices.
pub open spec fn slice_texts(v: Seq<&str>) -> Seq<Seq<char>> {
    Seq::new(v.len(), |i: int| v[i]@)
}

/// Whether `word` begins with `prefix`.
pub open spec fn is_prefix(prefix: Seq<char>, word: Seq<char>) -> bool {
    prefix.len() <= word.len() && word.subrange(0, prefix.len() as int) == prefix
}

/// Whether `word` ends with `suffix`.
pub open spec fn is_suffix(suffix: Seq<char>, word: Seq<char>) -> bool {
    suffix.len() <= word.len() && word.subrange(word.len() - suffix.len(), word.len() as int)
        == suffix
}

/// Whether a character separates words: the characters that Unicode lists
/// as white space.
pub open spec fn is_space(c: char) -> bool {
    c == ' ' || ('\u{9}' <= c && c <= '\u{d}') || c == '\u{85}' || c == '\u{a0}' || c == '\u{1680}'
        || ('\u{2000}' <= c && c <= '\u{200a}') || c == '\u{2028}' || c == '\u{2029}' || c
        == '\u{202f}' || c == '\u{205f}' || c == '\u{3000}'
}

/// The number of leading white-space characters of `s`.
pub open spec fn leading_spaces(s: Seq<char>) -> int
    decreases s.len(),
{
    if s.len() > 0 && is_space(s[0]) {
        1 + leading_spaces(s.skip(1))
    } else {
        0
    }
}

/// The number of trailing white-space characters of `s`.
pub open spec fn trailing_spaces(s: Seq<char>) -> int
    decreases s.len(),
{
    if s.len() > 0 && is_space(s.last()) {
        1 + trailing_spaces(s.drop_last())
    } else {
        0
    }
}

/// `s` without its leading and trailing white space.
pub open spec fn trimmed(s: Seq<char>) -> Seq<char> {
    let a = leading_spaces(s);
    let rest = s.skip(a);
    rest.take(rest.len() - trailing_spaces(rest))
}

/// The length of the word that `s` begins with: its characters up to the
/// first white space.
pub open spec fn word_len(s: Seq<char>) -> int
    decreases s.len(),
{
    if s.len() > 0 && !is_space(s[0]) {
        1 + word_len(s.skip(1))
    } else {
        0
    }
}

/// The words of `s`: its maximal runs of characters that are not white
/// space, in order.
pub open spec fn words(s: Seq<char>) -> Seq<Seq<char>>
    decreases s.len(),
{
    if s.len() == 0 {
        Seq::empty()
    } else if is_space(s[0]) {
        words(s.skip(1))
    } else {
        let n = word_len(s);
        if 0 < n <= s.len() {
            seq![s.take(n)] + words(s.skip(n))
        } else {
            Seq::empty()
        }
    }
}

/// Tests whether a character is white space.
pub fn is_space_char(c: char) -> (r: bool)
    ensures
        r == is_space(c),
{
    c == ' ' || ('\u{9}' <= c && c <= '\u{d}') || c == '\u{85}' || c == '\u{a0}' || c == '\u{1680}'
        || ('\u{2000}' <= c && c <= '\u{200a}') || c == '\u{2028}' || c == '\u{2029}' || c
        == '\u{202f}' || c == '\u{205f}' || c == '\u{3000}'
}

/// Whether two string slices hold the same characters.
pub fn same_text(a: &str, b: &str) -> (r: bool)
    ensures
        r == (a@ == b@),
{
    let x = String::from_str(a);
    let y = String::from_str(b);
    x == y
}

/// The characters of a string slice.
pub fn chars_of(s: &str) -> (r: Vec<char>)
    ensures
        r@ == s@,
{
    let n = s.unicode_len();
    let mut v: Vec<char> = Vec::new();
    let mut i: usize = 0;
    while i < n
        invariant
            n == s@.len(),
            i <= n,
            v@ == s@.subrange(0, i as int),
        decreases n - i,
    {
        v.push(s.get_char(i));
        assert(v@ =~= s@.subrange(0, i + 1));
        i += 1;
    }
    assert(s@.subrange(0, n as int) =~= s@);
    v
}

/// Tests whether `word` begins with `prefix`.
pub fn starts_with(word: &str, prefix: &str) -> (r: bool)
    ensures
        r == is_prefix(prefix@, word@),
{
    let n = prefix.unicode_len();
    let m = word.unicode_len();
    n <= m && same_text(word.substring_char(0, n), prefix)
}

/// Tests whether `word` ends with `suffix`.
pub fn ends_with(word: &str, suffix: &str) -> (r: bool)
    ensures
        r == is_suffix(suffix@, word@),
{
    let n = suffix.unicode_len();
    let m = word.unicode_len();
    n <= m && same_text(word.substring_char(m - n, m), suffix)
}

/// Removes the white space at both ends of a string slice.
pub fn trim_text(s: &str) -> (r: String)
    ensures
        r@ == trimmed(s@),
{
    let chars = chars_of(s);
    let n = chars.len();
    let mut a: usize = 0;
    assert(chars@.skip(0) =~= chars@);
    while a < n && is_space_char(chars[a])
        invariant
            n == chars@.len(),
            a <= n,
            leading_spaces(chars@) == a + leading_spaces(chars@.skip(a as int)),
        decreases n - a,
    {
        assert(chars@.skip(a as int).skip(1) =~= chars@.skip(a + 1));
        a += 1;
    }
    assert(leading_spaces(chars@) == a);
    let ghost rest = chars@.skip(a as int);
    let mut b: usize = n;
    assert(rest.take(n - a) =~= rest);
    while b > a && is_space_char(chars[b - 1])
        invariant
            n == chars@.len(),
            a <= b <= n,
            rest == chars@.skip(a as int),
            trailing_spaces(rest) == (n - b) + trailing_spaces(rest.take(b - a)),
        decreases b,
    {
        assert(rest.take(b - a).drop_last() =~= rest.take(b - a - 1));
        b -= 1;
    }
    proof {
        assert(rest.take(n - a) =~= rest);
        assert(trailing_spaces(rest) == n - b);
        assert(s@.subrange(a as int, b as int) =~= rest.take(rest.len() - trailing_spaces(rest)));
    }
    String::from_str(s.substring_char(a, b))
}

/// Splits a string slice into its words.
pub fn split_words(s: &str) -> (r: Vec<String>)
    ensures
        texts(r@) == words(s@),
{
    let chars = chars_of(s);
    let n = chars.len();
    let mut out: Vec<String> = Vec::new();
    let mut i: usize = 0;
    assert(s@.skip(0) =~= s@);
    assert(texts(out@) + words(s@) =~= words(s@));
    while i < n
        invariant
            n == chars@.len(),
            chars@ == s@,
            i <= n,
            words(s@) == texts(out@) + words(s@.skip(i as int)),
        decreases n - i,
    {
        if is_space_char(chars[i]) {
            assert(s@.skip(i as int).skip(1) =~= s@.skip(i + 1));
            i += 1;
        } else {
            let start = i;
            let ghost tail = s@.skip(start as int);
            let mut j: usize = i;
            while j < n && !is_space_char(chars[j])
                invariant
                    n == chars@.len(),
                    chars@ == s@,
                    start <= j <= n,
                    tail == s@.skip(start as int),
                    word_len(tail) == (j - start) + word_len(s@.skip(j as int)),
                decreases n - j,
            {
                assert(s@.skip(j as int).skip(1) =~= s@.skip(j + 1));
                j += 1;
            }
            let ghost before = texts(out@);
            out.push(String::from_str(s.substring_char(start, j)));
            proof {
                assert(word_len(tail) == j - start);
                assert(tail.take(j - start) =~= s@.subrange(start as int, j as int));
                assert(tail.skip(j - start) =~= s@.skip(j as int));
                assert(texts(out@) =~= before + seq![tail.take(j - start)]);
                assert(words(tail) == seq![tail.take(j - start)] + words(s@.skip(j as int)));
                assert(before + (seq![tail.take(j - start)] + words(s@.skip(j as int))) =~= (before
                    + seq![tail.take(j - start)]) + words(s@.skip(j as int)));
            }
            i = j;
        }
    }
    assert(texts(out@) + Seq::<Seq<char>>::empty() =~= texts(out@));
    out
}

/// The number of characters of `s` before the first `separator`, or the
/// length of `s` where it holds none.
pub open spec fn piece_len(s: Seq<char>, separator: char) -> int
    decreases s.len(),
{
    if s.len() > 0 && s[0] != separator {
        1 + piece_len(s.skip(1), separator)
    } else {
        0
    }
}

/// The pieces into which the separators cut `s`, in order. There is one
/// piece more than there are separators, and a piece may be empty.
pub open spec fn pieces(s: Seq<char>, separator: char) -> Seq<Seq<char>>
    decreases s.len(),
{
    let n = piece_len(s, separator);
    if 0 <= n < s.len() {
        seq![s.take(n)] + pieces(s.skip(n + 1), separator)
    } else {
        seq![s]
    }
}

/// Cuts a string slice at each separator.
pub fn split_on(s: &str, separator: char) -> (r: Vec<String>)
    ensures
        texts(r@) == pieces(s@, separator),
{
    let chars = chars_of(s);
    let n = chars.len();
    let mut out: Vec<String> = Vec::new();
    let mut start: usize = 0;
    let mut i: usize = 0;
    assert(s@.skip(0) =~= s@);
    assert(texts(out@) + pieces(s@, separator) =~= pieces(s@, separator));
    while i < n
        invariant
            n == chars@.len(),
            chars@ == s@,
            start <= i <= n,
            pieces(s@, separator) == texts(out@) + pieces(s@.skip(start as int), separator),
            piece_len(s@.skip(start as int), separator) == (i - start) + piece_len(
                s@.skip(i as int),
                separator,
            ),
        decreases n - i,
    {
        assert(s@.skip(i as int).skip(1) =~= s@.skip(i + 1));
        if chars[i] == separator {
            let ghost tail = s@.skip(start as int);
            let ghost before = texts(out@);
            out.push(String::from_str(s.substring_char(start, i)));
            proof {
                assert(piece_len(tail, separator) == i - start);
                assert(tail.take(i - start) =~= s@.subrange(start as int, i as int));
                assert(tail.skip(i - start + 1) =~= s@.skip(i + 1));
                assert(texts(out@) =~= before + seq![tail.take(i - start)]);
                assert(before + (seq![tail.take(i - start)] + pieces(s@.skip(i + 1), separator))
                    =~= (before + seq![tail.take(i - start)]) + pieces(
                    s@.skip(i + 1),
                    separator,
                ));
            }
            start = i + 1;
        }
        i += 1;
    }
    let ghost tail = s@.skip(start as int);
    let ghost before = texts(out@);
    out.push(String::from_str(s.substring_char(start, n)));
    proof {
        assert(piece_len(tail, separator) == n - start);
        assert(tail =~= s@.subrange(start as int, n as int));
        assert(pieces(tail, separator) == seq![tail]);
        assert(texts(out@) =~= before + seq![tail]);
    }
    out
}

} // verus!
