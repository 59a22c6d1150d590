//! Splitting text into words and lines, and trimming it.

use crate::text::{chars_of, matches_at, string_of};
use vstd::prelude::*;

verus! {

/// The five ASCII whitespace characters: space, tab, line feed, form feed and
/// carriage return.
pub open spec fn is_ascii_space(c: char) -> bool {
    c == ' ' || c == '\t' || c == '\n' || c == '\x0C' || c == '\r'
}

/// Whether `c` is ASCII whitespace.
pub fn ascii_space(c: char) -> (r: bool)
    ensures
        r == is_ascii_space(c),
{
    c == ' ' || c == '\t' || c == '\n' || c == '\x0C' || c == '\r'
}

/// How many characters from index `from` on stand before the next ASCII
/// whitespace or the end.
pub open spec fn run_len(s: Seq<char>, from: int) -> nat
    decreases s.len() - from,
{
    if from < 0 || from >= s.len() || is_ascii_space(s[from]) {
        0
    } else {
        1 + run_len(s, from + 1)
    }
}

/// The maximal runs of characters other than ASCII whitespace in `s`, from
/// index `from` on, in order.
pub open spec fn words_from(s: Seq<char>, from: int) -> Seq<Seq<char>>
    decreases s.len() - from,
    via words_from_ends
{
    if from < 0 || from >= s.len() {
        Seq::empty()
    } else if is_ascii_space(s[from]) {
        words_from(s, from + 1)
    } else {
        let to = from + 1 + run_len(s, from + 1);
        seq![s.subrange(from, to)] + words_from(s, to)
    }
}

#[via_fn]
proof fn words_from_ends(s: Seq<char>, from: int) {
    if 0 <= from < s.len() && !is_ascii_space(s[from]) {
        lemma_run_len(s, from + 1);
    }
}

/// The words of `s`: its maximal runs of characters other than ASCII
/// whitespace, in order.
pub open spec fn words(s: Seq<char>) -> Seq<Seq<char>> {
    words_from(s, 0)
}

/// A run of `run_len` characters holds no whitespace and ends at whitespace or
/// at the end of the text.
pub proof fn lemma_run_len(s: Seq<char>, from: int)
    requires
        0 <= from <= s.len(),
    ensures
        from + run_len(s, from) <= s.len(),
        forall|k: int| from <= k < from + run_len(s, from) ==> !is_ascii_space(#[trigger] s[k]),
        from + run_len(s, from) < s.len() ==> is_ascii_space(s[from + run_len(s, from)]),
    decreases s.len() - from,
{
    if from < s.len() && !is_ascii_space(s[from]) {
        lemma_run_len(s, from + 1);
    }
}

/// A word: a non-empty text free of ASCII whitespace.
pub open spec fn is_word(w: Seq<char>) -> bool {
    w.len() > 0 && forall|k: int| 0 <= k < w.len() ==> !is_ascii_space(#[trigger] w[k])
}

/// Every element of `words_from` is a word.
pub proof fn lemma_words_shape(s: Seq<char>, from: int)
    requires
        0 <= from <= s.len(),
    ensures
        forall|i: int|
            0 <= i < words_from(s, from).len() ==> is_word(#[trigger] words_from(s, from)[i]),
    decreases s.len() - from,
{
    if from < s.len() {
        if is_ascii_space(s[from]) {
            lemma_words_shape(s, from + 1);
            assert(words_from(s, from) == words_from(s, from + 1));
        } else {
            let to = from + 1 + run_len(s, from + 1);
            lemma_run_len(s, from + 1);
            lemma_words_shape(s, to);
            let first = s.subrange(from, to);
            let rest = words_from(s, to);
            assert(words_from(s, from) == seq![first] + rest);
            assert(is_word(first)) by {
                assert forall|k: int| 0 <= k < first.len() implies !is_ascii_space(
                    #[trigger] first[k],
                ) by {
                    assert(first[k] == s[from + k]);
                }
            }
            assert forall|i: int| 0 <= i < words_from(s, from).len() implies is_word(
                #[trigger] words_from(s, from)[i],
            ) by {
                if i == 0 {
                    assert(words_from(s, from)[0] == first);
                } else {
                    assert(words_from(s, from)[i] == rest[i - 1]);
                }
            }
        }
    } else {
        assert(words_from(s, from).len() == 0);
    }
}

/// Splits `text` at ASCII whitespace into its words.
pub fn split_words(text: &str) -> (out: Vec<String>)
    ensures
        out.deep_view() == words(text@),
        forall|i: int| 0 <= i < out.len() ==> is_word(#[trigger] out.deep_view()[i]),
{
    let chars = chars_of(text);
    let mut out: Vec<String> = Vec::new();
    let mut i: usize = 0;
    assert(out.deep_view() =~= Seq::<Seq<char>>::empty());
    while i < chars.len()
        invariant
            i <= chars.len(),
            out.deep_view() + words_from(chars@, i as int) == words(chars@),
        decreases chars.len() - i,
    {
        if ascii_space(chars[i]) {
            i += 1;
        } else {
            let start: usize = i;
            i += 1;
            while i < chars.len() && !ascii_space(chars[i])
                invariant
                    start < i <= chars.len(),
                    run_len(chars@, start + 1) == (i - start - 1) + run_len(chars@, i as int),
                decreases chars.len() - i,
            {
                i += 1;
            }
            let word = string_of(&chars, start, i);
            let ghost before = out.deep_view();
            out.push(word);
            proof {
                assert(run_len(chars@, i as int) == 0);
                assert(words_from(chars@, start as int) == seq![chars@.subrange(start as int, i as int)]
                    + words_from(chars@, i as int));
                assert(out.deep_view() =~= before.push(chars@.subrange(start as int, i as int)));
                assert(before.push(chars@.subrange(start as int, i as int)) + words_from(
                    chars@,
                    i as int,
                ) =~= before + (seq![chars@.subrange(start as int, i as int)] + words_from(
                    chars@,
                    i as int,
                )));
            }
        }
    }
    assert(out.deep_view() + Seq::<Seq<char>>::empty() =~= out.deep_view());
    proof {
        lemma_words_shape(chars@, 0);
    }
    out
}

/// `s` with every occurrence of `c` taken out.
pub open spec fn without(s: Seq<char>, c: char) -> Seq<char>
    decreases s.len(),
{
    if s.len() == 0 {
        s
    } else if s.last() == c {
        without(s.drop_last(), c)
    } else {
        without(s.drop_last(), c).push(s.last())
    }
}

/// The characters of `chars` other than `c`, in order.
pub fn remove_char(chars: &Vec<char>, c: char) -> (out: Vec<char>)
    ensures
        out@ == without(chars@, c),
{
    let mut out: Vec<char> = Vec::new();
    let mut i: usize = 0;
    while i < chars.len()
        invariant
            i <= chars.len(),
            out@ == without(chars@.take(i as int), c),
        decreases chars.len() - i,
    {
        assert(chars@.take(i + 1).drop_last() == chars@.take(i as int));
        if chars[i] != c {
            out.push(chars[i]);
        }
        i += 1;
    }
    assert(chars@.take(chars.len() as int) == chars@);
    out
}

/// `s` with every `from` turned into `to`.
pub open spec fn swapped(s: Seq<char>, from: char, to: char) -> Seq<char> {
    Seq::new(s.len(), |i: int| if s[i] == from { to } else { s[i] })
}

/// Turns every `from` in `chars` into `to`.
pub fn swap_char(chars: &Vec<char>, from: char, to: char) -> (out: Vec<char>)
    ensures
        out@ == swapped(chars@, from, to),
{
    let mut out: Vec<char> = Vec::new();
    let mut i: usize = 0;
    while i < chars.len()
        invariant
            i <= chars.len(),
            out@ == swapped(chars@, from, to).take(i as int),
        decreases chars.len() - i,
    {
        let c = chars[i];
        out.push(if c == from { to } else { c });
        i += 1;
        assert(swapped(chars@, from, to).take(i as int) == swapped(chars@, from, to).take(
            i - 1,
        ).push(swapped(chars@, from, to)[i - 1]));
    }
    assert(swapped(chars@, from, to).take(chars.len() as int) == swapped(chars@, from, to));
    out
}

/// How many characters from index `from` on stand before the next line feed
/// or the end.
pub open spec fn line_len(s: Seq<char>, from: int) -> nat
    decreases s.len() - from,
{
    if from < 0 || from >= s.len() || s[from] == '\n' {
        0
    } else {
        1 + line_len(s, from + 1)
    }
}

/// `line` without a carriage return at its end.
pub open spec fn without_cr(line: Seq<char>) -> Seq<char> {
    if line.len() > 0 && line.last() == '\r' {
        line.drop_last()
    } else {
        line
    }
}

/// The lines of `s` from index `from` on. A line ends at a line feed, which is
/// not part of it, nor is a carriage return just before that line feed. What
/// follows the last line feed is a line unless it is empty.
pub open spec fn lines_from(s: Seq<char>, from: int) -> Seq<Seq<char>>
    decreases s.len() - from,
{
    if from < 0 || from >= s.len() {
        Seq::empty()
    } else {
        let end = from + line_len(s, from);
        if end < s.len() {
            seq![without_cr(s.subrange(from, end))] + lines_from(s, end + 1)
        } else {
            seq![s.subrange(from, end)]
        }
    }
}

/// The lines of `s`.
pub open spec fn lines(s: Seq<char>) -> Seq<Seq<char>> {
    lines_from(s, 0)
}

/// Splits `text` into its lines.
pub fn split_lines(text: &str) -> (out: Vec<String>)
    ensures
        out.deep_view() == lines(text@),
{
    let chars = chars_of(text);
    let mut out: Vec<String> = Vec::new();
    let mut i: usize = 0;
    assert(out.deep_view() =~= Seq::<Seq<char>>::empty());
    while i < chars.len()
        invariant
            i <= chars.len(),
            out.deep_view() + lines_from(chars@, i as int) == lines(chars@),
        decreases chars.len() - i,
    {
        let start: usize = i;
        while i < chars.len() && chars[i] != '\n'
            invariant
                start <= i <= chars.len(),
                line_len(chars@, start as int) == (i - start) + line_len(chars@, i as int),
            decreases chars.len() - i,
        {
            i += 1;
        }
        let ghost before = out.deep_view();
        let ghost end = i as int;
        assert(line_len(chars@, i as int) == 0);
        if i < chars.len() {
            let stop: usize = if i > start && chars[i - 1] == '\r' {
                (i - 1) as usize
            } else {
                i
            };
            let line = string_of(&chars, start, stop);
            assert(line@ == without_cr(chars@.subrange(start as int, end)));
            out.push(line);
            i += 1;
            proof {
                let l = without_cr(chars@.subrange(start as int, end));
                assert(out.deep_view() =~= before.push(l));
                assert(before.push(l) + lines_from(chars@, i as int) =~= before + (seq![l]
                    + lines_from(chars@, i as int)));
            }
        } else {
            let line = string_of(&chars, start, i);
            out.push(line);
            proof {
                let l = chars@.subrange(start as int, end);
                assert(out.deep_view() =~= before.push(l));
                assert(before.push(l) + lines_from(chars@, i as int) =~= before + seq![l]);
            }
        }
    }
    assert(out.deep_view() + Seq::<Seq<char>>::empty() =~= out.deep_view());
    out
}

/// The characters with the Unicode property `White_Space`.
pub open spec fn is_white_space(c: char) -> bool {
    let n = c as u32;
    (0x09 <= n <= 0x0D) || n == 0x20 || n == 0x85 || n == 0xA0 || n == 0x1680 || (0x2000 <= n
        <= 0x200A) || n == 0x2028 || n == 0x2029 || n == 0x202F || n == 0x205F || n == 0x3000
}

/// Whether `c` has the Unicode property `White_Space`.
pub fn white_space(c: char) -> (r: bool)
    ensures
        r == is_white_space(c),
{
    let n: u32 = c as u32;
    (0x09 <= n && n <= 0x0D) || n == 0x20 || n == 0x85 || n == 0xA0 || n == 0x1680 || (0x2000 <= n
        && n <= 0x200A) || n == 0x2028 || n == 0x2029 || n == 0x202F || n == 0x205F || n
        == 0x3000
}

/// How many white-space characters stand in a row from index `from` on.
pub open spec fn lead(s: Seq<char>, from: int) -> nat
    decreases s.len() - from,
{
    if from < 0 || from >= s.len() || !is_white_space(s[from]) {
        0
    } else {
        1 + lead(s, from + 1)
    }
}

/// How many white-space characters stand in a row just before index `upto`.
pub open spec fn trail(s: Seq<char>, upto: int) -> nat
    decreases upto,
{
    if upto <= 0 || upto > s.len() || !is_white_space(s[upto - 1]) {
        0
    } else {
        1 + trail(s, upto - 1)
    }
}

/// `s` without the white space at its two ends.
pub open spec fn trimmed(s: Seq<char>) -> Seq<char> {
    let start = lead(s, 0) as int;
    if start >= s.len() {
        Seq::empty()
    } else {
        s.subrange(start, s.len() - trail(s, s.len() as int))
    }
}

/// `chars` without the white space at its two ends.
pub fn trim(chars: &Vec<char>) -> (out: Vec<char>)
    ensures
        out@ == trimmed(chars@),
{
    let mut start: usize = 0;
    while start < chars.len() && white_space(chars[start])
        invariant
            start <= chars.len(),
            lead(chars@, 0) == start + lead(chars@, start as int),
        decreases chars.len() - start,
    {
        start += 1;
    }
    let mut out: Vec<char> = Vec::new();
    if start >= chars.len() {
        return out;
    }
    let mut end: usize = chars.len();
    while end > start + 1 && white_space(chars[end - 1])
        invariant
            start < end <= chars.len(),
            !is_white_space(chars@[start as int]),
            trail(chars@, chars.len() as int) == (chars.len() - end) + trail(chars@, end as int),
        decreases end,
    {
        end -= 1;
    }
    let mut i: usize = start;
    while i < end
        invariant
            start <= i <= end <= chars.len(),
            out@ == chars@.subrange(start as int, i as int),
        decreases end - i,
    {
        out.push(chars[i]);
        i += 1;
        assert(chars@.subrange(start as int, i as int) == chars@.subrange(start as int, i - 1).push(
            chars@[i - 1],
        ));
    }
    out
}

/// What follows `prefix` in `s`, where `s` begins with it.
pub open spec fn after_prefix(s: Seq<char>, prefix: Seq<char>) -> Option<Seq<char>> {
    if prefix.is_prefix_of(s) {
        Some(s.skip(prefix.len() as int))
    } else {
        None
    }
}

/// What follows `prefix` in `chars`, where `chars` begins with it.
pub fn strip_prefix(chars: &Vec<char>, prefix: &Vec<char>) -> (out: Option<Vec<char>>)
    ensures
        out is Some <==> after_prefix(chars@, prefix@) is Some,
        out matches Some(rest) ==> after_prefix(chars@, prefix@) == Some(rest@),
{
    if !matches_at(chars, prefix, 0) {
        proof {
            if prefix@.is_prefix_of(chars@) {
                assert(chars@.subrange(0, prefix@.len() as int) == prefix@);
            }
        }
        return None;
    }
    assert(chars@.subrange(0, prefix@.len() as int) == prefix@);
    let mut out: Vec<char> = Vec::new();
    let mut i: usize = prefix.len();
    while i < chars.len()
        invariant
            prefix.len() <= i <= chars.len(),
            out@ == chars@.subrange(prefix.len() as int, i as int),
        decreases chars.len() - i,
    {
        out.push(chars[i]);
        i += 1;
        assert(chars@.subrange(prefix.len() as int, i as int) == chars@.subrange(
            prefix.len() as int,
            i - 1,
        ).push(chars@[i - 1]));
    }
    assert(chars@.subrange(prefix.len() as int, chars.len() as int) == chars@.skip(
        prefix.len() as int,
    ));
    Some(out)
}

} // verus!
