//! Scanning of input lines, viewed as sequences of characters.
//!
//! A line is split into tokens at white space, as Unicode defines it. The
//! functions here find where tokens begin and end, test for a prefix, and
//! find a character; each has a mathematical counterpart over `Seq<char>`
//! that the contracts of the command grammar are written in.

use vstd::prelude::*;

verus! {

/// White space: the characters that Unicode gives the property White_Space.
pub open spec fn is_space(c: char) -> bool {
    let u = c as u32;
    ||| 0x09 <= u <= 0x0D
    ||| u == 0x20
    ||| u == 0x85
    ||| u == 0xA0
    ||| u == 0x1680
    ||| 0x2000 <= u <= 0x200A
    ||| u == 0x2028
    ||| u == 0x2029
    ||| u == 0x202F
    ||| u == 0x205F
    ||| u == 0x3000
}

/// A line that holds nothing but white space.
pub open spec fn is_blank(s: Seq<char>) -> bool {
    forall|i: int| 0 <= i < s.len() ==> is_space(#[trigger] s[i])
}

/// The first position at or after `from` that holds a character other than
/// white space, or the length of `s` where only white space follows.
pub open spec fn token_start(s: Seq<char>, from: int) -> int
    decreases s.len() - from,
{
    if 0 <= from < s.len() && is_space(s[from]) {
        token_start(s, from + 1)
    } else {
        from
    }
}

/// The first position at or after `from` that holds white space, or the
/// length of `s` where none follows.
pub open spec fn token_end(s: Seq<char>, from: int) -> int
    decreases s.len() - from,
{
    if 0 <= from < s.len() && !is_space(s[from]) {
        token_end(s, from + 1)
    } else {
        from
    }
}

/// The first position at or after `from` that holds `c`, or the length of `s`
/// where `c` does not follow.
pub open spec fn position(s: Seq<char>, c: char, from: int) -> int
    decreases s.len() - from,
{
    if 0 <= from < s.len() && s[from] != c {
        position(s, c, from + 1)
    } else {
        from
    }
}

/// The position after the last character before `upto` that is not white
/// space, or zero where only white space comes before.
pub open spec fn trim_end(s: Seq<char>, upto: int) -> int
    decreases upto,
{
    if 0 < upto <= s.len() && is_space(s[upto - 1]) {
        trim_end(s, upto - 1)
    } else {
        upto
    }
}

/// `s` without the white space at its two ends.
pub open spec fn trimmed(s: Seq<char>) -> Seq<char> {
    let start = token_start(s, 0);
    if start >= s.len() {
        Seq::empty()
    } else {
        s.subrange(start, trim_end(s, s.len() as int))
    }
}

/// Where the second token of `s` begins: past leading white space, the first
/// token, and the white space after it. The length of `s` where there is no
/// second token.
pub open spec fn second_token_start(s: Seq<char>) -> int {
    token_start(s, token_end(s, token_start(s, 0)))
}

/// The second of the tokens that white space separates in `s`, if there are
/// two.
pub open spec fn second_token(s: Seq<char>) -> Option<Seq<char>> {
    let a = second_token_start(s);
    if a < s.len() {
        Some(s.subrange(a, token_end(s, a)))
    } else {
        None
    }
}

/// `s` without the first occurrence of `c`; `s` itself where `c` does not
/// occur.
pub open spec fn without_first(s: Seq<char>, c: char) -> Seq<char> {
    let i = position(s, c, 0);
    if i < s.len() {
        s.remove(i)
    } else {
        s
    }
}

/// What `token_start` finds: everything skipped is white space, and what it
/// stops at is not.
pub proof fn lemma_token_start(s: Seq<char>, from: int)
    requires
        0 <= from <= s.len(),
    ensures
        from <= token_start(s, from) <= s.len(),
        forall|j: int| from <= j < token_start(s, from) ==> is_space(#[trigger] s[j]),
        token_start(s, from) < s.len() ==> !is_space(s[token_start(s, from)]),
    decreases s.len() - from,
{
    if from < s.len() && is_space(s[from]) {
        lemma_token_start(s, from + 1);
    }
}

/// What `token_end` finds: nothing skipped is white space, and what it stops
/// at is.
pub proof fn lemma_token_end(s: Seq<char>, from: int)
    requires
        0 <= from <= s.len(),
    ensures
        from <= token_end(s, from) <= s.len(),
        forall|j: int| from <= j < token_end(s, from) ==> !is_space(#[trigger] s[j]),
        token_end(s, from) < s.len() ==> is_space(s[token_end(s, from)]),
    decreases s.len() - from,
{
    if from < s.len() && !is_space(s[from]) {
        lemma_token_end(s, from + 1);
    }
}

/// What `trim_end` finds: everything cut off is white space, and what is
/// left does not end in any.
pub proof fn lemma_trim_end(s: Seq<char>, upto: int)
    requires
        0 <= upto <= s.len(),
    ensures
        0 <= trim_end(s, upto) <= upto,
        forall|j: int| trim_end(s, upto) <= j < upto ==> is_space(#[trigger] s[j]),
        trim_end(s, upto) > 0 ==> !is_space(s[trim_end(s, upto) - 1]),
    decreases upto,
{
    if 0 < upto && is_space(s[upto - 1]) {
        lemma_trim_end(s, upto - 1);
    }
}

/// A trimmed line neither begins nor ends with white space, and the line it
/// was cut from is that text between two runs of white space. It is empty
/// exactly where the line was blank.
pub proof fn lemma_trimmed(s: Seq<char>)
    ensures
        trimmed(s).len() == 0 <==> is_blank(s),
        trimmed(s).len() > 0 ==> !is_space(trimmed(s).first()) && !is_space(trimmed(s).last()),
        exists|a: int, b: int|
            0 <= a <= b <= s.len() && #[trigger] s.subrange(a, b) == trimmed(s) && is_blank(
                s.subrange(0, a),
            ) && is_blank(s.subrange(b, s.len() as int)),
{
    let a = token_start(s, 0);
    lemma_token_start(s, 0);
    let e = trim_end(s, s.len() as int);
    lemma_trim_end(s, s.len() as int);
    if a >= s.len() {
        assert(is_blank(s));
        assert(s.subrange(0, 0) =~= trimmed(s));
        assert(is_blank(s.subrange(0, 0)));
        assert(s.subrange(0, s.len() as int) =~= s);
    } else {
        assert(!is_space(s[a]));
        assert(e > a) by {
            if e <= a {
                assert(is_space(s[a]));
            }
        }
        assert(trimmed(s).first() == s[a]);
        assert(trimmed(s).last() == s[e - 1]);
        assert(is_blank(s.subrange(0, a)));
        assert(is_blank(s.subrange(e, s.len() as int)));
        assert(s.subrange(a, e) == trimmed(s));
    }
}

/// What `position` finds: the first occurrence and no other.
pub proof fn lemma_position(s: Seq<char>, c: char, from: int)
    requires
        0 <= from <= s.len(),
    ensures
        from <= position(s, c, from) <= s.len(),
        forall|j: int| from <= j < position(s, c, from) ==> #[trigger] s[j] != c,
        position(s, c, from) < s.len() ==> s[position(s, c, from)] == c,
    decreases s.len() - from,
{
    if from < s.len() && s[from] != c {
        lemma_position(s, c, from + 1);
    }
}

/// A token, where there is a second one, is not empty, holds no white space,
/// and is bounded by white space or by the end of the line.
pub proof fn lemma_second_token(s: Seq<char>)
    ensures
        match second_token(s) {
            Some(t) => {
                let a = second_token_start(s);
                &&& 0 < a < s.len()
                &&& 0 < t.len() <= s.len() - a
                &&& t == s.subrange(a, a + t.len())
                &&& forall|j: int| 0 <= j < t.len() ==> !is_space(#[trigger] t[j])
                &&& is_space(s[a - 1])
                &&& a + t.len() < s.len() ==> is_space(s[a + t.len()])
            },
            None => second_token_start(s) == s.len(),
        },
{
    let a0 = token_start(s, 0);
    lemma_token_start(s, 0);
    let b0 = token_end(s, a0);
    lemma_token_end(s, a0);
    let a1 = token_start(s, b0);
    lemma_token_start(s, b0);
    if a1 < s.len() {
        lemma_token_end(s, a1);
        let b1 = token_end(s, a1);
        // the second token begins after a first, non-empty one
        assert(a0 < s.len());
        assert(b0 > a0);
        assert(a1 > b0) by {
            if a1 == b0 {
                assert(is_space(s[b0]));
            }
        }
        assert(is_space(s[a1 - 1]));
        assert(b1 > a1);
    }
}

/// Taken on trust of `String::push`, which this library does not verify: it
/// appends the character to the end of the string.
pub assume_specification[ String::push ](s: &mut String, ch: char)
    ensures
        final(s)@ == old(s)@.push(ch),
;

/// Taken on trust of `String::pop`, which this library does not verify: it
/// removes the last character of the string and returns it; where the string
/// holds no character it returns `None` and leaves the string as it is.
pub assume_specification[ String::pop ](s: &mut String) -> (last: Option<char>)
    ensures
        old(s)@.len() == 0 ==> last is None && final(s)@ == old(s)@,
        old(s)@.len() > 0 ==> last == Some(old(s)@.last()) && final(s)@ == old(s)@.drop_last(),
;

/// Tells white space from other characters.
pub fn is_space_char(c: char) -> (b: bool)
    ensures
        b == is_space(c),
{
    let u: u32 = c as u32;
    (0x09 <= u && u <= 0x0D) || u == 0x20 || u == 0x85 || u == 0xA0 || u == 0x1680 || (0x2000 <= u
        && u <= 0x200A) || u == 0x2028 || u == 0x2029 || u == 0x202F || u == 0x205F || u == 0x3000
}

/// The characters of a string, in order.
pub fn chars_of(s: &str) -> (v: Vec<char>)
    ensures
        v@ == s@,
{
    let mut v: Vec<char> = Vec::new();
    for c in it: s.chars()
        invariant
            v@ == it.seq().take(it.index() as int),
            it.seq() == s@,
    {
        v.push(c);
    }
    v
}

/// Whether a line holds nothing but white space.
pub fn blank(line: &[char]) -> (b: bool)
    ensures
        b == is_blank(line@),
{
    let mut i: usize = 0;
    while i < line.len()
        invariant
            i <= line@.len(),
            forall|j: int| 0 <= j < i ==> is_space(#[trigger] line@[j]),
        decreases line@.len() - i,
    {
        if !is_space_char(line[i]) {
            return false;
        }
        i += 1;
    }
    true
}

/// Skips white space from `from` on.
pub fn skip_spaces(line: &[char], from: usize) -> (at: usize)
    ensures
        at == token_start(line@, from as int),
        from <= at,
        from <= line@.len() ==> at <= line@.len(),
{
    let mut i: usize = from;
    while i < line.len() && is_space_char(line[i])
        invariant
            from <= i,
            from <= line@.len() ==> i <= line@.len(),
            token_start(line@, i as int) == token_start(line@, from as int),
        decreases line@.len() - i,
    {
        i += 1;
    }
    i
}

/// Skips one token from `from` on.
pub fn skip_token(line: &[char], from: usize) -> (at: usize)
    ensures
        at == token_end(line@, from as int),
        from <= at,
        from <= line@.len() ==> at <= line@.len(),
{
    let mut i: usize = from;
    while i < line.len() && !is_space_char(line[i])
        invariant
            from <= i,
            from <= line@.len() ==> i <= line@.len(),
            token_end(line@, i as int) == token_end(line@, from as int),
        decreases line@.len() - i,
    {
        i += 1;
    }
    i
}

/// Cuts the white space off the end of the first `upto` characters.
pub fn cut_end(line: &[char], upto: usize) -> (at: usize)
    ensures
        at == trim_end(line@, upto as int),
        at <= upto,
{
    let mut i: usize = upto;
    while 0 < i && i <= line.len() && is_space_char(line[i - 1])
        invariant
            i <= upto,
            trim_end(line@, i as int) == trim_end(line@, upto as int),
        decreases i,
    {
        i -= 1;
    }
    i
}

/// Finds the first `c` in a line.
pub fn find(line: &[char], c: char) -> (at: usize)
    ensures
        at == position(line@, c, 0),
        at <= line@.len(),
{
    let mut i: usize = 0;
    while i < line.len() && line[i] != c
        invariant
            i <= line@.len(),
            position(line@, c, i as int) == position(line@, c, 0),
        decreases line@.len() - i,
    {
        i += 1;
    }
    i
}

/// Whether a line begins with `prefix`.
pub fn begins_with(line: &[char], prefix: &[char]) -> (b: bool)
    ensures
        b == prefix@.is_prefix_of(line@),
{
    if prefix.len() > line.len() {
        return false;
    }
    let mut i: usize = 0;
    while i < prefix.len()
        invariant
            i <= prefix@.len() <= line@.len(),
            forall|j: int| 0 <= j < i ==> prefix@[j] == line@[j],
        decreases prefix@.len() - i,
    {
        if prefix[i] != line[i] {
            assert(prefix@[i as int] != line@.subrange(0, prefix@.len() as int)[i as int]);
            return false;
        }
        i += 1;
    }
    assert(prefix@ =~= line@.subrange(0, prefix@.len() as int));
    true
}

/// Whether a line is exactly `text`.
pub fn same(line: &[char], text: &[char]) -> (b: bool)
    ensures
        b == (line@ == text@),
{
    if line.len() != text.len() {
        return false;
    }
    let b = begins_with(line, text);
    proof {
        if b {
            assert(line@ =~= line@.subrange(0, text@.len() as int));
        }
    }
    b
}

} // verus!
