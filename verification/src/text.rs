//! Character-level text primitives shared by the parsers and the renderers.
//!
//! Text is modelled as `Seq<char>`, the view of `str` and `String`.

use vstd::prelude::*;

verus! {

/// `String::push` appends exactly one character at the end of the string.
pub assume_specification[ String::push ](s: &mut String, c: char)
    ensures
        final(s)@ == old(s)@.push(c),
;

/// The predicate "is the character `c`".
pub open spec fn is_char(c: char) -> spec_fn(char) -> bool {
    |x: char| x == c
}

/// The predicate "is any character but `c`".
pub open spec fn not_char(c: char) -> spec_fn(char) -> bool {
    |x: char| x != c
}

/// Length of the longest prefix of `s` whose characters all satisfy `p`.
pub open spec fn run_len(s: Seq<char>, p: spec_fn(char) -> bool) -> nat
    decreases s.len(),
{
    if s.len() > 0 && p(s[0]) {
        1 + run_len(s.skip(1), p)
    } else {
        0
    }
}

/// A run never leaves the sequence.
pub proof fn lemma_run_len_bound(s: Seq<char>, p: spec_fn(char) -> bool)
    ensures
        run_len(s, p) <= s.len(),
    decreases s.len(),
{
    if s.len() > 0 && p(s[0]) {
        lemma_run_len_bound(s.skip(1), p);
    }
}

/// A run is the prefix on which `p` holds, ended by the first character that fails `p`.
pub proof fn lemma_run_len_is(s: Seq<char>, p: spec_fn(char) -> bool, k: int)
    requires
        0 <= k <= s.len(),
        forall|j: int| 0 <= j < k ==> p(#[trigger] s[j]),
        k < s.len() ==> !p(s[k]),
    ensures
        run_len(s, p) == k,
    decreases k,
{
    if k > 0 {
        lemma_run_len_is(s.skip(1), p, k - 1);
    }
}

/// Collects the characters of a string slice into a vector.
pub fn to_chars(s: &str) -> (out: Vec<char>)
    ensures
        out@ == s@,
{
    let mut out: Vec<char> = Vec::new();
    for c in it: s.chars()
        invariant
            out@ == it.seq().take(it.index() as int),
    {
        out.push(c);
    }
    out
}

/// Builds a string from the characters `v[from..to]`.
pub fn string_of(v: &Vec<char>, from: usize, to: usize) -> (out: String)
    requires
        from <= to <= v.len(),
    ensures
        out@ == v@.subrange(from as int, to as int),
{
    let mut out = String::new();
    let mut i: usize = from;
    while i < to
        invariant
            from <= i <= to <= v.len(),
            out@ == v@.subrange(from as int, i as int),
        decreases to - i,
    {
        out.push(v[i]);
        i += 1;
    }
    out
}

/// Appends the characters of `v` to `out`.
pub fn push_chars(out: &mut String, v: &Vec<char>)
    ensures
        final(out)@ == old(out)@ + v@,
{
    let mut i: usize = 0;
    while i < v.len()
        invariant
            i <= v.len(),
            out@ == old(out)@ + v@.take(i as int),
        decreases v.len() - i,
    {
        out.push(v[i]);
        i += 1;
    }
}

/// Whether `line` begins with the characters of `pat`.
pub fn starts_with(line: &Vec<char>, pat: &str) -> (b: bool)
    ensures
        b == pat@.is_prefix_of(line@),
{
    let mut i: usize = 0;
    for c in it: pat.chars()
        invariant
            i == it.index(),
            i <= line.len(),
            it.seq() == pat@,
            forall|j: int| 0 <= j < i ==> line@[j] == pat@[j],
    {
        if i >= line.len() || line[i] != c {
            return false;
        }
        i += 1;
    }
    true
}

/// The end of the run of characters other than `c` that starts at `from`: the position of
/// the first `c` at or after `from`, or the length of `v` if there is none.
pub fn find_char(v: &Vec<char>, from: usize, c: char) -> (k: usize)
    requires
        from <= v.len(),
    ensures
        from <= k <= v.len(),
        k == from + run_len(v@.skip(from as int), not_char(c)),
{
    let mut k: usize = from;
    while k < v.len() && v[k] != c
        invariant
            from <= k <= v.len(),
            forall|j: int| from <= j < k ==> v@[j] != c,
        decreases v.len() - k,
    {
        k += 1;
    }
    proof {
        lemma_run_len_is(v@.skip(from as int), not_char(c), k - from);
    }
    k
}

/// The end of the run of `c` that starts at `from`.
pub fn skip_char(v: &Vec<char>, from: usize, c: char) -> (k: usize)
    requires
        from <= v.len(),
    ensures
        from <= k <= v.len(),
        k == from + run_len(v@.skip(from as int), is_char(c)),
{
    let mut k: usize = from;
    while k < v.len() && v[k] == c
        invariant
            from <= k <= v.len(),
            forall|j: int| from <= j < k ==> v@[j] == c,
        decreases v.len() - k,
    {
        k += 1;
    }
    proof {
        lemma_run_len_is(v@.skip(from as int), is_char(c), k - from);
    }
    k
}

/// A copy of the characters `v[from..to]`.
pub fn sub_vec(v: &Vec<char>, from: usize, to: usize) -> (out: Vec<char>)
    requires
        from <= to <= v.len(),
    ensures
        out@ == v@.subrange(from as int, to as int),
{
    let mut out: Vec<char> = Vec::new();
    let mut i: usize = from;
    while i < to
        invariant
            from <= i <= to <= v.len(),
            out@ == v@.subrange(from as int, i as int),
        decreases to - i,
    {
        out.push(v[i]);
        i += 1;
    }
    out
}

/// The text of each vector of characters.
pub open spec fn texts(v: Seq<Vec<char>>) -> Seq<Seq<char>> {
    v.map_values(|l: Vec<char>| l@)
}

/// The text before a trailing carriage return, if there is one.
pub open spec fn strip_cr(s: Seq<char>) -> Seq<char> {
    if s.len() > 0 && s.last() == '\r' {
        s.drop_last()
    } else {
        s
    }
}

/// The lines of a text. A line ends at a line feed, or at a carriage return directly
/// followed by one; the terminator is not part of the line. Text after the last
/// terminator is a line of its own, unless it is empty.
pub open spec fn spec_lines(s: Seq<char>) -> Seq<Seq<char>>
    decreases s.len(),
{
    let k = run_len(s, not_char('\n')) as int;
    if s.len() == 0 {
        Seq::empty()
    } else if k < s.len() {
        seq![strip_cr(s.take(k))] + spec_lines(s.skip(k + 1))
    } else {
        seq![s]
    }
}

/// Splits a text into its lines.
pub fn split_lines(v: &Vec<char>) -> (out: Vec<Vec<char>>)
    ensures
        texts(out@) == spec_lines(v@),
{
    let mut out: Vec<Vec<char>> = Vec::new();
    let mut start: usize = 0;
    assert(v@.skip(0) =~= v@);
    while start < v.len()
        invariant
            start <= v.len(),
            spec_lines(v@) == texts(out@) + spec_lines(v@.skip(start as int)),
        decreases v.len() - start,
    {
        let ghost rest = v@.skip(start as int);
        let k = find_char(v, start, '\n');
        if k < v.len() {
            let end = if k > start && v[k - 1] == '\r' {
                k - 1
            } else {
                k
            };
            let line = sub_vec(v, start, end);
            proof {
                assert(line@ =~= strip_cr(rest.take(k - start)));
                assert(rest.skip(k - start + 1) =~= v@.skip(k + 1));
            }
            out.push(line);
            start = k + 1;
        } else {
            let line = sub_vec(v, start, k);
            out.push(line);
            start = k;
        }
    }
    out
}

/// The characters with the Unicode property `White_Space`.
pub open spec fn spec_is_whitespace(c: char) -> bool {
    let u = c as u32;
    ||| 0x09 <= u <= 0x0D
    ||| u == 0x20
    ||| u == 0x85
    ||| u == 0xA0
    ||| u == 0x1680
    ||| 0x2000 <= u <= 0x200A
    ||| u == 0x2028
    ||| u == 0x2029
    ||| u == 0x202F
    ||| u == 0x205F
    ||| u == 0x3000
}

#[verifier::when_used_as_spec(spec_is_whitespace)]
pub fn is_whitespace(c: char) -> (b: bool)
    ensures
        b == spec_is_whitespace(c),
{
    let u: u32 = c as u32;
    (0x09 <= u && u <= 0x0D) || u == 0x20 || u == 0x85 || u == 0xA0 || u == 0x1680 || (0x2000 <= u
        && u <= 0x200A) || u == 0x2028 || u == 0x2029 || u == 0x202F || u == 0x205F || u == 0x3000
}

/// The predicate "is white space".
pub open spec fn whitespace() -> spec_fn(char) -> bool {
    |c: char| spec_is_whitespace(c)
}

/// The predicate "is not white space".
pub open spec fn non_whitespace() -> spec_fn(char) -> bool {
    |c: char| !spec_is_whitespace(c)
}

/// The words of a text: its maximal runs of characters that are not white space, in order.
pub open spec fn spec_words(s: Seq<char>) -> Seq<Seq<char>>
    decreases s.len(),
    via spec_words_decreases
{
    let rest = s.skip(run_len(s, whitespace()) as int);
    let n = run_len(rest, non_whitespace()) as int;
    if rest.len() == 0 {
        Seq::empty()
    } else {
        seq![rest.take(n)] + spec_words(rest.skip(n))
    }
}

#[via_fn]
proof fn spec_words_decreases(s: Seq<char>) {
    lemma_run_len_bound(s, whitespace());
    let rest = s.skip(run_len(s, whitespace()) as int);
    if rest.len() > 0 {
        lemma_run_len_bound(rest, non_whitespace());
    }
}

/// The end of the run of white space that starts at `from`.
pub fn skip_whitespace(v: &Vec<char>, from: usize) -> (k: usize)
    requires
        from <= v.len(),
    ensures
        from <= k <= v.len(),
        k == from + run_len(v@.skip(from as int), whitespace()),
        k < v.len() ==> !spec_is_whitespace(v@[k as int]),
{
    let mut k: usize = from;
    while k < v.len() && is_whitespace(v[k])
        invariant
            from <= k <= v.len(),
            forall|j: int| from <= j < k ==> spec_is_whitespace(v@[j]),
        decreases v.len() - k,
    {
        k += 1;
    }
    proof {
        lemma_run_len_is(v@.skip(from as int), whitespace(), k - from);
    }
    k
}

/// The end of the run of characters other than white space that starts at `from`.
pub fn skip_word(v: &Vec<char>, from: usize) -> (k: usize)
    requires
        from <= v.len(),
    ensures
        from <= k <= v.len(),
        k == from + run_len(v@.skip(from as int), non_whitespace()),
        from < v.len() && !spec_is_whitespace(v@[from as int]) ==> from < k,
{
    let mut k: usize = from;
    while k < v.len() && !is_whitespace(v[k])
        invariant
            from <= k <= v.len(),
            forall|j: int| from <= j < k ==> !spec_is_whitespace(v@[j]),
        decreases v.len() - k,
    {
        k += 1;
    }
    proof {
        lemma_run_len_is(v@.skip(from as int), non_whitespace(), k - from);
    }
    k
}

/// Splits a text into its words.
pub fn split_words(v: &Vec<char>) -> (out: Vec<Vec<char>>)
    ensures
        texts(out@) == spec_words(v@),
{
    let mut out: Vec<Vec<char>> = Vec::new();
    let mut pos: usize = 0;
    assert(v@.skip(0) =~= v@);
    while pos < v.len()
        invariant
            pos <= v.len(),
            spec_words(v@) == texts(out@) + spec_words(v@.skip(pos as int)),
        decreases v.len() - pos,
    {
        let ghost tail = v@.skip(pos as int);
        let a = skip_whitespace(v, pos);
        assert(tail.skip(a - pos) =~= v@.skip(a as int));
        if a < v.len() {
            let b = skip_word(v, a);
            let word = sub_vec(v, a, b);
            proof {
                let rest = v@.skip(a as int);
                assert(word@ =~= rest.take(b - a));
                assert(rest.skip(b - a) =~= v@.skip(b as int));
            }
            out.push(word);
            pos = b;
        } else {
            pos = a;
        }
    }
    out
}

/// The ASCII decimal digits.
pub open spec fn spec_is_digit(c: char) -> bool {
    0x30 <= c as u32 <= 0x39
}

/// The number a decimal digit stands for; zero for any other character.
pub open spec fn digit_value(c: char) -> nat {
    if spec_is_digit(c) {
        (c as u32 - 0x30) as nat
    } else {
        0
    }
}

/// The decimal digit for a number below ten.
pub open spec fn digit_char(d: nat) -> char {
    (0x30 + d) as char
}

pub open spec fn all_digits(s: Seq<char>) -> bool {
    forall|i: int| 0 <= i < s.len() ==> spec_is_digit(#[trigger] s[i])
}

/// The number that a sequence of decimal digits denotes, most significant digit first.
pub open spec fn digits_value(s: Seq<char>) -> nat
    decreases s.len(),
{
    if s.len() == 0 {
        0
    } else {
        digits_value(s.drop_last()) * 10 + digit_value(s.last())
    }
}

/// The digits of an unsigned number: the text itself, without one leading plus sign.
pub open spec fn unsigned_digits(s: Seq<char>) -> Seq<char> {
    if s.len() > 0 && s[0] == '+' {
        s.skip(1)
    } else {
        s
    }
}

/// Reads an unsigned decimal number: an optional plus sign, then one or more digits, the
/// whole denoting a number that fits the machine word.
pub open spec fn spec_parse_usize(s: Seq<char>) -> Option<usize> {
    let d = unsigned_digits(s);
    if d.len() > 0 && all_digits(d) && digits_value(d) <= usize::MAX {
        Some(digits_value(d) as usize)
    } else {
        None
    }
}

/// Digits appended to a number never make it smaller.
pub proof fn lemma_digits_value_prefix(s: Seq<char>, k: int)
    requires
        0 <= k <= s.len(),
    ensures
        digits_value(s.take(k)) <= digits_value(s),
    decreases s.len() - k,
{
    if k < s.len() {
        lemma_digits_value_prefix(s, k + 1);
        assert(s.take(k + 1).drop_last() =~= s.take(k));
    } else {
        assert(s.take(k) =~= s);
    }
}

/// Reads the unsigned decimal number written in `v[from..to]`.
pub fn parse_usize(v: &Vec<char>, from: usize, to: usize) -> (r: Option<usize>)
    requires
        from <= to <= v.len(),
    ensures
        r == spec_parse_usize(v@.subrange(from as int, to as int)),
{
    let ghost s = v@.subrange(from as int, to as int);
    let start: usize = if from < to && v[from] == '+' {
        from + 1
    } else {
        from
    };
    let ghost d = unsigned_digits(s);
    if start == to {
        return None;
    }
    let mut acc: usize = 0;
    let mut i: usize = start;
    while i < to
        invariant
            from <= start <= i <= to <= v.len(),
            d == v@.subrange(start as int, to as int),
            d == unsigned_digits(v@.subrange(from as int, to as int)),
            all_digits(d.take(i - start)),
            acc == digits_value(d.take(i - start)),
        decreases to - i,
    {
        let u: u32 = v[i] as u32;
        assert(v@[i as int] == d[i - start]);
        if u < 0x30 || u > 0x39 {
            return None;
        }
        let digit: usize = (u - 0x30) as usize;
        proof {
            assert(d.take(i - start + 1).drop_last() =~= d.take(i - start));
            lemma_digits_value_prefix(d, i - start + 1);
        }
        let next = match acc.checked_mul(10) {
            Some(m) => m.checked_add(digit),
            None => None,
        };
        match next {
            Some(n) => {
                acc = n;
            },
            None => {
                return None;
            },
        }
        i += 1;
    }
    assert(d.take(i - start) =~= d);
    Some(acc)
}

/// The decimal digits of a number, without leading zeros.
pub open spec fn spec_decimal(n: nat) -> Seq<char>
    decreases n,
{
    if n < 10 {
        seq![digit_char(n)]
    } else {
        spec_decimal(n / 10).push(digit_char(n % 10))
    }
}

/// Appends the decimal digits of `n` to `out`.
pub fn push_decimal(out: &mut String, n: u128)
    ensures
        final(out)@ == old(out)@ + spec_decimal(n as nat),
    decreases n,
{
    if n >= 10 {
        push_decimal(out, n / 10);
    }
    let d: u8 = (n % 10) as u8;
    out.push((0x30u8 + d) as char);
}

/// The decimal digits of `n` as a string.
pub fn decimal(n: u128) -> (out: String)
    ensures
        out@ == spec_decimal(n as nat),
{
    let mut out = String::new();
    push_decimal(&mut out, n);
    out
}

/// What `spec_decimal` writes consists of digits and denotes the number written.
pub proof fn lemma_decimal_denotes(n: nat)
    ensures
        spec_decimal(n).len() > 0,
        all_digits(spec_decimal(n)),
        digits_value(spec_decimal(n)) == n,
    decreases n,
{
    if n < 10 {
        assert(digits_value(spec_decimal(n).drop_last()) == 0);
    } else {
        lemma_decimal_denotes(n / 10);
        assert(spec_decimal(n).drop_last() =~= spec_decimal(n / 10));
    }
}

/// Reading back a number that was written in decimal gives that number.
pub proof fn lemma_parse_reads_decimal(n: usize)
    ensures
        spec_parse_usize(spec_decimal(n as nat)) == Some(n),
{
    lemma_decimal_denotes(n as nat);
}

/// Whether two texts are the same, character by character.
pub fn same_text(a: &str, b: &str) -> (r: bool)
    ensures
        r == (a@ == b@),
{
    let v = to_chars(a);
    let r = starts_with(&v, b) && v.len() == b.unicode_len();
    proof {
        if r {
            assert(a@ =~= b@);
        }
    }
    r
}

/// The text made of `n` copies of `c`.
pub open spec fn spec_repeat(c: char, n: nat) -> Seq<char> {
    Seq::new(n, |i: int| c)
}

/// Appends `n` copies of `c` to `out`.
pub fn push_repeat(out: &mut String, c: char, n: usize)
    ensures
        final(out)@ == old(out)@ + spec_repeat(c, n as nat),
{
    let mut i: usize = 0;
    while i < n
        invariant
            i <= n,
            out@ == old(out)@ + spec_repeat(c, i as nat),
        decreases n - i,
    {
        out.push(c);
        i += 1;
    }
}

/// The text right-aligned in a field of `width` characters: spaces come first, and a
/// text that is already as wide stays as it is.
pub open spec fn spec_pad_left(s: Seq<char>, width: nat) -> Seq<char> {
    if s.len() >= width {
        s
    } else {
        spec_repeat(' ', (width - s.len()) as nat) + s
    }
}

/// The text left-aligned in a field of `width` characters: spaces come last, and a text
/// that is already as wide stays as it is.
pub open spec fn spec_pad_right(s: Seq<char>, width: nat) -> Seq<char> {
    if s.len() >= width {
        s
    } else {
        s + spec_repeat(' ', (width - s.len()) as nat)
    }
}

/// Right-aligns `s` in a field of `width` characters.
pub fn pad_left(s: &str, width: usize) -> (out: String)
    ensures
        out@ == spec_pad_left(s@, width as nat),
{
    let n = s.unicode_len();
    let mut out = String::new();
    if n < width {
        push_repeat(&mut out, ' ', width - n);
    }
    out.append(s);
    out
}

/// Left-aligns `s` in a field of `width` characters.
pub fn pad_right(s: &str, width: usize) -> (out: String)
    ensures
        out@ == spec_pad_right(s@, width as nat),
{
    let n = s.unicode_len();
    let mut out = String::from_str(s);
    if n < width {
        push_repeat(&mut out, ' ', width - n);
    }
    out
}

/// How many columns a tab is drawn as.
pub const TAB_WIDTH: usize = 4;

/// The text with every tab replaced by `TAB_WIDTH` spaces.
pub open spec fn spec_expand_tabs(s: Seq<char>) -> Seq<char>
    decreases s.len(),
{
    if s.len() == 0 {
        Seq::empty()
    } else if s.last() == '\t' {
        spec_expand_tabs(s.drop_last()) + spec_repeat(' ', TAB_WIDTH as nat)
    } else {
        spec_expand_tabs(s.drop_last()).push(s.last())
    }
}

/// Replaces every tab of `s` by `TAB_WIDTH` spaces.
pub fn expand_tabs(s: &str) -> (out: String)
    ensures
        out@ == spec_expand_tabs(s@),
{
    let mut out = String::new();
    for c in it: s.chars()
        invariant
            it.seq() == s@,
            out@ == spec_expand_tabs(s@.take(it.index() as int)),
    {
        let ghost i = it.index() as int;
        assert(s@.take(i + 1).drop_last() =~= s@.take(i));
        if c == '\t' {
            push_repeat(&mut out, ' ', TAB_WIDTH);
        } else {
            out.push(c);
        }
    }
    assert(s@.take(s@.len() as int) =~= s@);
    out
}

/// The character that marks a shortened text.
pub const ELLIPSIS: char = '\u{2026}';

/// The text cut to at most `max` characters: a text that fits stays as it is, a longer
/// one keeps its first `max - 1` characters and ends in an ellipsis.
pub open spec fn spec_truncate(s: Seq<char>, max: nat) -> Seq<char> {
    if s.len() > max {
        s.take(if max >= 1 {
            max - 1
        } else {
            0
        }).push(ELLIPSIS)
    } else {
        s
    }
}

/// Cuts `s` to at most `max` characters, marking the cut with an ellipsis.
pub fn truncate(s: &str, max: usize) -> (out: String)
    ensures
        out@ == spec_truncate(s@, max as nat),
{
    let v = to_chars(s);
    if v.len() > max {
        let keep = if max >= 1 {
            max - 1
        } else {
            0
        };
        let mut out = string_of(&v, 0, keep);
        out.push(ELLIPSIS);
        out
    } else {
        String::from_str(s)
    }
}

} // verus!
