//! From raw text to the line model: binary detection, unified diffs and whole files.

use vstd::prelude::*;
use vstd::utf8::encode_utf8;
use crate::text::{
    find_char, is_char, not_char, parse_usize, run_len, skip_char, spec_lines, spec_parse_usize,
    spec_words, split_lines, split_words, starts_with, string_of, texts, to_chars,
};
use super::{DiffLine, DiffLineView, LineType};

verus! {

/// A line without gutter numbers.
pub open spec fn plain(text: Seq<char>, line_type: LineType) -> DiffLineView {
    DiffLineView { text, line_type, left_num: None, right_num: None }
}

/// The line model of a vector of lines.
pub open spec fn views(lines: Seq<DiffLine>) -> Seq<DiffLineView> {
    lines.map_values(|l: DiffLine| l@)
}

pub fn plain_line(text: String, line_type: LineType) -> (l: DiffLine)
    ensures
        l@ == plain(text@, line_type),
{
    DiffLine { text, line_type, left_num: None, right_num: None }
}

/// How many leading bytes are inspected for a NUL.
pub const BINARY_PROBE_BYTES: usize = 8192;

/// A text counts as binary when one of the first `BINARY_PROBE_BYTES` bytes of its UTF-8
/// encoding is NUL.
pub open spec fn spec_is_binary(text: Seq<char>) -> bool {
    exists|i: int|
        0 <= i < encode_utf8(text).len() && i < BINARY_PROBE_BYTES && #[trigger] encode_utf8(text)[i]
            == 0u8
}

pub fn is_binary(content: &str) -> (b: bool)
    ensures
        b == spec_is_binary(content@),
{
    let bytes = content.as_bytes();
    let n = if bytes.len() < BINARY_PROBE_BYTES {
        bytes.len()
    } else {
        BINARY_PROBE_BYTES
    };
    let mut i: usize = 0;
    while i < n
        invariant
            i <= n <= bytes@.len(),
            n <= BINARY_PROBE_BYTES,
            n == bytes@.len() || n == BINARY_PROBE_BYTES,
            bytes@ == encode_utf8(content@),
            forall|j: int| 0 <= j < i ==> bytes@[j] != 0u8,
        decreases n - i,
    {
        if bytes[i] == 0 {
            return true;
        }
        i += 1;
    }
    false
}

/// What stands in place of the lines of a binary file.
pub open spec fn binary_notice() -> DiffLineView {
    plain("Binary file"@, LineType::Info)
}

/// The starting line number in one side of a hunk header: the word without its leading
/// signs, up to the first comma, read as a number.
pub open spec fn spec_hunk_start(word: Seq<char>, sign: char) -> Option<usize> {
    let tail = word.skip(run_len(word, is_char(sign)) as int);
    spec_parse_usize(tail.take(run_len(tail, not_char(',')) as int))
}

/// The starting line numbers that a hunk header gives for the left and the right side:
/// read from its second and third word, and present only if both can be read.
pub open spec fn spec_parse_hunk_header(line: Seq<char>) -> Option<(usize, usize)> {
    let words = spec_words(line);
    if words.len() < 3 {
        None
    } else {
        match (spec_hunk_start(words[1], '-'), spec_hunk_start(words[2], '+')) {
            (Some(left), Some(right)) => Some((left, right)),
            _ => None,
        }
    }
}

fn hunk_start(word: &Vec<char>, sign: char) -> (r: Option<usize>)
    ensures
        r == spec_hunk_start(word@, sign),
{
    let a = skip_char(word, 0, sign);
    let b = find_char(word, a, ',');
    proof {
        assert(word@.skip(0) =~= word@);
        let tail = word@.skip(a as int);
        assert(tail.take(b - a) =~= word@.subrange(a as int, b as int));
    }
    parse_usize(word, a, b)
}

/// Reads the starting line numbers from the characters of a hunk header.
pub fn hunk_header_of(line: &Vec<char>) -> (r: Option<(usize, usize)>)
    ensures
        r == spec_parse_hunk_header(line@),
{
    let words = split_words(line);
    if words.len() < 3 {
        return None;
    }
    let left = hunk_start(&words[1], '-');
    let right = hunk_start(&words[2], '+');
    match (left, right) {
        (Some(l), Some(r)) => Some((l, r)),
        _ => None,
    }
}

/// Reads the starting line numbers from a hunk header such as `@@ -12,7 +12,9 @@`.
pub fn parse_hunk_header(line: &str) -> (r: Option<(usize, usize)>)
    ensures
        r == spec_parse_hunk_header(line@),
{
    let chars = to_chars(line);
    hunk_header_of(&chars)
}

/// The running line numbers of the two sides of a diff.
#[derive(Clone, Copy, Debug, PartialEq, Eq, Structural)]
pub struct Counters {
    pub left: usize,
    pub right: usize,
}

/// The kinds of line in a unified diff.
#[derive(Clone, Copy, Debug, PartialEq, Eq, Structural)]
pub enum LineKind {
    Hunk,
    Meta,
    Added,
    Removed,
    Context,
    Other,
}

/// The file-level lines that precede the hunks of a file.
pub open spec fn spec_is_metadata(line: Seq<char>) -> bool {
    ||| "diff --git"@.is_prefix_of(line)
    ||| "index "@.is_prefix_of(line)
    ||| "---"@.is_prefix_of(line)
    ||| "+++"@.is_prefix_of(line)
    ||| "new file"@.is_prefix_of(line)
    ||| "deleted file"@.is_prefix_of(line)
}

/// Classifies a line by its prefix. Hunk headers and metadata come first, so that `+++`
/// and `---` are not taken for added or removed lines.
pub open spec fn spec_kind(line: Seq<char>) -> LineKind {
    if "@@"@.is_prefix_of(line) {
        LineKind::Hunk
    } else if spec_is_metadata(line) {
        LineKind::Meta
    } else if line.len() > 0 && line[0] == '+' {
        LineKind::Added
    } else if line.len() > 0 && line[0] == '-' {
        LineKind::Removed
    } else if line.len() > 0 && line[0] == ' ' {
        LineKind::Context
    } else {
        LineKind::Other
    }
}

/// One more, stopping at the largest machine word.
pub open spec fn bump(n: usize) -> usize {
    if n < usize::MAX {
        (n + 1) as usize
    } else {
        n
    }
}

/// The line emitted for an input line when the counters stand at `c`.
pub open spec fn spec_diff_line(c: Counters, line: Seq<char>) -> DiffLineView {
    match spec_kind(line) {
        LineKind::Hunk | LineKind::Meta => plain(line, LineType::Header),
        LineKind::Added => DiffLineView {
            text: line.skip(1),
            line_type: LineType::Added,
            left_num: None,
            right_num: Some(c.right),
        },
        LineKind::Removed => DiffLineView {
            text: line.skip(1),
            line_type: LineType::Removed,
            left_num: Some(c.left),
            right_num: None,
        },
        LineKind::Context => DiffLineView {
            text: line.skip(1),
            line_type: LineType::Context,
            left_num: Some(c.left),
            right_num: Some(c.right),
        },
        LineKind::Other => plain(line, LineType::Context),
    }
}

/// The counters after an input line: a readable hunk header sets both, an added line
/// advances the right one, a removed line the left one, a context line both.
pub open spec fn spec_advance(c: Counters, line: Seq<char>) -> Counters {
    match spec_kind(line) {
        LineKind::Hunk => match spec_parse_hunk_header(line) {
            Some((left, right)) => Counters { left, right },
            None => c,
        },
        LineKind::Meta | LineKind::Other => c,
        LineKind::Added => Counters { left: c.left, right: bump(c.right) },
        LineKind::Removed => Counters { left: bump(c.left), right: c.right },
        LineKind::Context => Counters { left: bump(c.left), right: bump(c.right) },
    }
}

/// The counters before line `i` of a diff; both start at zero.
pub open spec fn counters_before(lines: Seq<Seq<char>>, i: int) -> Counters
    decreases i,
{
    if i <= 0 {
        Counters { left: 0, right: 0 }
    } else {
        spec_advance(counters_before(lines, i - 1), lines[i - 1])
    }
}

/// The line model of a unified diff: one line per input line, in order.
pub open spec fn spec_parse_diff(content: Seq<char>) -> Seq<DiffLineView> {
    let lines = spec_lines(content);
    Seq::new(lines.len(), |i: int| spec_diff_line(counters_before(lines, i), lines[i]))
}

fn is_metadata(line: &Vec<char>) -> (b: bool)
    ensures
        b == spec_is_metadata(line@),
{
    starts_with(line, "diff --git") || starts_with(line, "index ") || starts_with(line, "---")
        || starts_with(line, "+++") || starts_with(line, "new file") || starts_with(
        line,
        "deleted file",
    )
}

fn kind_of(line: &Vec<char>) -> (k: LineKind)
    ensures
        k == spec_kind(line@),
{
    if starts_with(line, "@@") {
        LineKind::Hunk
    } else if is_metadata(line) {
        LineKind::Meta
    } else if line.len() > 0 && line[0] == '+' {
        LineKind::Added
    } else if line.len() > 0 && line[0] == '-' {
        LineKind::Removed
    } else if line.len() > 0 && line[0] == ' ' {
        LineKind::Context
    } else {
        LineKind::Other
    }
}

fn bumped(n: usize) -> (m: usize)
    ensures
        m == bump(n),
{
    if n < usize::MAX {
        n + 1
    } else {
        n
    }
}

/// Emits the line for one input line and advances the counters.
pub fn diff_step(line: &Vec<char>, c: Counters) -> (r: (DiffLine, Counters))
    ensures
        r.0@ == spec_diff_line(c, line@),
        r.1 == spec_advance(c, line@),
{
    let n = line.len();
    assert(line@.subrange(0, n as int) =~= line@);
    match kind_of(line) {
        LineKind::Hunk => {
            let next = match hunk_header_of(line) {
                Some((left, right)) => Counters { left, right },
                None => c,
            };
            (plain_line(string_of(line, 0, n), LineType::Header), next)
        },
        LineKind::Meta => (plain_line(string_of(line, 0, n), LineType::Header), c),
        LineKind::Added => (
            DiffLine {
                text: string_of(line, 1, n),
                line_type: LineType::Added,
                left_num: None,
                right_num: Some(c.right),
            },
            Counters { left: c.left, right: bumped(c.right) },
        ),
        LineKind::Removed => (
            DiffLine {
                text: string_of(line, 1, n),
                line_type: LineType::Removed,
                left_num: Some(c.left),
                right_num: None,
            },
            Counters { left: bumped(c.left), right: c.right },
        ),
        LineKind::Context => (
            DiffLine {
                text: string_of(line, 1, n),
                line_type: LineType::Context,
                left_num: Some(c.left),
                right_num: Some(c.right),
            },
            Counters { left: bumped(c.left), right: bumped(c.right) },
        ),
        LineKind::Other => (plain_line(string_of(line, 0, n), LineType::Context), c),
    }
}

/// Parses a unified diff into the line model.
pub fn parse_diff(content: &str) -> (out: Vec<DiffLine>)
    ensures
        views(out@) == spec_parse_diff(content@),
        numbers_monotone(views(out@)),
{
    let chars = to_chars(content);
    let lines = split_lines(&chars);
    let ghost input = texts(lines@);
    let mut out: Vec<DiffLine> = Vec::new();
    let mut c = Counters { left: 0, right: 0 };
    let mut i: usize = 0;
    while i < lines.len()
        invariant
            i <= lines.len(),
            input == texts(lines@),
            out@.len() == i,
            c == counters_before(input, i as int),
            forall|k: int|
                0 <= k < i ==> (#[trigger] out@[k])@ == spec_diff_line(
                    counters_before(input, k),
                    input[k],
                ),
        decreases lines.len() - i,
    {
        let (line, next) = diff_step(&lines[i], c);
        out.push(line);
        c = next;
        i += 1;
    }
    proof {
        assert(views(out@) =~= spec_parse_diff(content@));
        lemma_parse_diff_monotone(content@);
    }
    out
}

/// The line is a hunk header of the diff it was parsed from.
pub open spec fn is_hunk_header(line: DiffLineView) -> bool {
    line.line_type == LineType::Header && "@@"@.is_prefix_of(line.text)
}

/// No hunk header stands strictly between lines `i` and `j`.
pub open spec fn same_hunk(lines: Seq<DiffLineView>, i: int, j: int) -> bool {
    forall|k: int| i < k < j ==> !is_hunk_header(#[trigger] lines[k])
}

/// Where both numbers are present, the second is not below the first.
pub open spec fn not_after(a: Option<usize>, b: Option<usize>) -> bool {
    a is Some && b is Some ==> a->0 <= b->0
}

/// Within a hunk, the numbers of each side never go down from one line to a later one.
pub open spec fn numbers_monotone(lines: Seq<DiffLineView>) -> bool {
    forall|i: int, j: int|
        #![trigger lines[i], lines[j]]
        0 <= i < j < lines.len() && same_hunk(lines, i, j) ==> not_after(
            lines[i].left_num,
            lines[j].left_num,
        ) && not_after(lines[i].right_num, lines[j].right_num)
}

/// While no hunk header is passed, neither counter goes down.
proof fn lemma_counters_grow(lines: Seq<Seq<char>>, i: int, j: int)
    requires
        0 <= i <= j <= lines.len(),
        forall|k: int| i <= k < j ==> spec_kind(#[trigger] lines[k]) != LineKind::Hunk,
    ensures
        counters_before(lines, i).left <= counters_before(lines, j).left,
        counters_before(lines, i).right <= counters_before(lines, j).right,
    decreases j - i,
{
    if i < j {
        lemma_counters_grow(lines, i, j - 1);
    }
}

/// In every parsed diff the line numbers of each side are non-decreasing within a hunk.
pub proof fn lemma_parse_diff_monotone(content: Seq<char>)
    ensures
        numbers_monotone(spec_parse_diff(content)),
{
    let input = spec_lines(content);
    let lines = spec_parse_diff(content);
    assert forall|i: int, j: int|
        #![trigger lines[i], lines[j]]
        0 <= i < j < lines.len() && same_hunk(lines, i, j) implies not_after(
        lines[i].left_num,
        lines[j].left_num,
    ) && not_after(lines[i].right_num, lines[j].right_num) by {
        if lines[i].left_num is Some || lines[i].right_num is Some {
            assert forall|k: int| i <= k < j implies spec_kind(#[trigger] input[k])
                != LineKind::Hunk by {
                if k > i {
                    assert(!is_hunk_header(lines[k]));
                }
            }
            lemma_counters_grow(input, i, j);
        }
    }
}

/// The line model of a whole file: every line is context, numbered from one on both sides.
pub open spec fn spec_parse_file_content(content: Seq<char>) -> Seq<DiffLineView> {
    let lines = spec_lines(content);
    Seq::new(
        lines.len(),
        |i: int|
            DiffLineView {
                text: lines[i],
                line_type: LineType::Context,
                left_num: Some((i + 1) as usize),
                right_num: Some((i + 1) as usize),
            },
    )
}

/// Turns the text of a file into numbered context lines.
pub fn parse_file_content(content: &str) -> (out: Vec<DiffLine>)
    ensures
        views(out@) == spec_parse_file_content(content@),
        out@.len() == spec_lines(content@).len(),
        forall|i: int|
            0 <= i < out@.len() ==> {
                &&& (#[trigger] out@[i]).line_type == LineType::Context
                &&& out@[i].left_num == Some((i + 1) as usize)
                &&& out@[i].right_num == Some((i + 1) as usize)
                &&& out@[i].text@ == spec_lines(content@)[i]
            },
{
    let chars = to_chars(content);
    let lines = split_lines(&chars);
    let ghost input = texts(lines@);
    let mut out: Vec<DiffLine> = Vec::new();
    let mut i: usize = 0;
    while i < lines.len()
        invariant
            i <= lines.len(),
            input == texts(lines@),
            out@.len() == i,
            forall|k: int|
                0 <= k < i ==> {
                    &&& (#[trigger] out@[k]).line_type == LineType::Context
                    &&& out@[k].left_num == Some((k + 1) as usize)
                    &&& out@[k].right_num == Some((k + 1) as usize)
                    &&& out@[k].text@ == input[k]
                },
        decreases lines.len() - i,
    {
        let line = &lines[i];
        let n = line.len();
        out.push(
            DiffLine {
                text: string_of(line, 0, n),
                line_type: LineType::Context,
                left_num: Some(i + 1),
                right_num: Some(i + 1),
            },
        );
        i += 1;
    }
    out
}

} // verus!
