//! The memory of the process.
//!
//! On Linux the kernel describes a process in a text, one field to a line. The
//! field `VmRSS:` gives the resident set size in kibibytes.
use crate::prolog::PrologError;
use crate::text::chars_of;
use vstd::prelude::*;

verus! {

// ---- lines and words ----

/// The characters that separate words: those that Unicode calls white space.
pub open spec fn is_space(c: char) -> bool {
    ||| '\u{9}' <= c <= '\u{d}'
    ||| c == ' '
    ||| c == '\u{85}'
    ||| c == '\u{a0}'
    ||| c == '\u{1680}'
    ||| '\u{2000}' <= c <= '\u{200a}'
    ||| c == '\u{2028}'
    ||| c == '\u{2029}'
    ||| c == '\u{202f}'
    ||| c == '\u{205f}'
    ||| c == '\u{3000}'
}

/// Where the line that holds position `from` ends.
pub open spec fn line_end(text: Seq<char>, from: int) -> int
    decreases text.len() - from,
{
    if from < 0 || from >= text.len() {
        text.len() as int
    } else if text[from] == '\n' {
        from
    } else {
        line_end(text, from + 1)
    }
}

/// The line starts with the text.
pub open spec fn starts_with(line: Seq<char>, start: Seq<char>) -> bool {
    line.len() >= start.len() && line.take(start.len() as int) == start
}

/// The first of the lines from position `from` on that starts with `label`.
pub open spec fn labelled_line(text: Seq<char>, label: Seq<char>, from: int) -> Option<Seq<char>>
    decreases text.len() + 1 - from,
    via labelled_line_decreases
{
    if from < 0 || from >= text.len() {
        None
    } else {
        let end = line_end(text, from);
        let line = text.subrange(from, end);
        if starts_with(line, label) {
            Some(line)
        } else {
            labelled_line(text, label, end + 1)
        }
    }
}

#[via_fn]
proof fn labelled_line_decreases(text: Seq<char>, label: Seq<char>, from: int) {
    if 0 <= from < text.len() {
        line_end_is_in_range(text, from);
    }
}

proof fn line_end_is_in_range(text: Seq<char>, from: int)
    requires
        0 <= from <= text.len(),
    ensures
        from <= line_end(text, from) <= text.len(),
    decreases text.len() - from,
{
    if from < text.len() && text[from] != '\n' {
        line_end_is_in_range(text, from + 1);
    }
}

/// The first position from `from` on that holds no white space.
pub open spec fn after_space(line: Seq<char>, from: int) -> int
    decreases line.len() - from,
{
    if from < 0 || from >= line.len() {
        line.len() as int
    } else if is_space(line[from]) {
        after_space(line, from + 1)
    } else {
        from
    }
}

/// The first position from `from` on that holds white space.
pub open spec fn after_word(line: Seq<char>, from: int) -> int
    decreases line.len() - from,
{
    if from < 0 || from >= line.len() {
        line.len() as int
    } else if is_space(line[from]) {
        from
    } else {
        after_word(line, from + 1)
    }
}

/// The second word of a line.
pub open spec fn second_word(line: Seq<char>) -> Option<Seq<char>> {
    let start = after_space(line, after_word(line, after_space(line, 0)));
    if start < line.len() {
        Some(line.subrange(start, after_word(line, start)))
    } else {
        None
    }
}

// ---- numbers ----

/// The value of a text of decimal digits; none if it holds anything else.
pub open spec fn decimal_value(text: Seq<char>) -> Option<int>
    decreases text.len(),
{
    if text.len() == 0 {
        Some(0)
    } else {
        let last = text.last();
        match decimal_value(text.drop_last()) {
            Some(high) => if '0' <= last <= '9' {
                Some(10 * high + (last as int - 48))
            } else {
                None
            },
            None => None,
        }
    }
}

/// The number that a word stands for: at least one digit, a sign in front of
/// them if need be, and no more than fits.
pub open spec fn number(word: Seq<char>) -> Option<usize> {
    let digits = if word.len() > 0 && word[0] == '+' {
        word.skip(1)
    } else {
        word
    };
    match decimal_value(digits) {
        Some(n) => if digits.len() > 0 && n <= usize::MAX {
            Some(n as usize)
        } else {
            None
        },
        None => None,
    }
}

/// The resident set size in kibibytes that a description of a process gives:
/// the second word of the first line for it, if it is a number.
pub open spec fn rss_kib(status: Seq<char>) -> Option<usize> {
    match labelled_line(status, "VmRSS:"@, 0) {
        Some(line) => match second_word(line) {
            Some(word) => number(word),
            None => None,
        },
        None => None,
    }
}

// ---- reading the description ----

fn is_white_space(c: char) -> (space: bool)
    ensures
        space == is_space(c),
{
    ('\u{9}' <= c && c <= '\u{d}') || c == ' ' || c == '\u{85}' || c == '\u{a0}' || c == '\u{1680}' || (
    '\u{2000}' <= c && c <= '\u{200a}') || c == '\u{2028}' || c == '\u{2029}' || c == '\u{202f}' || c == '\u{205f}'
        || c == '\u{3000}'
}

fn find_line_end(text: &Vec<char>, from: usize) -> (end: usize)
    requires
        from <= text@.len(),
    ensures
        end == line_end(text@, from as int),
        from <= end <= text@.len(),
{
    let mut i: usize = from;
    while i < text.len() && text[i] != '\n'
        invariant
            from <= i <= text@.len(),
            line_end(text@, i as int) == line_end(text@, from as int),
        decreases text@.len() - i,
    {
        i = i + 1;
    }
    i
}

fn skip_space(line: &Vec<char>, from: usize) -> (next: usize)
    requires
        from <= line@.len(),
    ensures
        next == after_space(line@, from as int),
        from <= next <= line@.len(),
{
    let mut i: usize = from;
    while i < line.len() && is_white_space(line[i])
        invariant
            from <= i <= line@.len(),
            after_space(line@, i as int) == after_space(line@, from as int),
        decreases line@.len() - i,
    {
        i = i + 1;
    }
    i
}

fn skip_word(line: &Vec<char>, from: usize) -> (next: usize)
    requires
        from <= line@.len(),
    ensures
        next == after_word(line@, from as int),
        from <= next <= line@.len(),
{
    let mut i: usize = from;
    while i < line.len() && !is_white_space(line[i])
        invariant
            from <= i <= line@.len(),
            after_word(line@, i as int) == after_word(line@, from as int),
        decreases line@.len() - i,
    {
        i = i + 1;
    }
    i
}

/// The characters from `start` up to `end`.
fn part(text: &Vec<char>, start: usize, end: usize) -> (chars: Vec<char>)
    requires
        start <= end <= text@.len(),
    ensures
        chars@ == text@.subrange(start as int, end as int),
{
    let mut chars: Vec<char> = Vec::new();
    let mut i: usize = start;
    while i < end
        invariant
            start <= i <= end <= text@.len(),
            chars@ == text@.subrange(start as int, i as int),
        decreases end - i,
    {
        chars.push(text[i]);
        assert(chars@ =~= text@.subrange(start as int, i + 1));
        i = i + 1;
    }
    chars
}

fn begins_with(line: &Vec<char>, start: &Vec<char>) -> (begins: bool)
    ensures
        begins == starts_with(line@, start@),
{
    if line.len() < start.len() {
        return false;
    }
    let mut i: usize = 0;
    while i < start.len()
        invariant
            i <= start@.len() <= line@.len(),
            forall|k: int| 0 <= k < i ==> line@[k] == start@[k],
        decreases start@.len() - i,
    {
        if line[i] != start[i] {
            assert(line@.take(start@.len() as int)[i as int] != start@[i as int]);
            return false;
        }
        i = i + 1;
    }
    assert(line@.take(start@.len() as int) =~= start@);
    true
}

/// The digits so far are no number, or one too large, however they go on.
proof fn a_bad_start_stays_bad(text: Seq<char>, n: int)
    requires
        0 <= n <= text.len(),
    ensures
        decimal_value(text.take(n)) is None ==> decimal_value(text) is None,
        decimal_value(text) is Some && decimal_value(text.take(n)) is Some ==> 0 <= decimal_value(text.take(n))->0
            <= decimal_value(text)->0,
    decreases text.len(),
{
    if n == text.len() {
        assert(text.take(n) =~= text);
        decimal_value_is_natural(text);
    } else {
        a_bad_start_stays_bad(text.drop_last(), n);
        assert(text.drop_last().take(n) =~= text.take(n));
        decimal_value_is_natural(text.drop_last());
    }
}

proof fn decimal_value_is_natural(text: Seq<char>)
    ensures
        decimal_value(text) is Some ==> decimal_value(text)->0 >= 0,
    decreases text.len(),
{
    if text.len() > 0 {
        decimal_value_is_natural(text.drop_last());
    }
}

/// The number that a word stands for.
fn parse_number(word: &Vec<char>) -> (n: Option<usize>)
    ensures
        n == number(word@),
{
    let start: usize = if word.len() > 0 && word[0] == '+' {
        1
    } else {
        0
    };
    let digits = part(word, start, word.len());
    proof {
        assert(word@.subrange(0, word@.len() as int) =~= word@);
        if word@.len() > 0 {
            assert(word@.subrange(1, word@.len() as int) =~= word@.skip(1));
        }
    }
    if digits.len() == 0 {
        return None;
    }
    let mut n: usize = 0;
    let mut i: usize = 0;
    assert(digits@.take(0) =~= Seq::<char>::empty());
    while i < digits.len()
        invariant
            i <= digits@.len(),
            decimal_value(digits@.take(i as int)) == Some(n as int),
            digits@.len() > 0,
            number(word@) == (match decimal_value(digits@) {
                Some(m) => if m <= usize::MAX {
                    Some(m as usize)
                } else {
                    None
                },
                None => None,
            }),
        decreases digits@.len() - i,
    {
        let c: char = digits[i];
        let ghost longer = digits@.take(i + 1);
        proof {
            assert(longer.drop_last() =~= digits@.take(i as int));
            assert(longer.last() == c);
            a_bad_start_stays_bad(digits@, i + 1);
        }
        if !('0' <= c && c <= '9') {
            return None;
        }
        let digit: usize = (c as u32 - 48) as usize;
        match n.checked_mul(10) {
            None => {
                return None;
            },
            Some(tens) => match tens.checked_add(digit) {
                None => {
                    return None;
                },
                Some(sum) => {
                    n = sum;
                },
            },
        }
        i = i + 1;
    }
    assert(digits@.take(i as int) =~= digits@);
    Some(n)
}

/// The resident set size in kibibytes, from the description of the process.
///
/// There is none if no line gives it, or the first that does gives no number.
pub fn parse_rss_kib(status: &str) -> (kib: Option<usize>)
    ensures
        kib == rss_kib(status@),
{
    let text = chars_of(status);
    let label = chars_of("VmRSS:");
    let mut from: usize = 0;
    while from < text.len()
        invariant
            from <= text@.len() + 1,
            text@ == status@,
            label@ == "VmRSS:"@,
            labelled_line(text@, label@, from as int) == labelled_line(text@, label@, 0),
        decreases text@.len() + 1 - from,
    {
        let end = find_line_end(&text, from);
        let line = part(&text, from, end);
        if begins_with(&line, &label) {
            let first = skip_space(&line, 0);
            let gap = skip_word(&line, first);
            let start = skip_space(&line, gap);
            if start >= line.len() {
                return None;
            }
            let stop = skip_word(&line, start);
            return parse_number(&part(&line, start, stop));
        }
        if end == text.len() {
            assert(labelled_line(text@, label@, end + 1) is None);
            return None;
        }
        from = end + 1;
    }
    None
}

/// The resident set size in bytes, from the description of the process.
pub fn parse_rss_bytes(status: &str) -> (bytes: Option<usize>)
    requires
        rss_kib(status@) matches Some(kib) ==> kib * 1024 <= usize::MAX,
    ensures
        match rss_kib(status@) {
            Some(kib) => bytes == Some((kib * 1024) as usize),
            None => bytes is None,
        },
{
    match parse_rss_kib(status) {
        Some(kib) => Some(kib * 1024),
        None => None,
    }
}

/// The resident set size that the Mach kernel reported, if its call succeeded.
pub fn mach_rss_bytes(status: i32, resident_size: u64) -> (bytes: Option<usize>)
    ensures
        bytes == (if status == 0 {
            Some(resident_size as usize)
        } else {
            None
        }),
{
    if status == 0 {
        Some(resident_size as usize)
    } else {
        None
    }
}

/// A number of bytes as a predicate answers with it. One that is not known is a
/// failure.
pub fn bytes_or_fail(bytes: Option<usize>) -> (answer: Result<u64, PrologError>)
    ensures
        answer == (match bytes {
            Some(n) => Ok(n as u64),
            None => Err(PrologError::Failure),
        }),
{
    match bytes {
        Some(n) => Ok(n as u64),
        None => Err(PrologError::Failure),
    }
}

// ---- laws ----

/// White space is what Unicode says it is, character by character.
pub proof fn white_space_is_that_of_unicode(c: char)
    ensures
        is_space(c) <==> {
            let n = c as int;
            ||| n == 0x9 || n == 0xa || n == 0xb || n == 0xc || n == 0xd || n == 0x20 || n == 0x85 || n == 0xa0
            ||| n == 0x1680 || n == 0x2000 || n == 0x2001 || n == 0x2002 || n == 0x2003 || n == 0x2004 || n == 0x2005
            ||| n == 0x2006 || n == 0x2007 || n == 0x2008 || n == 0x2009 || n == 0x200a || n == 0x2028 || n == 0x2029
            ||| n == 0x202f || n == 0x205f || n == 0x3000
        },
{
}

/// A line starts at position `a`.
pub open spec fn line_starts(text: Seq<char>, a: int) -> bool {
    0 <= a < text.len() && (a == 0 || text[a - 1] == '\n')
}

/// What stands from position `a` on is the label.
pub open spec fn label_stands(text: Seq<char>, label: Seq<char>, a: int) -> bool {
    a + label.len() <= text.len() && forall|k: int| 0 <= k < label.len() ==> text[a + k] == #[trigger] label[k]
}

/// The first line with the label goes from position `a` up to position `e`.
pub open spec fn is_first_labelled(text: Seq<char>, label: Seq<char>, a: int, e: int) -> bool {
    &&& line_starts(text, a)
    &&& label_stands(text, label, a)
    &&& forall|b: int| 0 <= b < a && line_starts(text, b) ==> !(#[trigger] label_stands(text, label, b))
    &&& a <= e <= text.len()
    &&& forall|k: int| a <= k < e ==> #[trigger] text[k] != '\n'
    &&& e == text.len() || text[e] == '\n'
}

/// The second word of the line from `a` up to `e` goes from `p` up to `q`: a
/// word from `a` up to `g`, white space up to `p`, and a word up to `q`.
pub open spec fn is_second_word(text: Seq<char>, a: int, e: int, g: int, p: int, q: int) -> bool {
    &&& a < g < p < q <= e
    &&& forall|k: int| a <= k < g ==> !is_space(#[trigger] text[k])
    &&& forall|k: int| g <= k < p ==> is_space(#[trigger] text[k])
    &&& forall|k: int| p <= k < q ==> !is_space(#[trigger] text[k])
    &&& q == e || is_space(text[q])
}

proof fn a_line_ends_at_the_first_break(text: Seq<char>, from: int)
    requires
        0 <= from <= text.len(),
    ensures
        from <= line_end(text, from) <= text.len(),
        forall|k: int| from <= k < line_end(text, from) ==> #[trigger] text[k] != '\n',
        line_end(text, from) < text.len() ==> text[line_end(text, from)] == '\n',
    decreases text.len() - from,
{
    if from < text.len() && text[from] != '\n' {
        a_line_ends_at_the_first_break(text, from + 1);
    }
}

proof fn a_word_ends_at_the_first_space(line: Seq<char>, from: int)
    requires
        0 <= from <= line.len(),
    ensures
        from <= after_word(line, from) <= line.len(),
        forall|k: int| from <= k < after_word(line, from) ==> !is_space(#[trigger] line[k]),
        after_word(line, from) < line.len() ==> is_space(line[after_word(line, from)]),
    decreases line.len() - from,
{
    if from < line.len() && !is_space(line[from]) {
        a_word_ends_at_the_first_space(line, from + 1);
    }
}

proof fn space_ends_at_the_first_word(line: Seq<char>, from: int)
    requires
        0 <= from <= line.len(),
    ensures
        from <= after_space(line, from) <= line.len(),
        forall|k: int| from <= k < after_space(line, from) ==> is_space(#[trigger] line[k]),
        after_space(line, from) < line.len() ==> !is_space(line[after_space(line, from)]),
    decreases line.len() - from,
{
    if from < line.len() && is_space(line[from]) {
        space_ends_at_the_first_word(line, from + 1);
    }
}

/// The line starts with the label exactly if the label stands there.
proof fn a_label_stands_within_its_line(text: Seq<char>, label: Seq<char>, a: int)
    requires
        0 <= a < text.len(),
        forall|k: int| 0 <= k < label.len() ==> #[trigger] label[k] != '\n',
    ensures
        starts_with(text.subrange(a, line_end(text, a)), label) <==> label_stands(text, label, a),
{
    a_line_ends_at_the_first_break(text, a);
    let e = line_end(text, a);
    let line = text.subrange(a, e);
    if label_stands(text, label, a) {
        if e < a + label.len() {
            assert(text[e] == '\n');
            assert(text[a + (e - a)] == label[e - a]);
        }
        assert(line.take(label.len() as int) =~= label);
    }
    if starts_with(line, label) {
        assert forall|k: int| 0 <= k < label.len() implies text[a + k] == #[trigger] label[k] by {
            assert(line.take(label.len() as int)[k] == label[k]);
        }
    }
}

/// From the start of a line, the line that is found is the first labelled one
/// from there on; and none is found only if there is none.
proof fn the_first_labelled_line_is_found(text: Seq<char>, label: Seq<char>, from: int)
    requires
        from == text.len() || from == text.len() + 1 || line_starts(text, from),
        label.len() > 0,
        forall|k: int| 0 <= k < label.len() ==> #[trigger] label[k] != '\n',
    ensures
        match labelled_line(text, label, from) {
            Some(line) => exists|a: int|
                {
                    &&& from <= a < text.len()
                    &&& line_starts(text, a)
                    &&& #[trigger] label_stands(text, label, a)
                    &&& forall|b: int|
                        from <= b < a && line_starts(text, b) ==> !(#[trigger] label_stands(text, label, b))
                    &&& line == text.subrange(a, line_end(text, a))
                },
            None => forall|b: int|
                from <= b < text.len() && line_starts(text, b) ==> !(#[trigger] label_stands(text, label, b)),
        },
    decreases text.len() + 1 - from,
{
    if from < text.len() {
        a_line_ends_at_the_first_break(text, from);
        a_label_stands_within_its_line(text, label, from);
        let end = line_end(text, from);
        let next = end + 1;
        if label_stands(text, label, from) {
            assert(labelled_line(text, label, from) == Some(text.subrange(from, end)));
        } else {
            assert forall|b: int| from < b < next && b < text.len() implies !line_starts(text, b) by {
                assert(text[b - 1] != '\n');
            }
            the_first_labelled_line_is_found(text, label, next);
            assert(labelled_line(text, label, from) == labelled_line(text, label, next));
            if labelled_line(text, label, next) is None {
                assert forall|b: int| from <= b < text.len() && line_starts(text, b) implies !(
                #[trigger] label_stands(text, label, b)) by {
                    assert(b == from || b >= next);
                }
            } else {
                let line = labelled_line(text, label, next)->0;
                let a = choose|a: int|
                    {
                        &&& next <= a < text.len()
                        &&& line_starts(text, a)
                        &&& #[trigger] label_stands(text, label, a)
                        &&& forall|b: int|
                            next <= b < a && line_starts(text, b) ==> !(#[trigger] label_stands(text, label, b))
                        &&& line == text.subrange(a, line_end(text, a))
                    };
                assert forall|b: int| from <= b < a && line_starts(text, b) implies !(
                #[trigger] label_stands(text, label, b)) by {
                    assert(b == from || b >= next);
                }
            }
        }
    }
}

proof fn the_label_has_no_break()
    ensures
        "VmRSS:"@.len() == 6,
        forall|k: int| 0 <= k < 6 ==> #[trigger] "VmRSS:"@[k] != '\n',
        forall|k: int| 0 <= k < 6 ==> !is_space(#[trigger] "VmRSS:"@[k]),
{
    reveal_strlit("VmRSS:");
}

/// Where the line and its second word are fixes what is read.
proof fn the_second_word_is_read(text: Seq<char>, a: int, e: int, g: int, p: int, q: int)
    requires
        is_first_labelled(text, "VmRSS:"@, a, e),
        is_second_word(text, a, e, g, p, q),
    ensures
        rss_kib(text) == number(text.subrange(p, q)),
{
    let label = "VmRSS:"@;
    the_label_has_no_break();
    the_first_labelled_line_is_found(text, label, 0);
    assert(label_stands(text, label, a));
    let line = labelled_line(text, label, 0)->0;
    let b = choose|b: int|
        {
            &&& 0 <= b < text.len()
            &&& line_starts(text, b)
            &&& #[trigger] label_stands(text, label, b)
            &&& forall|c: int| 0 <= c < b && line_starts(text, c) ==> !(#[trigger] label_stands(text, label, c))
            &&& line == text.subrange(b, line_end(text, b))
        };
    assert(b == a);
    a_line_ends_at_the_first_break(text, a);
    assert(line_end(text, a) == e) by {
        if line_end(text, a) < e {
            assert(text[line_end(text, a)] != '\n');
        }
        if e < line_end(text, a) {
            assert(text[e] != '\n');
        }
    }
    space_ends_at_the_first_word(line, 0);
    assert(line[0] == text[a]);
    let first = after_space(line, 0);
    assert(first == 0);
    a_word_ends_at_the_first_space(line, 0);
    let gap = after_word(line, 0);
    assert(gap == g - a) by {
        if gap < g - a {
            assert(line[gap] == text[a + gap]);
        }
        if g - a < gap {
            assert(line[g - a] == text[g]);
        }
    }
    space_ends_at_the_first_word(line, gap);
    let start = after_space(line, gap);
    assert(start == p - a) by {
        if start < p - a {
            assert(line[start] == text[a + start]);
        }
        if p - a < start {
            assert(line[p - a] == text[p]);
        }
    }
    a_word_ends_at_the_first_space(line, start);
    let stop = after_word(line, start);
    assert(stop == q - a) by {
        if stop < q - a {
            assert(line[stop] == text[a + stop]);
        }
        if q - a < stop {
            assert(line[q - a] == text[q]);
        }
    }
    assert(line.subrange(start, stop) =~= text.subrange(p, q));
}

/// What is read is the second word of the first line that starts with the
/// label, if it is a number, and nothing else is read.
pub proof fn the_size_is_the_second_word_of_its_line(status: &str, kib: Option<usize>)
    requires
        call_ensures(parse_rss_kib, (status,), kib),
    ensures
        kib matches Some(n) ==> exists|a: int, e: int, g: int, p: int, q: int|
            {
                &&& #[trigger] is_first_labelled(status@, "VmRSS:"@, a, e)
                &&& #[trigger] is_second_word(status@, a, e, g, p, q)
                &&& number(status@.subrange(p, q)) == Some(n)
            },
        forall|a: int, e: int, g: int, p: int, q: int| #[trigger]
            is_first_labelled(status@, "VmRSS:"@, a, e) && #[trigger] is_second_word(status@, a, e, g, p, q) ==> kib
                == number(status@.subrange(p, q)),
{
    let text = status@;
    let label = "VmRSS:"@;
    assert forall|a: int, e: int, g: int, p: int, q: int| #[trigger]
        is_first_labelled(text, label, a, e) && #[trigger] is_second_word(text, a, e, g, p, q) implies kib == number(
        text.subrange(p, q),
    ) by {
        the_second_word_is_read(text, a, e, g, p, q);
    }
    if kib is Some {
        the_label_has_no_break();
        the_first_labelled_line_is_found(text, label, 0);
        let line = labelled_line(text, label, 0)->0;
        let a = choose|a: int|
            {
                &&& 0 <= a < text.len()
                &&& line_starts(text, a)
                &&& #[trigger] label_stands(text, label, a)
                &&& forall|b: int| 0 <= b < a && line_starts(text, b) ==> !(#[trigger] label_stands(text, label, b))
                &&& line == text.subrange(a, line_end(text, a))
            };
        a_line_ends_at_the_first_break(text, a);
        a_label_stands_within_its_line(text, label, a);
        let e = line_end(text, a);
        assert(is_first_labelled(text, label, a, e));
        assert(text[a + 0] == label[0]);
        space_ends_at_the_first_word(line, 0);
        assert(line[0] == text[a]);
        a_word_ends_at_the_first_space(line, 0);
        let g = a + after_word(line, 0);
        space_ends_at_the_first_word(line, g - a);
        let p = a + after_space(line, g - a);
        a_word_ends_at_the_first_space(line, p - a);
        let q = a + after_word(line, p - a);
        assert(is_second_word(text, a, e, g, p, q)) by {
            assert forall|k: int| a <= k < g implies !is_space(#[trigger] text[k]) by {
                assert(line[k - a] == text[k]);
            }
            assert forall|k: int| g <= k < p implies is_space(#[trigger] text[k]) by {
                assert(line[k - a] == text[k]);
            }
            assert forall|k: int| p <= k < q implies !is_space(#[trigger] text[k]) by {
                assert(line[k - a] == text[k]);
            }
            if q < e {
                assert(line[q - a] == text[q]);
            }
            assert(line[p - a] == text[p]);
            assert(g < e ==> line[g - a] == text[g]);
        }
        the_second_word_is_read(text, a, e, g, p, q);
    }
}

/// A number is written with decimal digits: one digit is its value, a digit
/// behind a number makes it ten times as much and the digit, as long as that
/// fits, and what is no number stays none however it goes on.
pub proof fn a_number_grows_by_its_digits(word: Seq<char>, c: char)
    ensures
        number(Seq::<char>::empty()) is None,
        '0' <= c <= '9' ==> number(seq![c]) == Some((c as int - '0' as int) as usize),
        !('0' <= c <= '9') ==> number(seq![c]) is None,
        !('0' <= c <= '9') && word.len() > 0 ==> number(word.push(c)) is None,
        number(word) matches Some(n) ==> ('0' <= c <= '9' ==> {
            let grown = 10 * n + (c as int - '0' as int);
            &&& grown <= usize::MAX ==> number(word.push(c)) == Some(grown as usize)
            &&& grown > usize::MAX ==> number(word.push(c)) is None
        }),
        word.len() > 0 && word != seq!['+'] && number(word) is None ==> number(word.push(c)) is None,
{
    let signed = word.len() > 0 && word[0] == '+';
    let digits = if signed {
        word.skip(1)
    } else {
        word
    };
    let longer = word.push(c);
    if word.len() > 0 {
        let more = digits.push(c);
        assert(more.drop_last() =~= digits);
        assert(more.last() == c);
        if signed {
            assert(longer.skip(1) =~= more);
            if digits.len() == 0 {
                assert(word =~= seq!['+']);
            }
        }
        decimal_value_is_natural(digits);
    }
    let one = seq![c];
    assert(one.drop_last() =~= Seq::<char>::empty());
    assert(one.last() == c);
    if c == '+' {
        assert(one.skip(1) =~= Seq::<char>::empty());
    }
}

/// A plus sign in front of digits changes nothing; alone it is no number.
pub proof fn a_plus_sign_changes_nothing(word: Seq<char>)
    requires
        word.len() == 0 || word[0] != '+',
    ensures
        number(seq!['+'] + word) == number(word),
{
    assert((seq!['+'] + word).skip(1) =~= word);
}

/// A kibibyte has 1024 bytes.
pub proof fn a_kibibyte_has_1024_bytes(status: &str, kib: Option<usize>, bytes: Option<usize>)
    requires
        call_ensures(parse_rss_kib, (status,), kib),
        call_ensures(parse_rss_bytes, (status,), bytes),
        kib matches Some(n) ==> n * 1024 <= usize::MAX,
    ensures
        kib is None ==> bytes is None,
        kib matches Some(n) ==> (bytes matches Some(m) && m == n * 1024),
{
}

/// What the Mach kernel reports counts if its call succeeded.
pub proof fn the_kernel_is_believed_if_it_succeeded(status: i32, resident_size: u64, bytes: Option<usize>)
    requires
        call_ensures(mach_rss_bytes, (status, resident_size), bytes),
    ensures
        bytes is Some <==> status == 0,
        bytes matches Some(n) ==> (resident_size <= usize::MAX ==> n == resident_size),
{
}

/// A size that is known is answered as it is, and one that is not fails.
pub proof fn an_unknown_size_fails(bytes: Option<usize>, answer: Result<u64, PrologError>)
    requires
        call_ensures(bytes_or_fail, (bytes,), answer),
    ensures
        bytes matches Some(n) ==> (answer matches Ok(m) && m == n),
        bytes is None ==> answer == Err::<u64, PrologError>(PrologError::Failure),
{
}

} // verus!
