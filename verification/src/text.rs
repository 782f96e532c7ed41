//! Text helpers that the rules and the report share: searching in a text,
//! joining texts, cutting a text into lines and writing a number in decimal.
//!
//! Every contract speaks of a text as the sequence of its characters.

use vstd::prelude::*;
use vstd::string::*;

verus! {

/// `pattern` stands in `text`, starting at position `at`.
pub open spec fn occurs_at(pattern: Seq<char>, text: Seq<char>, at: int) -> bool {
    &&& 0 <= at
    &&& at + pattern.len() <= text.len()
    &&& text.subrange(at, at + pattern.len()) == pattern
}

/// `pattern` stands somewhere in `text`. The empty pattern stands in every text.
pub open spec fn occurs_in(pattern: Seq<char>, text: Seq<char>) -> bool {
    exists|at: int| occurs_at(pattern, text, at)
}

/// The character that writes the digit `d`; `'9'` from nine on.
pub open spec fn digit(d: nat) -> char {
    if d == 0 {
        '0'
    } else if d == 1 {
        '1'
    } else if d == 2 {
        '2'
    } else if d == 3 {
        '3'
    } else if d == 4 {
        '4'
    } else if d == 5 {
        '5'
    } else if d == 6 {
        '6'
    } else if d == 7 {
        '7'
    } else if d == 8 {
        '8'
    } else {
        '9'
    }
}

/// `n` written in base ten, without leading zeros.
pub open spec fn decimal_text(n: nat) -> Seq<char>
    decreases n,
{
    if n < 10 {
        seq![digit(n)]
    } else {
        decimal_text(n / 10).push(digit(n % 10))
    }
}

/// `relative` placed under the directory `root`: the two are joined by one
/// `/`, which is left out where `root` is empty or already ends in one.
pub open spec fn joined_path(root: Seq<char>, relative: Seq<char>) -> Seq<char> {
    if root.len() == 0 {
        relative
    } else if root.last() == '/' {
        root + relative
    } else {
        root + seq!['/'] + relative
    }
}

/// `parts` written one after the other with `separator` between neighbours.
pub open spec fn joined(parts: Seq<Seq<char>>, separator: Seq<char>) -> Seq<char>
    decreases parts.len(),
{
    if parts.len() == 0 {
        Seq::empty()
    } else if parts.len() == 1 {
        parts[0]
    } else {
        joined(parts.drop_last(), separator) + separator + parts.last()
    }
}

/// `line` without the carriage return that it may end in.
pub open spec fn without_return(line: Seq<char>) -> Seq<char> {
    if line.len() > 0 && line.last() == '\r' {
        line.drop_last()
    } else {
        line
    }
}

/// The position of the first line feed of `text`, or the length of `text`
/// where it holds none.
pub open spec fn line_end(text: Seq<char>) -> int
    decreases text.len(),
{
    if text.len() == 0 {
        0
    } else if text[0] == '\n' {
        0
    } else {
        1 + line_end(text.skip(1))
    }
}

/// The lines of `text`. A line ends at a line feed; the line feed, and a
/// carriage return just before it, belong to no line. What follows the last
/// line feed is a line of its own unless it is empty, and keeps a carriage
/// return that it ends in.
pub open spec fn lines_of(text: Seq<char>) -> Seq<Seq<char>>
    decreases text.len(),
    via lines_of_decreases
{
    if text.len() == 0 {
        Seq::empty()
    } else if line_end(text) >= text.len() {
        seq![text]
    } else {
        seq![without_return(text.take(line_end(text)))] + lines_of(text.skip(line_end(text) + 1))
    }
}

#[via_fn]
proof fn lines_of_decreases(text: Seq<char>) {
    lemma_line_end(text);
}

/// `line_end` lies within the text, stands before a line feed unless it is
/// the length of the text, and no line feed stands before it.
pub proof fn lemma_line_end(text: Seq<char>)
    ensures
        0 <= line_end(text) <= text.len(),
        line_end(text) < text.len() ==> text[line_end(text)] == '\n',
        forall|i: int| 0 <= i < line_end(text) ==> text[i] != '\n',
    decreases text.len(),
{
    if text.len() > 0 && text[0] != '\n' {
        let rest = text.skip(1);
        lemma_line_end(rest);
        assert forall|i: int| 0 <= i < line_end(text) implies text[i] != '\n' by {
            if i > 0 {
                assert(text[i] == rest[i - 1]);
            }
        }
    }
}

/// The position of the first line feed is the one before which none stands.
pub proof fn lemma_line_end_is(text: Seq<char>, at: int)
    requires
        0 <= at <= text.len(),
        forall|i: int| 0 <= i < at ==> text[i] != '\n',
        at < text.len() ==> text[at] == '\n',
    ensures
        line_end(text) == at,
{
    lemma_line_end(text);
    let end = line_end(text);
    if end < at {
        assert(text[end] == '\n');
    } else if at < end {
        assert(text[at] == '\n');
    }
}

/// The characters of `s`, in order.
pub fn chars_of(s: &str) -> (chars: Vec<char>)
    ensures
        chars@ == s@,
{
    let mut chars: Vec<char> = Vec::new();
    for c in it: s.chars()
        invariant
            chars@ == it.seq().take(it.index()),
            it.seq() == s@,
    {
        chars.push(c);
    }
    chars
}

/// Calls `String::from_iter` of std on the characters of the vector: the
/// text that holds exactly these characters, in this order.
#[verifier::external_body]
pub(crate) fn text_of(chars: &Vec<char>) -> (text: String)
    ensures
        text@ == chars@,
{
    String::from_iter(chars.iter())
}

/// Whether `pattern` stands in `text` at `at`.
fn matches_at(text: &Vec<char>, pattern: &Vec<char>, at: usize) -> (found: bool)
    requires
        at + pattern.len() <= text.len(),
    ensures
        found == occurs_at(pattern@, text@, at as int),
{
    let mut k: usize = 0;
    while k < pattern.len()
        invariant
            at + pattern.len() <= text.len(),
            k <= pattern.len(),
            forall|j: int| 0 <= j < k ==> text@[at + j] == pattern@[j],
        decreases pattern.len() - k,
    {
        if text[at + k] != pattern[k] {
            assert(text@.subrange(at as int, at + pattern.len())[k as int] != pattern@[k as int]);
            return false;
        }
        k += 1;
    }
    assert(text@.subrange(at as int, at + pattern.len()) =~= pattern@);
    true
}

/// Whether `text` ends in `suffix`.
pub fn ends_with(text: &str, suffix: &str) -> (found: bool)
    ensures
        found == suffix@.is_suffix_of(text@),
{
    let whole = chars_of(text);
    let tail = chars_of(suffix);
    if tail.len() > whole.len() {
        false
    } else {
        matches_at(&whole, &tail, whole.len() - tail.len())
    }
}

/// Whether `pattern` stands somewhere in `text`.
pub fn contains(text: &str, pattern: &str) -> (found: bool)
    ensures
        found == occurs_in(pattern@, text@),
{
    let whole = chars_of(text);
    let part = chars_of(pattern);
    if part.len() > whole.len() {
        return false;
    }
    let last: usize = whole.len() - part.len();
    let mut at: usize = 0;
    while at < last
        invariant
            whole@ == text@,
            part@ == pattern@,
            last == whole.len() - part.len(),
            at <= last,
            forall|k: int| 0 <= k < at ==> !occurs_at(part@, whole@, k),
        decreases last - at,
    {
        if matches_at(&whole, &part, at) {
            return true;
        }
        at += 1;
    }
    matches_at(&whole, &part, last)
}

/// `relative` placed under the directory `root`.
pub fn join_path(root: &str, relative: &str) -> (path: String)
    ensures
        path@ == joined_path(root@, relative@),
{
    let base = chars_of(root);
    let mut path = String::from_str(root);
    if base.len() > 0 && base[base.len() - 1] != '/' {
        proof {
            reveal_strlit("/");
            assert("/"@ =~= seq!['/']);
        }
        path.append("/");
    }
    path.append(relative);
    assert(path@ =~= joined_path(root@, relative@));
    path
}

/// `parts` written one after the other with `separator` between neighbours.
pub fn join(parts: &Vec<String>, separator: &str) -> (text: String)
    ensures
        text@ == joined(parts.deep_view(), separator@),
{
    let mut text = String::new();
    let mut i: usize = 0;
    while i < parts.len()
        invariant
            i <= parts.len(),
            text@ == joined(parts.deep_view().take(i as int), separator@),
        decreases parts.len() - i,
    {
        let ghost before = parts.deep_view().take(i as int);
        let ghost after = parts.deep_view().take(i + 1);
        assert(after.drop_last() =~= before);
        assert(after.last() == parts@[i as int]@);
        if i > 0 {
            text.append(separator);
        }
        text.append(parts[i].as_str());
        assert(text@ =~= joined(after, separator@));
        i += 1;
    }
    assert(parts.deep_view().take(parts.len() as int) =~= parts.deep_view());
    text
}

/// The character that writes the digit `d`.
fn digit_of(d: usize) -> (c: char)
    requires
        d < 10,
    ensures
        c == digit(d as nat),
{
    if d == 0 {
        '0'
    } else if d == 1 {
        '1'
    } else if d == 2 {
        '2'
    } else if d == 3 {
        '3'
    } else if d == 4 {
        '4'
    } else if d == 5 {
        '5'
    } else if d == 6 {
        '6'
    } else if d == 7 {
        '7'
    } else if d == 8 {
        '8'
    } else {
        '9'
    }
}

/// Appends the digits of `n` to `digits`.
fn push_decimal(n: usize, digits: &mut Vec<char>)
    ensures
        final(digits)@ == old(digits)@ + decimal_text(n as nat),
    decreases n,
{
    if n >= 10 {
        push_decimal(n / 10, digits);
    }
    digits.push(digit_of(n % 10));
    assert(digits@ =~= old(digits)@ + decimal_text(n as nat));
}

/// `n` written in base ten, without leading zeros.
pub fn decimal(n: usize) -> (text: String)
    ensures
        text@ == decimal_text(n as nat),
{
    let mut digits: Vec<char> = Vec::new();
    push_decimal(n, &mut digits);
    assert(digits@ =~= decimal_text(n as nat));
    text_of(&digits)
}

/// What `lines_of` makes of a text in which a line feed stands at `at` and
/// none before it.
proof fn lemma_lines_step(text: Seq<char>, at: int)
    requires
        0 <= at < text.len(),
        text[at] == '\n',
        forall|i: int| 0 <= i < at ==> text[i] != '\n',
    ensures
        lines_of(text) == seq![without_return(text.take(at))] + lines_of(text.skip(at + 1)),
{
    lemma_line_end_is(text, at);
}

/// What `lines_of` makes of a text that holds no line feed.
proof fn lemma_lines_last(text: Seq<char>)
    requires
        forall|i: int| 0 <= i < text.len() ==> text[i] != '\n',
    ensures
        lines_of(text) == if text.len() == 0 {
            Seq::<Seq<char>>::empty()
        } else {
            seq![text]
        },
{
    lemma_line_end_is(text, text.len() as int);
}

/// The lines of `text`, as `str::lines` of std cuts them.
pub fn lines(text: &str) -> (found: Vec<String>)
    ensures
        found.deep_view() == lines_of(text@),
{
    let chars = chars_of(text);
    let mut found: Vec<String> = Vec::new();
    let mut line: Vec<char> = Vec::new();
    let mut i: usize = 0;
    assert(chars@.skip(0) =~= chars@);
    while i < chars.len()
        invariant
            i <= chars.len(),
            line.len() <= i,
            line@ == chars@.subrange(i - line.len(), i as int),
            forall|k: int| 0 <= k < line.len() ==> line@[k] != '\n',
            lines_of(chars@) == found.deep_view() + lines_of(chars@.skip(i - line.len())),
        decreases chars.len() - i,
    {
        let c = chars[i];
        if c == '\n' {
            let ghost start = i - line.len();
            let ghost rest = chars@.skip(start);
            proof {
                assert forall|k: int| 0 <= k < line.len() implies rest[k] != '\n' by {
                    assert(rest[k] == line@[k]);
                }
                lemma_lines_step(rest, line.len() as int);
                assert(rest.take(line.len() as int) =~= line@);
                assert(rest.skip(line.len() + 1) =~= chars@.skip(i + 1));
            }
            if line.len() > 0 && line[line.len() - 1] == '\r' {
                line.pop();
            }
            let ghost before = found.deep_view();
            found.push(text_of(&line));
            assert(found.deep_view() =~= before + seq![line@]);
            line = Vec::new();
            assert(chars@.subrange(i + 1, i + 1) =~= line@);
        } else {
            let ghost previous = line@;
            line.push(c);
            assert(line@ =~= chars@.subrange(i + 1 - line.len(), i + 1));
        }
        i += 1;
    }
    proof {
        let rest = chars@.skip(i - line.len());
        assert(rest =~= line@);
        lemma_lines_last(rest);
    }
    if line.len() > 0 {
        let ghost before = found.deep_view();
        found.push(text_of(&line));
        assert(found.deep_view() =~= before + seq![line@]);
    }
    assert(found.deep_view() =~= lines_of(chars@));
    found
}

} // verus!
