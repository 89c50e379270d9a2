//! Pure functions over generated text: the last line, the follow-up question
//! and the final answer, with one shared trimming rule.

use crate::error::{text_result_view, AgentError, AgentErrorView, Malformation};
use vstd::prelude::*;

verus! {

/// Marks a line in which the generator asks for more information.
pub const FOLLOW_UP_MARKER: &'static str = "Follow up:";

/// Marks the line that holds the generator's conclusion.
pub const FINAL_ANSWER_MARKER: &'static str = "So the final answer is:";

/// The model of a text that may be missing.
pub open spec fn optional_text(value: Option<String>) -> Option<Seq<char>> {
    match value {
        Some(text) => Some(text@),
        None => None,
    }
}

/// The index just behind the last `c` in `s`, and zero where `c` does not occur.
pub open spec fn after_last(s: Seq<char>, c: char) -> int
    decreases s.len(),
{
    if s.len() == 0 {
        0
    } else if s.last() == c {
        s.len() as int
    } else {
        after_last(s.drop_last(), c)
    }
}

/// What stands behind the last `c` in `s`: all of `s` where `c` does not occur.
pub open spec fn tail_after_last(s: Seq<char>, c: char) -> Seq<char> {
    s.subrange(after_last(s, c), s.len() as int)
}

/// `text` without the line terminator at its very end, if there is one: a line
/// feed, together with a carriage return directly in front of it.
pub open spec fn without_line_ending(text: Seq<char>) -> Seq<char> {
    if text.len() > 0 && text.last() == '\n' {
        let body = text.drop_last();
        if body.len() > 0 && body.last() == '\r' {
            body.drop_last()
        } else {
            body
        }
    } else {
        text
    }
}

/// The final line of `text`, without its terminator. A text without a line
/// feed is its own last line.
pub open spec fn last_line_of(text: Seq<char>) -> Seq<char> {
    tail_after_last(without_line_ending(text), '\n')
}

/// `needle` stands in `hay` at index `at`.
pub open spec fn occurs_at(hay: Seq<char>, needle: Seq<char>, at: int) -> bool {
    0 <= at && at + needle.len() <= hay.len() && hay.subrange(at, at + needle.len()) == needle
}

/// `needle` stands somewhere in `hay`.
pub open spec fn occurs_in(hay: Seq<char>, needle: Seq<char>) -> bool {
    exists|at: int| occurs_at(hay, needle, at)
}

/// `s` without one leading space.
pub open spec fn without_leading_space(s: Seq<char>) -> Seq<char> {
    if s.len() > 0 && s[0] == ' ' {
        s.drop_first()
    } else {
        s
    }
}

/// `s` without one trailing full stop.
pub open spec fn without_trailing_period(s: Seq<char>) -> Seq<char> {
    if s.len() > 0 && s.last() == '.' {
        s.drop_last()
    } else {
        s
    }
}

/// The trimming rule that both extractions share: what stands behind the last
/// colon of the last line, without one leading space.
pub open spec fn closing_segment(text: Seq<char>) -> Seq<char> {
    without_leading_space(tail_after_last(last_line_of(text), ':'))
}

/// The final answer that `text` holds.
pub open spec fn final_answer_of(text: Seq<char>) -> Seq<char> {
    without_trailing_period(closing_segment(text))
}

/// The last line of `text` asks a follow-up question.
pub open spec fn asks_follow_up(text: Seq<char>) -> bool {
    occurs_in(last_line_of(text), FOLLOW_UP_MARKER@)
}

/// The follow-up question that `text` holds, or the way in which it is malformed.
pub open spec fn follow_up_question_of(text: Seq<char>) -> Result<Seq<char>, Malformation> {
    if !asks_follow_up(text) {
        Err(Malformation::MissingFollowUpMarker)
    } else if closing_segment(text).len() == 0 || closing_segment(text).last() != '?' {
        Err(Malformation::MissingQuestionMark)
    } else {
        Ok(closing_segment(text))
    }
}

/// `after_last` cuts `s` just behind its last `c`: no `c` follows the cut, a
/// `c` stands right in front of it unless the cut is at the start, and the
/// cut is at the start exactly where `s` holds no `c`.
pub proof fn lemma_after_last_cuts(s: Seq<char>, c: char)
    ensures
        0 <= after_last(s, c) <= s.len(),
        forall|j: int| after_last(s, c) <= j < s.len() ==> s[j] != c,
        after_last(s, c) > 0 ==> s[after_last(s, c) - 1] == c,
        after_last(s, c) == 0 <==> !s.contains(c),
        !tail_after_last(s, c).contains(c),
    decreases s.len(),
{
    if s.len() > 0 && s.last() != c {
        let front = s.drop_last();
        lemma_after_last_cuts(front, c);
        assert forall|j: int| after_last(s, c) <= j < s.len() implies s[j] != c by {
            if j < front.len() {
                assert(s[j] == front[j]);
            }
        }
        if s.contains(c) {
            let i = choose|i: int| 0 <= i < s.len() && s[i] == c;
            assert(front[i] == c);
        }
    }
}

/// A text without a line feed is its own last line.
pub proof fn lemma_single_line_is_its_own_last_line(text: Seq<char>)
    requires
        !text.contains('\n'),
    ensures
        last_line_of(text) == text,
{
    lemma_after_last_cuts(text, '\n');
}

/// The last line of a text is one line and the final one: it holds no line
/// feed, it ends the text but for the closing terminator, and what stands in
/// front of it is nothing or ends in a line feed.
pub proof fn lemma_last_line_is_the_final_line(text: Seq<char>)
    ensures
        !last_line_of(text).contains('\n'),
        last_line_of(text).is_suffix_of(without_line_ending(text)),
        ({
            let body = without_line_ending(text);
            let front = body.len() - last_line_of(text).len();
            front > 0 ==> body[front - 1] == '\n'
        }),
{
    lemma_after_last_cuts(without_line_ending(text), '\n');
}

/// The shared trimming rule yields one segment of one line: the closing
/// segment holds neither a colon nor a line feed, and so does the final answer.
pub proof fn lemma_closing_segment_is_plain(text: Seq<char>)
    ensures
        !closing_segment(text).contains(':'),
        !closing_segment(text).contains('\n'),
        !final_answer_of(text).contains(':'),
        !final_answer_of(text).contains('\n'),
{
    lemma_last_line_is_the_final_line(text);
    lemma_after_last_cuts(last_line_of(text), ':');
}

/// Extracting the final answer leaves clean text alone: a single line with no
/// colon, no leading space and no trailing full stop is its own final answer.
pub proof fn lemma_clean_answer_is_kept(text: Seq<char>)
    requires
        !text.contains('\n'),
        !text.contains(':'),
        text.len() > 0 ==> text[0] != ' ' && text.last() != '.',
    ensures
        final_answer_of(text) == text,
{
    lemma_single_line_is_its_own_last_line(text);
    lemma_after_last_cuts(text, ':');
}

/// A follow-up question that was extracted comes from a last line with the
/// marker, ends in a question mark, and is one segment of that line.
pub proof fn lemma_question_is_well_formed(text: Seq<char>)
    requires
        follow_up_question_of(text) is Ok,
    ensures
        asks_follow_up(text),
        follow_up_question_of(text)->Ok_0 == closing_segment(text),
        closing_segment(text).len() > 0,
        closing_segment(text).last() == '?',
        !closing_segment(text).contains(':'),
        !closing_segment(text).contains('\n'),
{
    lemma_closing_segment_is_plain(text);
}

/// The characters of `text`, in order.
pub fn to_chars(text: &str) -> (chars: Vec<char>)
    ensures
        chars@ == text@,
{
    let mut chars: Vec<char> = Vec::new();
    let source = text.chars();
    for c in it: source
        invariant
            it.seq() == text@,
            chars@ == it.seq().take(it.index()),
    {
        chars.push(c);
    }
    chars
}

/// Scans the window `lo..hi` of `chars` backwards for `c`.
fn index_after_last(chars: &Vec<char>, lo: usize, hi: usize, c: char) -> (k: usize)
    requires
        lo <= hi <= chars.len(),
    ensures
        lo <= k <= hi,
        k - lo == after_last(chars@.subrange(lo as int, hi as int), c),
{
    let mut i = hi;
    while i > lo && chars[i - 1] != c
        invariant
            lo <= i <= hi <= chars.len(),
            after_last(chars@.subrange(lo as int, hi as int), c) == after_last(
                chars@.subrange(lo as int, i as int),
                c,
            ),
        decreases i,
    {
        proof {
            assert(chars@.subrange(lo as int, i as int).drop_last() =~= chars@.subrange(
                lo as int,
                i - 1,
            ));
        }
        i -= 1;
    }
    i
}

/// The window of `chars` that holds its last line.
fn last_line_bounds(chars: &Vec<char>) -> (bounds: (usize, usize))
    ensures
        bounds.0 <= bounds.1 <= chars.len(),
        chars@.subrange(bounds.0 as int, bounds.1 as int) == last_line_of(chars@),
{
    let mut end = chars.len();
    if end > 0 && chars[end - 1] == '\n' {
        end -= 1;
        if end > 0 && chars[end - 1] == '\r' {
            end -= 1;
        }
    }
    proof {
        assert(chars@.subrange(0, end as int) =~= without_line_ending(chars@));
    }
    let start = index_after_last(chars, 0, end, '\n');
    (start, end)
}

/// The window of `chars` that holds its closing segment.
fn closing_segment_bounds(chars: &Vec<char>) -> (bounds: (usize, usize))
    ensures
        bounds.0 <= bounds.1 <= chars.len(),
        chars@.subrange(bounds.0 as int, bounds.1 as int) == closing_segment(chars@),
{
    let (line_start, line_end) = last_line_bounds(chars);
    let colon_end = index_after_last(chars, line_start, line_end, ':');
    if colon_end < line_end && chars[colon_end] == ' ' {
        (colon_end + 1, line_end)
    } else {
        (colon_end, line_end)
    }
}

/// `needle` stands in `hay` at index `at`.
fn matches_at(hay: &Vec<char>, at: usize, needle: &Vec<char>) -> (matches: bool)
    requires
        at + needle.len() <= hay.len(),
    ensures
        matches == (hay@.subrange(at as int, at + needle.len()) == needle@),
{
    let ghost window = hay@.subrange(at as int, at + needle.len());
    let mut j: usize = 0;
    while j < needle.len()
        invariant
            j <= needle.len(),
            at + needle.len() <= hay.len(),
            window == hay@.subrange(at as int, at + needle.len()),
            forall|k: int| 0 <= k < j ==> window[k] == needle@[k],
        decreases needle.len() - j,
    {
        if hay[at + j] != needle[j] {
            return false;
        }
        j += 1;
    }
    assert(window =~= needle@);
    true
}

/// `needle` stands somewhere in the window `lo..hi` of `hay`.
fn window_holds(hay: &Vec<char>, lo: usize, hi: usize, needle: &Vec<char>) -> (found: bool)
    requires
        lo <= hi <= hay.len(),
    ensures
        found == occurs_in(hay@.subrange(lo as int, hi as int), needle@),
{
    let ghost window = hay@.subrange(lo as int, hi as int);
    let width = needle.len();
    if width > hi - lo {
        return false;
    }
    if width == 0 {
        assert(window.subrange(0, 0) =~= needle@);
        assert(occurs_at(window, needle@, 0));
        return true;
    }
    let last = hi - width;
    let mut at = lo;
    while at <= last
        invariant
            lo <= at <= last + 1,
            last + width == hi,
            hi <= hay.len(),
            width == needle.len(),
            width > 0,
            window == hay@.subrange(lo as int, hi as int),
            forall|p: int| 0 <= p < at - lo ==> !occurs_at(window, needle@, p),
        decreases last + 1 - at,
    {
        assert(window.subrange(at - lo, at - lo + width) =~= hay@.subrange(
            at as int,
            at + width,
        ));
        if matches_at(hay, at, needle) {
            assert(occurs_at(window, needle@, at - lo));
            return true;
        }
        at += 1;
    }
    false
}

/// The last line of `text`: the text itself where it holds no line feed, and
/// otherwise its final line without the terminator.
pub fn last_line(text: &str) -> (line: String)
    ensures
        line@ == last_line_of(text@),
{
    let chars = to_chars(text);
    let (start, end) = last_line_bounds(&chars);
    text.substring_char(start, end).to_owned()
}

/// Tells whether `pattern` stands somewhere in `text`.
pub fn contains_text(text: &str, pattern: &str) -> (found: bool)
    ensures
        found == occurs_in(text@, pattern@),
{
    let hay = to_chars(text);
    let needle = to_chars(pattern);
    assert(hay@.subrange(0, hay@.len() as int) =~= hay@);
    window_holds(&hay, 0, hay.len(), &needle)
}

/// Tells whether the last line of `text` holds the follow-up marker.
pub fn has_follow_up(text: &str) -> (found: bool)
    ensures
        found == asks_follow_up(text@),
{
    let chars = to_chars(text);
    let marker = to_chars(FOLLOW_UP_MARKER);
    let (start, end) = last_line_bounds(&chars);
    window_holds(&chars, start, end, &marker)
}

/// Tells whether `text` holds the final-answer marker, on whatever line.
pub fn has_final_answer(text: &str) -> (found: bool)
    ensures
        found == occurs_in(text@, FINAL_ANSWER_MARKER@),
{
    contains_text(text, FINAL_ANSWER_MARKER)
}

/// The final answer in `text`: what stands behind the last colon of its last
/// line, without one leading space and one trailing full stop. Any text has one.
pub fn extract_final_answer(text: &str) -> (answer: String)
    ensures
        answer@ == final_answer_of(text@),
{
    let chars = to_chars(text);
    let (start, end) = closing_segment_bounds(&chars);
    if start < end && chars[end - 1] == '.' {
        text.substring_char(start, end - 1).to_owned()
    } else {
        text.substring_char(start, end).to_owned()
    }
}

/// The follow-up question in `text`: what stands behind the last colon of its
/// last line, without one leading space. The last line must hold the follow-up
/// marker and the question must end in a question mark; text that breaks
/// either rule is reported as malformed.
pub fn extract_follow_up_question(text: &str) -> (question: Result<String, AgentError>)
    ensures
        text_result_view(question) == match follow_up_question_of(text@) {
            Ok(q) => Ok::<Seq<char>, AgentErrorView>(q),
            Err(malformation) => Err(AgentErrorView::MalformedReasoning(malformation)),
        },
{
    let chars = to_chars(text);
    let marker = to_chars(FOLLOW_UP_MARKER);
    let (line_start, line_end) = last_line_bounds(&chars);
    if !window_holds(&chars, line_start, line_end, &marker) {
        return Err(AgentError::MalformedReasoning(Malformation::MissingFollowUpMarker));
    }
    let (start, end) = closing_segment_bounds(&chars);
    if start == end || chars[end - 1] != '?' {
        return Err(AgentError::MalformedReasoning(Malformation::MissingQuestionMark));
    }
    Ok(text.substring_char(start, end).to_owned())
}

} // verus!
