//! The marker syntax that an assistant reply uses to report a completed
//! checkpoint. A marker fills one line:
//!
//! ```text
//! CHECKPOINT[splitting_insight]: learner proposed splitting the list in half
//! ```
//!
//! The identifier stands between the opening and the closing token, the
//! description is the rest of the line; both are taken without the
//! whitespace around them. Each line holds at most one marker, and a marker
//! counts only if it names one of the checkpoints of the lesson.

use vstd::prelude::*;
use vstd::slice::slice_subrange;
use vstd::string::StrSliceExecFns;

use crate::checkpoint::is_checkpoint_id;
use crate::checkpoint::is_known_checkpoint_id;
use crate::checkpoint::CheckpointMatch;
use crate::checkpoint::MatchView;
use crate::text::find_first;
use crate::text::find_from;
use crate::text::find_in;
use crate::text::has_occurrence;
use crate::text::lemma_find_from;
use crate::text::lemma_line_end;
use crate::text::line_end;
use crate::text::line_end_in;
use crate::text::occurs_at;
use crate::text::to_chars;
use crate::text::trim_bounds;
use crate::text::trimmed;

verus! {

/// The token that opens a marker.
pub const OPEN_MARKER: &'static str = "CHECKPOINT[";

/// The token that closes the identifier of a marker.
pub const CLOSE_MARKER: &'static str = "]:";

/// The marker of `line`, if it has one: the first opening token, then the
/// first closing token after it. The identifier is what stands between the
/// two, the description what follows the closing token, both trimmed.
pub open spec fn marker_in_line(line: Seq<char>) -> Option<MatchView> {
    match find_first(line, OPEN_MARKER@) {
        None => None,
        Some(open_at) => {
            let id_start = open_at + OPEN_MARKER@.len();
            match find_from(line, CLOSE_MARKER@, id_start) {
                None => None,
                Some(close_at) => Some(
                    MatchView {
                        checkpoint_id: trimmed(line.subrange(id_start, close_at)),
                        description: trimmed(
                            line.subrange(close_at + CLOSE_MARKER@.len(), line.len() as int),
                        ),
                    },
                ),
            }
        },
    }
}

/// What `line` adds to the matches of a text: its marker, if it has one
/// that names a checkpoint of the lesson.
pub open spec fn line_matches(line: Seq<char>) -> Seq<MatchView> {
    match marker_in_line(line) {
        Some(marker) => if is_checkpoint_id(marker.checkpoint_id) {
            seq![marker]
        } else {
            Seq::empty()
        },
        None => Seq::empty(),
    }
}

/// The matches of the lines of `text` that start at or after `from`, where
/// `from` is the start of a line.
pub open spec fn matches_from(text: Seq<char>, from: int) -> Seq<MatchView>
    decreases text.len() - from,
{
    if from < 0 || from >= text.len() {
        Seq::empty()
    } else {
        let end = line_end(text, from);
        proof {
            lemma_line_end(text, from);
        }
        line_matches(text.subrange(from, end)) + if end < text.len() {
            matches_from(text, end + 1)
        } else {
            Seq::empty()
        }
    }
}

/// The matches of `text`, line by line, in the order of the lines.
pub open spec fn recognized_markers(text: Seq<char>) -> Seq<MatchView> {
    matches_from(text, 0)
}

/// An occurrence of a token in a piece of a text is an occurrence in the
/// text.
pub proof fn lemma_occurrence_in_piece(
    text: Seq<char>,
    from: int,
    to: int,
    token: Seq<char>,
    at: int,
)
    requires
        0 <= from <= to <= text.len(),
        occurs_at(text.subrange(from, to), token, at),
    ensures
        occurs_at(text, token, from + at),
{
    assert(text.subrange(from + at, from + at + token.len()) =~= text.subrange(from, to).subrange(
        at,
        at + token.len(),
    ));
}

/// A line has a marker only if it holds both tokens.
pub proof fn lemma_marker_needs_tokens(line: Seq<char>)
    requires
        marker_in_line(line) is Some,
    ensures
        has_occurrence(line, OPEN_MARKER@),
        has_occurrence(line, CLOSE_MARKER@),
{
    lemma_find_from(line, OPEN_MARKER@, 0);
    let open_at = find_first(line, OPEN_MARKER@)->0;
    assert(occurs_at(line, OPEN_MARKER@, open_at));
    let id_start = open_at + OPEN_MARKER@.len();
    lemma_find_from(line, CLOSE_MARKER@, id_start);
    assert(occurs_at(line, CLOSE_MARKER@, find_from(line, CLOSE_MARKER@, id_start)->0));
}

/// A text that nowhere holds the opening token, or nowhere the closing
/// token, has no matches.
pub proof fn lemma_no_token_no_match(text: Seq<char>, from: int)
    requires
        0 <= from,
        !has_occurrence(text, OPEN_MARKER@) || !has_occurrence(text, CLOSE_MARKER@),
    ensures
        matches_from(text, from) == Seq::<MatchView>::empty(),
    decreases text.len() - from,
{
    if from < text.len() {
        let end = line_end(text, from);
        lemma_line_end(text, from);
        let line = text.subrange(from, end);
        if marker_in_line(line) is Some {
            lemma_marker_needs_tokens(line);
            let a = choose|at: int| occurs_at(line, OPEN_MARKER@, at);
            lemma_occurrence_in_piece(text, from, end, OPEN_MARKER@, a);
            let b = choose|at: int| occurs_at(line, CLOSE_MARKER@, at);
            lemma_occurrence_in_piece(text, from, end, CLOSE_MARKER@, b);
        }
        if end < text.len() {
            lemma_no_token_no_match(text, end + 1);
        }
        assert(matches_from(text, from) =~= Seq::<MatchView>::empty());
    }
}

/// A marker whose identifier is not one of the checkpoints of the lesson
/// is ignored: its line adds no match.
pub proof fn lemma_unknown_marker_is_ignored(line: Seq<char>)
    requires
        marker_in_line(line) matches Some(marker) && !is_checkpoint_id(marker.checkpoint_id),
    ensures
        line_matches(line) == Seq::<MatchView>::empty(),
{
}

/// Every match names a checkpoint of the lesson.
pub proof fn lemma_matches_name_checkpoints(text: Seq<char>, from: int, k: int)
    requires
        0 <= from,
        0 <= k < matches_from(text, from).len(),
    ensures
        is_checkpoint_id(matches_from(text, from)[k].checkpoint_id),
    decreases text.len() - from,
{
    if from < text.len() {
        let end = line_end(text, from);
        lemma_line_end(text, from);
        let here = line_matches(text.subrange(from, end));
        if k >= here.len() && end < text.len() {
            lemma_matches_name_checkpoints(text, end + 1, k - here.len());
        }
    }
}

/// The marker of the line that `chars[from..end]` holds, where `chars` are
/// the characters of `text`.
fn marker_of_line(text: &str, chars: &[char], from: usize, end: usize, open: &[char], close: &[
    char
]) -> (marker: Option<CheckpointMatch>)
    requires
        chars@ == text@,
        from <= end <= chars@.len(),
        open@ == OPEN_MARKER@,
        close@ == CLOSE_MARKER@,
    ensures
        marker.deep_view() == marker_in_line(text@.subrange(from as int, end as int)),
{
    let line = slice_subrange(chars, from, end);
    let open_at = match find_in(line, open, 0) {
        Some(at) => at,
        None => {
            return None;
        },
    };
    proof {
        lemma_find_from(line@, open@, 0);
    }
    let id_start: usize = open_at + open.len();
    let close_at = match find_in(line, close, id_start) {
        Some(at) => at,
        None => {
            return None;
        },
    };
    proof {
        lemma_find_from(line@, close@, id_start as int);
    }
    let rest_start: usize = close_at + close.len();
    let id = trim_bounds(slice_subrange(line, id_start, close_at));
    let rest = trim_bounds(slice_subrange(line, rest_start, line.len()));
    proof {
        assert(text@.subrange(from + id_start + id.0, from + id_start + id.1)
            =~= line@.subrange(id_start as int, close_at as int).subrange(
            id.0 as int,
            id.1 as int,
        ));
        assert(text@.subrange(from + rest_start + rest.0, from + rest_start + rest.1)
            =~= line@.subrange(rest_start as int, line@.len() as int).subrange(
            rest.0 as int,
            rest.1 as int,
        ));
    }
    Some(
        CheckpointMatch {
            checkpoint_id: text.substring_char(
                from + id_start + id.0,
                from + id_start + id.1,
            ).to_owned(),
            description: text.substring_char(
                from + rest_start + rest.0,
                from + rest_start + rest.1,
            ).to_owned(),
        },
    )
}

/// The matches of `text`: for each line with a marker that names a
/// checkpoint of the lesson, the identifier and the description, in the
/// order of the lines.
pub fn find_markers(text: &str) -> (found: Vec<CheckpointMatch>)
    ensures
        found.deep_view() == recognized_markers(text@),
{
    let chars = to_chars(text);
    let open = to_chars(OPEN_MARKER);
    let close = to_chars(CLOSE_MARKER);
    let mut found: Vec<CheckpointMatch> = Vec::new();
    let mut from: usize = 0;
    proof {
        assert(found.deep_view() =~= Seq::<MatchView>::empty());
    }
    while from < chars.len()
        invariant
            chars@ == text@,
            open@ == OPEN_MARKER@,
            close@ == CLOSE_MARKER@,
            found.deep_view() + matches_from(text@, from as int) == recognized_markers(text@),
        decreases chars.len() - from,
    {
        let end = line_end_in(chars.as_slice(), from);
        let ghost before = found.deep_view();
        let ghost here = line_matches(text@.subrange(from as int, end as int));
        let ghost later = if end < chars.len() {
            matches_from(text@, end + 1)
        } else {
            Seq::<MatchView>::empty()
        };
        match marker_of_line(text, chars.as_slice(), from, end, open.as_slice(), close.as_slice()) {
            Some(marker) => {
                if is_known_checkpoint_id(&marker.checkpoint_id) {
                    found.push(marker);
                }
            },
            None => {},
        }
        proof {
            assert(found.deep_view() =~= before + here);
            assert(before + (here + later) =~= (before + here) + later);
        }
        if end == chars.len() {
            proof {
                assert(found.deep_view() + later =~= found.deep_view());
            }
            return found;
        }
        from = end + 1;
    }
    proof {
        assert(found.deep_view() + Seq::<MatchView>::empty() =~= found.deep_view());
    }
    found
}

} // verus!
