//! The system message of the tutor: fixed instructions into which the text
//! of the lesson is put.

use vstd::prelude::*;
use vstd::string::StrSliceExecFns;
use vstd::string::StringExecFns;

use crate::text::find_first;
use crate::text::find_from;
use crate::text::find_in;
use crate::text::lemma_find_from;
use crate::text::occurs_at;
use crate::text::to_chars;

verus! {

/// Where the instructions take up the lesson.
pub const LESSON_PLACEHOLDER: &'static str = "{{LESSON_CONTENT}}";

/// How the tutor is to behave.
pub const INSTRUCTIONS: &'static str =
    "You are a patient tutor who teaches merge sort in a conversation. Do not lecture. Ask one short question at a time and let the learner find each idea; confirm what is right, and answer a wrong step with a smaller question.\n\nFollow the lesson below, one checkpoint after the other. When the learner has shown that a checkpoint is reached, end your reply with a line of its own of the form\n\nCHECKPOINT[identifier]: what the learner did\n\nwith the identifier of that checkpoint. Report a checkpoint once, and only when it is reached. Write nothing else in that form.\n\n{{LESSON_CONTENT}}\n";

/// What the tutor is to teach.
pub const LESSON: &'static str =
    "Lesson: recursion and merge sort.\n\nStart from the learner's own way of sorting [7, 2, 4, 1] by hand.\n\nCheckpoints, in this order:\n\n1. inefficiency_discovery: the learner sees that sorting by repeated comparison of neighbours or by repeated search for the smallest number takes about n times n steps.\n2. splitting_insight: the learner proposes to split the list in halves and to sort each half on its own.\n3. merging_development: the learner describes how two sorted lists are merged by comparing their first numbers again and again.\n4. recursive_pattern: the learner sees that each half is sorted in the same way, down to lists of one number.\n5. efficiency_analysis: the learner explains why there are about log n levels of n steps each, n log n steps in all.\n";

/// `text` with each occurrence of `pattern` replaced by `with`, found from
/// left to right, one after the end of the other. An empty pattern replaces
/// nothing.
pub open spec fn substituted(text: Seq<char>, pattern: Seq<char>, with: Seq<char>) -> Seq<char>
    decreases text.len(),
{
    if pattern.len() == 0 {
        text
    } else {
        match find_first(text, pattern) {
            None => text,
            Some(at) => {
                proof {
                    lemma_find_from(text, pattern, 0);
                }
                text.subrange(0, at) + with + substituted(
                    text.subrange(at + pattern.len(), text.len() as int),
                    pattern,
                    with,
                )
            },
        }
    }
}

/// The system message: the instructions with the lesson in the place that
/// they keep for it.
pub open spec fn system_message() -> Seq<char> {
    substituted(INSTRUCTIONS@, LESSON_PLACEHOLDER@, LESSON@)
}

/// Searching the rest of a text from `from` on is searching the text from
/// `from` on.
pub proof fn lemma_find_in_rest(text: Seq<char>, pattern: Seq<char>, from: int, k: int)
    requires
        0 <= from <= text.len(),
        0 <= k,
    ensures
        find_from(text.subrange(from, text.len() as int), pattern, k) == match find_from(
            text,
            pattern,
            from + k,
        ) {
            Some(at) => Some(at - from),
            None => None,
        },
    decreases text.len() - from - k,
{
    let rest = text.subrange(from, text.len() as int);
    if k + pattern.len() <= rest.len() {
        assert(rest.subrange(k, k + pattern.len()) =~= text.subrange(
            from + k,
            from + k + pattern.len(),
        ));
        assert(occurs_at(rest, pattern, k) == occurs_at(text, pattern, from + k));
        if !occurs_at(rest, pattern, k) && k < rest.len() {
            lemma_find_in_rest(text, pattern, from, k + 1);
        }
    }
}

/// `text` with each occurrence of `pattern` replaced by `with`.
pub fn substitute(text: &str, pattern: &str, with: &str) -> (out: String)
    ensures
        out@ == substituted(text@, pattern@, with@),
{
    let chars = to_chars(text);
    let pat = to_chars(pattern);
    if pat.len() == 0 {
        return String::from_str(text);
    }
    let mut out = String::new();
    let mut from: usize = 0;
    proof {
        assert(text@.subrange(0, text@.len() as int) =~= text@);
        assert(out@ + substituted(text@, pattern@, with@) =~= substituted(
            text@,
            pattern@,
            with@,
        ));
    }
    loop
        invariant
            from <= chars.len(),
            chars@ == text@,
            pat@ == pattern@,
            pat.len() > 0,
            out@ + substituted(text@.subrange(from as int, text@.len() as int), pattern@, with@)
                == substituted(text@, pattern@, with@),
        decreases chars.len() - from,
    {
        let ghost rest = text@.subrange(from as int, text@.len() as int);
        proof {
            lemma_find_in_rest(text@, pattern@, from as int, 0);
            lemma_find_from(text@, pattern@, from as int);
        }
        match find_in(chars.as_slice(), pat.as_slice(), from) {
            None => {
                out.append(text.substring_char(from, chars.len()));
                return out;
            },
            Some(at) => {
                let ghost before = out@;
                out.append(text.substring_char(from, at));
                out.append(with);
                proof {
                    let next = at + pat.len();
                    assert(rest.subrange(0, at - from) =~= text@.subrange(from as int, at as int));
                    assert(rest.subrange(at - from + pattern@.len(), rest.len() as int)
                        =~= text@.subrange(next as int, text@.len() as int));
                    let tail = substituted(
                        text@.subrange(next as int, text@.len() as int),
                        pattern@,
                        with@,
                    );
                    assert(out@ + tail =~= before + (text@.subrange(from as int, at as int)
                        + with@ + tail));
                }
                from = at + pat.len();
            },
        }
    }
}

/// The system message: the instructions with the lesson in the place that
/// they keep for it.
pub fn get_system_message() -> (message: String)
    ensures
        message@ == system_message(),
{
    substitute(INSTRUCTIONS, LESSON_PLACEHOLDER, LESSON)
}

} // verus!
