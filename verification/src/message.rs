//! Chat messages, and the analysis that looks for checkpoint markers in an
//! assistant reply. A message is analyzed at most once; a message of the
//! user is never analyzed.

use vstd::prelude::*;

use crate::checkpoint::accepted_markers;
use crate::checkpoint::complete_checkpoints;
use crate::checkpoint::completed_by;
use crate::checkpoint::lemma_completed_by_nothing;
use crate::checkpoint::Checkpoint;
use crate::checkpoint::CheckpointMatch;
use crate::checkpoint::CheckpointView;
use crate::checkpoint::MatchView;
use crate::marker::find_markers;
use crate::marker::lemma_no_token_no_match;
use crate::marker::recognized_markers;
use crate::marker::CLOSE_MARKER;
use crate::marker::OPEN_MARKER;
use crate::text::has_occurrence;

verus! {

/// One entry of the chat history.
#[derive(Debug, PartialEq, Eq)]
pub struct Message {
    pub content: String,
    pub from_user: bool,
    /// A hint for the completion service; no rule of the chat reads it.
    pub cacheable: bool,
    pub analyzed: bool,
    pub found_checkpoints: Vec<CheckpointMatch>,
}

/// A message as plain values.
pub struct MessageView {
    pub content: Seq<char>,
    pub from_user: bool,
    pub cacheable: bool,
    pub analyzed: bool,
    pub found_checkpoints: Seq<MatchView>,
}

impl View for Message {
    type V = MessageView;

    open spec fn view(&self) -> MessageView {
        MessageView {
            content: self.content@,
            from_user: self.from_user,
            cacheable: self.cacheable,
            analyzed: self.analyzed,
            found_checkpoints: self.found_checkpoints.deep_view(),
        }
    }
}

impl DeepView for Message {
    type V = MessageView;

    open spec fn deep_view(&self) -> MessageView {
        self@
    }
}

/// A message that is new to the history: not analyzed, without matches.
pub open spec fn fresh_message(content: Seq<char>, from_user: bool) -> MessageView {
    MessageView {
        content,
        from_user,
        cacheable: false,
        analyzed: false,
        found_checkpoints: Seq::empty(),
    }
}

/// A message and the checkpoints after the message was analyzed.
///
/// A message of the user, or one that was analyzed before, leaves both as
/// they are. Otherwise the message gets the markers of its text that name
/// one of the checkpoints, those checkpoints are completed, and the
/// message counts as analyzed.
pub open spec fn analysis(message: MessageView, checkpoints: Seq<CheckpointView>) -> (
    MessageView,
    Seq<CheckpointView>,
) {
    if message.analyzed || message.from_user {
        (message, checkpoints)
    } else {
        let markers = recognized_markers(message.content);
        (
            MessageView {
                analyzed: true,
                found_checkpoints: accepted_markers(checkpoints, markers),
                ..message
            },
            completed_by(checkpoints, markers),
        )
    }
}

/// Analyzing a message again changes nothing: neither the message nor the
/// checkpoints.
pub proof fn lemma_analysis_idempotent(message: MessageView, checkpoints: Seq<CheckpointView>)
    ensures
        analysis(analysis(message, checkpoints).0, analysis(message, checkpoints).1) == analysis(
            message,
            checkpoints,
        ),
{
}

/// A message whose text holds no marker that names a checkpoint of the
/// lesson yields no match and leaves every checkpoint as it is.
pub proof fn lemma_analysis_without_markers(message: MessageView, checkpoints: Seq<CheckpointView>)
    requires
        recognized_markers(message.content) == Seq::<MatchView>::empty(),
    ensures
        !message.analyzed && !message.from_user ==> analysis(
            message,
            checkpoints,
        ).0.found_checkpoints == Seq::<MatchView>::empty(),
        analysis(message, checkpoints).1 == checkpoints,
{
    lemma_completed_by_nothing(checkpoints);
}

/// A reply whose text nowhere holds the opening token of a marker, or
/// nowhere the closing token, yields no match and leaves every checkpoint as
/// it is.
pub proof fn lemma_analysis_without_tokens(message: MessageView, checkpoints: Seq<CheckpointView>)
    requires
        !has_occurrence(message.content, OPEN_MARKER@) || !has_occurrence(
            message.content,
            CLOSE_MARKER@,
        ),
        !message.analyzed,
        !message.from_user,
    ensures
        analysis(message, checkpoints).0.found_checkpoints == Seq::<MatchView>::empty(),
        analysis(message, checkpoints).1 == checkpoints,
{
    lemma_no_token_no_match(message.content, 0);
    lemma_completed_by_nothing(checkpoints);
}

/// A copy of `matches`.
pub fn clone_matches(matches: &Vec<CheckpointMatch>) -> (copy: Vec<CheckpointMatch>)
    ensures
        copy.deep_view() == matches.deep_view(),
{
    let mut copy: Vec<CheckpointMatch> = Vec::new();
    let mut i: usize = 0;
    while i < matches.len()
        invariant
            i <= matches.len(),
            copy.len() == i,
            forall|j: int| 0 <= j < i ==> (#[trigger] copy@[j])@ == matches@[j]@,
        decreases matches.len() - i,
    {
        copy.push(matches[i].clone());
        i += 1;
    }
    assert(copy.deep_view() =~= matches.deep_view());
    copy
}

impl Clone for Message {
    fn clone(&self) -> (r: Self)
        ensures
            r@ == self@,
    {
        Message {
            content: self.content.clone(),
            from_user: self.from_user,
            cacheable: self.cacheable,
            analyzed: self.analyzed,
            found_checkpoints: clone_matches(&self.found_checkpoints),
        }
    }
}

impl Message {
    /// A new message of the user.
    pub fn user(content: String) -> (message: Message)
        ensures
            message@ == fresh_message(content@, true),
    {
        let message = Message {
            content,
            from_user: true,
            cacheable: false,
            analyzed: false,
            found_checkpoints: Vec::new(),
        };
        assert(message.found_checkpoints.deep_view() =~= Seq::<MatchView>::empty());
        message
    }

    /// A new reply of the assistant.
    pub fn assistant(content: String) -> (message: Message)
        ensures
            message@ == fresh_message(content@, false),
    {
        let message = Message {
            content,
            from_user: false,
            cacheable: false,
            analyzed: false,
            found_checkpoints: Vec::new(),
        };
        assert(message.found_checkpoints.deep_view() =~= Seq::<MatchView>::empty());
        message
    }
}

/// Looks for checkpoint markers in `message` and completes the checkpoints
/// that they name. Does nothing for a message of the user, or for one that
/// was analyzed before.
pub fn analyze_message(message: &mut Message, checkpoints: &mut Vec<Checkpoint>)
    ensures
        (final(message)@, final(checkpoints).deep_view()) == analysis(
            old(message)@,
            old(checkpoints).deep_view(),
        ),
{
    if message.analyzed || message.from_user {
        return ;
    }
    let markers = find_markers(message.content.as_str());
    let accepted = complete_checkpoints(checkpoints, &markers);
    message.found_checkpoints = accepted;
    message.analyzed = true;
}

} // verus!
