use tutor_chat::checkpoint::complete_checkpoints;
use tutor_chat::checkpoint::default_checkpoints;
use tutor_chat::checkpoint::find_checkpoint;
use tutor_chat::checkpoint::is_known_checkpoint_id;
use tutor_chat::checkpoint::Checkpoint;
use tutor_chat::checkpoint::CheckpointMatch;
use tutor_chat::checkpoint::CheckpointStatus;
use tutor_chat::marker::find_markers;
use tutor_chat::marker::CLOSE_MARKER;
use tutor_chat::marker::OPEN_MARKER;
use tutor_chat::message::analyze_message;
use tutor_chat::message::Message;

fn marker(id: &str, description: &str) -> CheckpointMatch {
    CheckpointMatch { checkpoint_id: id.to_string(), description: description.to_string() }
}

fn statuses(checkpoints: &[Checkpoint]) -> Vec<CheckpointStatus> {
    checkpoints.iter().map(|c| c.status).collect()
}

#[test]
fn seed_checkpoints_are_the_five_of_the_lesson() {
    let checkpoints = default_checkpoints();
    let ids: Vec<&str> = checkpoints.iter().map(|c| c.id.as_str()).collect();
    assert_eq!(
        ids,
        vec![
            "inefficiency_discovery",
            "splitting_insight",
            "merging_development",
            "recursive_pattern",
            "efficiency_analysis",
        ]
    );
    assert_eq!(
        statuses(&checkpoints),
        vec![
            CheckpointStatus::InProgress,
            CheckpointStatus::NotStarted,
            CheckpointStatus::NotStarted,
            CheckpointStatus::NotStarted,
            CheckpointStatus::NotStarted,
        ]
    );
    assert_eq!(checkpoints[0].description, "Understanding sorting inefficiency");
    assert_eq!(checkpoints[4].description, "Comprehending O(n log n) complexity");
}

#[test]
fn marker_tokens_are_as_written_in_a_reply() {
    assert_eq!(OPEN_MARKER, "CHECKPOINT[");
    assert_eq!(CLOSE_MARKER, "]:");
}

#[test]
fn reply_with_one_marker_completes_that_checkpoint() {
    let mut checkpoints = default_checkpoints();
    let mut message = Message::assistant(
        "Great idea!\nCHECKPOINT[splitting_insight]: learner suggested dividing the list\nLet's continue."
            .to_string(),
    );
    analyze_message(&mut message, &mut checkpoints);
    assert!(message.analyzed);
    assert_eq!(
        message.found_checkpoints,
        vec![marker("splitting_insight", "learner suggested dividing the list")]
    );
    assert_eq!(
        statuses(&checkpoints),
        vec![
            CheckpointStatus::InProgress,
            CheckpointStatus::Completed,
            CheckpointStatus::NotStarted,
            CheckpointStatus::NotStarted,
            CheckpointStatus::NotStarted,
        ]
    );
    assert_eq!(checkpoints[1].id, "splitting_insight");
    assert_eq!(checkpoints[1].description, "Discovering divide-and-conquer benefit");
}

#[test]
fn text_without_markers_yields_nothing() {
    assert_eq!(find_markers(""), vec![]);
    assert_eq!(find_markers("no marker here\nnor here"), vec![]);
    assert_eq!(find_markers("checkpoint[splitting_insight]: lower case"), vec![]);
    let mut checkpoints = default_checkpoints();
    let mut message = Message::assistant("Well done, go on.".to_string());
    analyze_message(&mut message, &mut checkpoints);
    assert!(message.analyzed);
    assert!(message.found_checkpoints.is_empty());
    assert_eq!(checkpoints, default_checkpoints());
}

#[test]
fn marker_with_unknown_identifier_is_ignored() {
    assert_eq!(find_markers("CHECKPOINT[quantum_leap]: no such checkpoint"), vec![]);
    assert_eq!(find_markers("CHECKPOINT[]: empty identifier"), vec![]);
    assert_eq!(find_markers("CHECKPOINT[Splitting_Insight]: other case"), vec![]);
    let mut checkpoints = default_checkpoints();
    let mut message = Message::assistant(
        "CHECKPOINT[quantum_leap]: x\nCHECKPOINT[recursive_pattern]: saw the pattern".to_string(),
    );
    analyze_message(&mut message, &mut checkpoints);
    assert_eq!(message.found_checkpoints, vec![marker("recursive_pattern", "saw the pattern")]);
    assert_eq!(checkpoints[3].status, CheckpointStatus::Completed);
    assert_eq!(checkpoints[0].status, CheckpointStatus::InProgress);
}

#[test]
fn marker_without_closing_token_is_ignored() {
    assert_eq!(find_markers("CHECKPOINT[splitting_insight learner split the list"), vec![]);
    assert_eq!(find_markers("CHECKPOINT[splitting_insight] no colon"), vec![]);
    assert_eq!(find_markers("]: CHECKPOINT[splitting_insight"), vec![]);
}

#[test]
fn marker_never_spans_two_lines() {
    assert_eq!(find_markers("CHECKPOINT[splitting_insight\n]: next line"), vec![]);
    assert_eq!(find_markers("CHECKPOINT[\nsplitting_insight]: next line"), vec![]);
}

#[test]
fn empty_description_is_an_empty_text() {
    assert_eq!(find_markers("CHECKPOINT[merging_development]:"), vec![marker("merging_development", "")]);
    assert_eq!(
        find_markers("CHECKPOINT[merging_development]:   \nmore"),
        vec![marker("merging_development", "")]
    );
}

#[test]
fn marker_at_the_very_end_of_the_text_is_found() {
    assert_eq!(
        find_markers("first line\nCHECKPOINT[efficiency_analysis]: counted the levels"),
        vec![marker("efficiency_analysis", "counted the levels")]
    );
    assert_eq!(
        find_markers("CHECKPOINT[efficiency_analysis]: counted the levels\n"),
        vec![marker("efficiency_analysis", "counted the levels")]
    );
}

#[test]
fn identifier_and_description_are_trimmed() {
    assert_eq!(
        find_markers("so: CHECKPOINT[  splitting_insight ]:\t split it \r\nnext"),
        vec![marker("splitting_insight", "split it")]
    );
}

#[test]
fn each_line_gives_at_most_one_marker_and_lines_keep_their_order() {
    let text = "CHECKPOINT[recursive_pattern]: a CHECKPOINT[splitting_insight]: b\n\nCHECKPOINT[inefficiency_discovery]: c";
    assert_eq!(
        find_markers(text),
        vec![
            marker("recursive_pattern", "a CHECKPOINT[splitting_insight]: b"),
            marker("inefficiency_discovery", "c"),
        ]
    );
}

#[test]
fn closing_token_is_sought_after_the_opening_token() {
    assert_eq!(
        find_markers("see ]: then CHECKPOINT[splitting_insight]: done"),
        vec![marker("splitting_insight", "done")]
    );
}

#[test]
fn analyzing_twice_is_analyzing_once() {
    let mut checkpoints = default_checkpoints();
    let mut message = Message::assistant("CHECKPOINT[splitting_insight]: split".to_string());
    analyze_message(&mut message, &mut checkpoints);
    let found = message.found_checkpoints.clone();
    let after_first = checkpoints.clone();
    message.content = "CHECKPOINT[recursive_pattern]: changed meanwhile".to_string();
    analyze_message(&mut message, &mut checkpoints);
    assert_eq!(message.found_checkpoints, found);
    assert_eq!(checkpoints, after_first);
    assert_eq!(checkpoints[3].status, CheckpointStatus::NotStarted);
}

#[test]
fn message_of_the_user_is_never_analyzed() {
    let mut checkpoints = default_checkpoints();
    let mut message = Message::user("CHECKPOINT[splitting_insight]: I say so".to_string());
    analyze_message(&mut message, &mut checkpoints);
    assert!(!message.analyzed);
    assert!(message.found_checkpoints.is_empty());
    assert_eq!(checkpoints, default_checkpoints());
}

#[test]
fn repeated_marker_is_listed_again_and_changes_no_status() {
    let mut checkpoints = default_checkpoints();
    let mut first = Message::assistant("CHECKPOINT[splitting_insight]: once".to_string());
    analyze_message(&mut first, &mut checkpoints);
    let snapshot = checkpoints.clone();
    let mut second = Message::assistant(
        "CHECKPOINT[splitting_insight]: twice\nCHECKPOINT[splitting_insight]: thrice".to_string(),
    );
    analyze_message(&mut second, &mut checkpoints);
    assert_eq!(
        second.found_checkpoints,
        vec![marker("splitting_insight", "twice"), marker("splitting_insight", "thrice")]
    );
    assert_eq!(checkpoints, snapshot);
}

#[test]
fn marker_for_a_checkpoint_that_is_not_kept_is_dropped() {
    let mut checkpoints = default_checkpoints();
    checkpoints.remove(1);
    let found = vec![marker("splitting_insight", "gone"), marker("merging_development", "kept")];
    let accepted = complete_checkpoints(&mut checkpoints, &found);
    assert_eq!(accepted, vec![marker("merging_development", "kept")]);
    assert_eq!(
        statuses(&checkpoints),
        vec![
            CheckpointStatus::InProgress,
            CheckpointStatus::Completed,
            CheckpointStatus::NotStarted,
            CheckpointStatus::NotStarted,
        ]
    );
}

#[test]
fn only_the_first_checkpoint_of_a_name_is_completed() {
    let mut checkpoints = default_checkpoints();
    checkpoints.push(Checkpoint {
        id: "splitting_insight".to_string(),
        description: "again".to_string(),
        status: CheckpointStatus::NotStarted,
    });
    assert_eq!(find_checkpoint(&checkpoints, &"splitting_insight".to_string()), Some(1));
    assert_eq!(find_checkpoint(&checkpoints, &"nothing".to_string()), None);
    let accepted = complete_checkpoints(&mut checkpoints, &vec![marker("splitting_insight", "x")]);
    assert_eq!(accepted.len(), 1);
    assert_eq!(checkpoints[1].status, CheckpointStatus::Completed);
    assert_eq!(checkpoints[5].status, CheckpointStatus::NotStarted);
}

#[test]
fn known_identifiers_are_exactly_the_five() {
    for id in [
        "inefficiency_discovery",
        "splitting_insight",
        "merging_development",
        "recursive_pattern",
        "efficiency_analysis",
    ] {
        assert!(is_known_checkpoint_id(&id.to_string()));
    }
    assert!(!is_known_checkpoint_id(&"".to_string()));
    assert!(!is_known_checkpoint_id(&"splitting_insight ".to_string()));
    assert!(!is_known_checkpoint_id(&"splitting".to_string()));
}

#[test]
fn labels_show_the_description_only_once_completed() {
    let mut checkpoints = default_checkpoints();
    assert_eq!(checkpoints[0].label(0), "1.   ? ? ?  (In Progress... \u{23f3})");
    assert_eq!(checkpoints[1].label(1), "2.   ? ? ?");
    checkpoints[1].status = CheckpointStatus::Completed;
    assert_eq!(checkpoints[1].label(1), "2. Discovering divide-and-conquer benefit \u{2714}");
    assert_eq!(checkpoints[4].label(11), "12.   ? ? ?");
    assert_eq!(checkpoints[4].label(usize::MAX), format!("{}.   ? ? ?", usize::MAX as u128 + 1));
}
