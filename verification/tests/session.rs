use tutor_chat::checkpoint::default_checkpoints;
use tutor_chat::checkpoint::CheckpointMatch;
use tutor_chat::checkpoint::CheckpointStatus;
use tutor_chat::dispatch::completion_body;
use tutor_chat::dispatch::Exchange;
use tutor_chat::message::Message;
use tutor_chat::session::clone_history;
use tutor_chat::session::Outgoing;
use tutor_chat::session::SavedSession;
use tutor_chat::session::DEFAULT_MESSAGE_HEIGHT;
use tutor_chat::session::GREETING;
use tutor_chat::AuthState;
use tutor_chat::LearningApp;
use tutor_chat::PendingState;

fn signed_in() -> AuthState {
    AuthState {
        signed_in: true,
        email: Some("learner@example.com".to_string()),
        access_token: Some("tok".to_string()),
    }
}

fn contents(app: &LearningApp) -> Vec<&str> {
    app.chat_history.iter().map(|m| m.content.as_str()).collect()
}

fn assert_is_new(app: &LearningApp) {
    assert_eq!(app.label, "Hello World!");
    assert_eq!(app.checkpoints, default_checkpoints());
    assert!(!app.reset_modal_open);
    assert_eq!(contents(app), vec!["I am ready, please begin.", GREETING]);
    assert_eq!(app.current_input, "");
    assert_eq!(app.error_modal, None);
    assert_eq!(app.pending_message, None);
    assert!(!app.is_loading);
    assert_eq!(app.scroll_state.item_count(), 2);
    assert_eq!(app.scroll_state.total_height(), 2 * DEFAULT_MESSAGE_HEIGHT as u128);
    assert!(app.scroll_state.stick_to_bottom());
    assert_eq!(app.scroll_state.scroll_offset(), 0);
    assert_eq!(app.scroll_state.viewport_height(), 0);
    assert!(!app.sign_in.modal_open);
    assert_eq!(app.sign_in.email, "");
    assert_eq!(app.sign_in.error, None);
}

#[test]
fn new_session_opens_with_the_two_seed_messages() {
    let app = LearningApp::default();
    assert_is_new(&app);
    assert!(app.chat_history[0].from_user);
    assert!(!app.chat_history[0].cacheable);
    assert!(!app.chat_history[1].from_user);
    assert!(app.chat_history[1].cacheable);
    assert!(app.chat_history.iter().all(|m| !m.analyzed && m.found_checkpoints.is_empty()));
    assert!(GREETING.starts_with("Hello! I'm excited to explore sorting algorithms"));
    assert!(GREETING.ends_with("Just do what feels intuitive!)"));
    assert!(GREETING.contains("[7, 2, 4, 1]"));
}

#[test]
fn session_without_anything_saved_is_a_new_one() {
    assert_is_new(&LearningApp::new(None));
}

#[test]
fn saved_session_is_continued_with_nothing_analyzed() {
    let mut checkpoints = default_checkpoints();
    checkpoints[0].status = CheckpointStatus::Completed;
    let mut reply = Message::assistant("CHECKPOINT[inefficiency_discovery]: saw it".to_string());
    reply.analyzed = true;
    reply.found_checkpoints = vec![CheckpointMatch {
        checkpoint_id: "inefficiency_discovery".to_string(),
        description: "saw it".to_string(),
    }];
    let saved = SavedSession {
        label: "kept".to_string(),
        checkpoints: checkpoints.clone(),
        reset_modal_open: true,
        chat_history: vec![
            Message::user("a".to_string()),
            reply.clone(),
            Message::user("b".to_string()),
        ],
        current_input: "half typed".to_string(),
    };
    let app = LearningApp::new(Some(saved));
    assert_eq!(app.label, "kept");
    assert_eq!(app.checkpoints, checkpoints);
    assert!(app.reset_modal_open);
    assert_eq!(app.current_input, "half typed");
    assert_eq!(contents(&app), vec!["a", "CHECKPOINT[inefficiency_discovery]: saw it", "b"]);
    assert!(app.chat_history.iter().all(|m| !m.analyzed));
    assert_eq!(app.chat_history[1].found_checkpoints, reply.found_checkpoints);
    assert!(!app.is_loading);
    assert_eq!(app.error_modal, None);
    assert_eq!(app.pending_message, None);
    assert_eq!(app.scroll_state.item_count(), 3);
    assert_eq!(app.scroll_state.total_height(), 3 * DEFAULT_MESSAGE_HEIGHT as u128);
    assert!(!app.sign_in.modal_open);
}

#[test]
fn what_is_saved_is_what_a_session_continues_with() {
    let mut app = LearningApp::default();
    app.current_input = "typing".to_string();
    app.is_loading = true;
    app.error_modal = Some("shown".to_string());
    let saved = app.to_saved();
    assert_eq!(saved.label, app.label);
    assert_eq!(saved.checkpoints, app.checkpoints);
    assert_eq!(saved.chat_history, app.chat_history);
    assert_eq!(saved.current_input, "typing");
    assert!(!saved.reset_modal_open);
    let again = LearningApp::new(Some(saved));
    assert_eq!(again.chat_history, app.chat_history);
    assert!(!again.is_loading);
    assert_eq!(again.error_modal, None);
}

#[test]
fn sending_appends_the_message_and_puts_a_request_in_flight() {
    let mut app = LearningApp::default();
    app.scroll_state.set_stick_to_bottom(false);
    let before = clone_history(&app.chat_history);
    let request = app.send_message("Compare neighbours".to_string());
    assert_eq!(
        request,
        Some(Outgoing { user_message: "Compare neighbours".to_string(), chat_history: before })
    );
    assert_eq!(app.chat_history.len(), 3);
    assert_eq!(app.chat_history[2], Message::user("Compare neighbours".to_string()));
    assert!(app.is_loading);
    assert!(app.scroll_state.stick_to_bottom());
    assert_eq!(app.scroll_state.item_count(), 3);
    assert_eq!(app.checkpoints, default_checkpoints());
}

#[test]
fn blank_message_is_not_sent() {
    for blank in ["", " ", "\n\t  \r\n", "\u{a0}\u{2003}"] {
        let mut app = LearningApp::default();
        assert_eq!(app.send_message(blank.to_string()), None);
        assert_is_new(&app);
    }
}

#[test]
fn second_message_is_not_sent_while_a_request_is_in_flight() {
    let mut app = LearningApp::default();
    assert!(app.send_message("first".to_string()).is_some());
    assert_eq!(app.send_message("second".to_string()), None);
    assert_eq!(contents(&app), vec!["I am ready, please begin.", GREETING, "first"]);
    assert!(app.is_loading);
    let mut pending = PendingState::default();
    pending.post(Ok("reply".to_string()));
    app.drain_pending_result(&mut pending);
    assert!(!app.is_loading);
    assert!(app.send_message("second".to_string()).is_some());
    assert_eq!(app.chat_history.len(), 5);
}

#[test]
fn reply_is_appended_analyzed_and_ends_the_request() {
    let mut app = LearningApp::default();
    app.send_message("Split it in two".to_string());
    app.scroll_state.set_stick_to_bottom(false);
    let mut pending = PendingState::default();
    pending.post(Ok(
        "Great idea!\nCHECKPOINT[splitting_insight]: learner suggested dividing the list\nLet's continue."
            .to_string(),
    ));
    app.drain_pending_result(&mut pending);
    assert_eq!(pending, PendingState::default());
    assert_eq!(app.chat_history.len(), 4);
    let reply = &app.chat_history[3];
    assert!(!reply.from_user);
    assert!(!reply.cacheable);
    assert!(reply.analyzed);
    assert_eq!(
        reply.found_checkpoints,
        vec![CheckpointMatch {
            checkpoint_id: "splitting_insight".to_string(),
            description: "learner suggested dividing the list".to_string(),
        }]
    );
    assert_eq!(app.checkpoints[1].status, CheckpointStatus::Completed);
    assert_eq!(app.checkpoints[0].status, CheckpointStatus::InProgress);
    assert_eq!(app.checkpoints[2].status, CheckpointStatus::NotStarted);
    assert!(!app.is_loading);
    assert_eq!(app.error_modal, None);
    assert!(app.scroll_state.stick_to_bottom());
    assert_eq!(app.scroll_state.item_count(), 4);
}

#[test]
fn failed_completion_with_status_429_can_be_sent_again() {
    let mut app = LearningApp::default();
    app.send_message("Split it in two".to_string());
    let mut pending = PendingState::default();
    pending.post(completion_body(Exchange::Answered(429, Ok("slow down".to_string()))));
    app.drain_pending_result(&mut pending);
    assert_eq!(pending, PendingState::default());
    assert!(app.error_modal.as_deref().unwrap().contains("429"));
    assert_eq!(app.error_modal.as_deref(), Some("Server error: 429"));
    assert_eq!(app.chat_history.len(), 3);
    assert!(app.chat_history.iter().filter(|m| !m.from_user).count() == 1);
    assert_eq!(app.pending_message.as_deref(), Some("Split it in two"));
    assert!(!app.is_loading);
    assert_eq!(app.checkpoints, default_checkpoints());
}

#[test]
fn error_after_a_reply_offers_nothing_to_send_again() {
    let mut app = LearningApp::default();
    app.handle_api_error("out of the blue".to_string());
    assert_eq!(app.error_modal.as_deref(), Some("out of the blue"));
    assert_eq!(app.pending_message, None);
    assert_eq!(app.chat_history.len(), 2);
}

#[test]
fn error_with_an_empty_history_offers_nothing_to_send_again() {
    let mut app = LearningApp::default();
    app.chat_history.clear();
    app.is_loading = true;
    app.handle_api_error("nothing there".to_string());
    assert_eq!(app.pending_message, None);
    assert!(app.is_loading);
}

#[test]
fn mailbox_with_reply_and_error_gives_both_in_that_order() {
    let mut app = LearningApp::default();
    app.send_message("question".to_string());
    let mut pending = PendingState::default();
    pending.post(Err("late failure".to_string()));
    pending.post(Ok("answer".to_string()));
    app.drain_pending_result(&mut pending);
    assert_eq!(
        contents(&app),
        vec!["I am ready, please begin.", GREETING, "question", "answer"]
    );
    assert_eq!(app.error_modal.as_deref(), Some("late failure"));
    assert_eq!(app.pending_message, None);
    assert!(!app.is_loading);
}

#[test]
fn empty_mailbox_changes_nothing() {
    let mut app = LearningApp::default();
    app.send_message("question".to_string());
    let mut pending = PendingState::default();
    app.drain_pending_result(&mut pending);
    assert!(app.is_loading);
    assert_eq!(app.chat_history.len(), 3);
    assert_eq!(app.error_modal, None);
}

#[test]
fn retry_sends_the_failed_message_as_a_new_one() {
    let mut app = LearningApp::default();
    app.send_message("question".to_string());
    let mut pending = PendingState::default();
    pending.post(Err("Network error: down".to_string()));
    app.drain_pending_result(&mut pending);
    let before = clone_history(&app.chat_history);
    let request = app.retry_last_message();
    assert_eq!(
        request,
        Some(Outgoing { user_message: "question".to_string(), chat_history: before })
    );
    assert_eq!(
        contents(&app),
        vec!["I am ready, please begin.", GREETING, "question", "question"]
    );
    assert!(app.is_loading);
    assert_eq!(app.error_modal, None);
    assert_eq!(app.pending_message, None);
}

#[test]
fn retry_without_a_failed_message_only_clears_the_error() {
    let mut app = LearningApp::default();
    app.error_modal = Some("shown".to_string());
    assert_eq!(app.retry_last_message(), None);
    assert_eq!(app.error_modal, None);
    assert_eq!(app.chat_history.len(), 2);
    assert!(!app.is_loading);
}

#[test]
fn closing_the_error_gives_up_the_retry() {
    let mut app = LearningApp::default();
    app.send_message("question".to_string());
    app.is_loading = false;
    app.handle_api_error("failed".to_string());
    assert_eq!(app.pending_message.as_deref(), Some("question"));
    app.dismiss_error();
    assert_eq!(app.error_modal, None);
    assert_eq!(app.pending_message, None);
    assert_eq!(app.retry_last_message(), None);
    assert_eq!(app.chat_history.len(), 3);
}

#[test]
fn reset_starts_over_and_leaves_the_sign_in_alone() {
    let mut app = LearningApp::default();
    let mut auth = signed_in();
    app.send_message("Split it".to_string());
    let mut pending = PendingState::default();
    pending.post(Ok("CHECKPOINT[splitting_insight]: split".to_string()));
    app.drain_pending_result(&mut pending);
    app.current_input = "typing".to_string();
    app.handle_api_error("x".to_string());
    app.sign_in.open();
    app.record_message_height(0, 500);
    app.open_reset_modal();
    assert!(app.reset_modal_open);
    app.confirm_reset(&mut auth);
    assert_is_new(&app);
    assert_eq!(auth, signed_in());
    let mut nobody = AuthState::default();
    app.send_message("again".to_string());
    app.reset_to_default(&mut nobody);
    assert_is_new(&app);
    assert_eq!(nobody, AuthState::default());
}

#[test]
fn cancelling_the_reset_keeps_the_lesson() {
    let mut app = LearningApp::default();
    app.send_message("Split it".to_string());
    app.open_reset_modal();
    app.cancel_reset();
    assert!(!app.reset_modal_open);
    assert_eq!(app.chat_history.len(), 3);
    assert!(app.is_loading);
}

#[test]
fn send_button_opens_the_sign_in_for_a_signed_out_user() {
    let mut app = LearningApp::default();
    app.current_input = "hello".to_string();
    assert_eq!(app.submit_current_input(&AuthState::default()), None);
    assert!(app.sign_in.modal_open);
    assert_eq!(app.current_input, "hello");
    assert_eq!(app.chat_history.len(), 2);
    assert!(!app.is_loading);
}

#[test]
fn send_button_sends_the_entry_and_empties_it() {
    let mut app = LearningApp::default();
    app.current_input = "hello".to_string();
    let request = app.submit_current_input(&signed_in());
    assert_eq!(request.unwrap().user_message, "hello");
    assert_eq!(app.current_input, "");
    assert_eq!(app.chat_history.len(), 3);
    assert!(app.is_loading);
    assert!(!app.sign_in.modal_open);
}

#[test]
fn send_button_does_nothing_for_a_blank_entry_or_while_loading() {
    let mut app = LearningApp::default();
    app.current_input = "   ".to_string();
    assert_eq!(app.submit_current_input(&signed_in()), None);
    assert_eq!(app.current_input, "   ");
    assert_eq!(app.chat_history.len(), 2);
    app.current_input = "hello".to_string();
    app.is_loading = true;
    assert_eq!(app.submit_current_input(&signed_in()), None);
    assert_eq!(app.submit_current_input(&AuthState::default()), None);
    assert_eq!(app.current_input, "hello");
    assert!(!app.sign_in.modal_open);
}

#[test]
fn scanning_a_message_of_the_history_marks_it_analyzed() {
    let mut app = LearningApp::default();
    app.chat_history.push(Message::assistant(
        "CHECKPOINT[merging_development]: merged two lists".to_string(),
    ));
    app.scan_message_for_checkpoints(2);
    assert!(app.chat_history[2].analyzed);
    assert_eq!(app.chat_history[2].found_checkpoints.len(), 1);
    assert_eq!(app.checkpoints[2].status, CheckpointStatus::Completed);
    app.scan_message_for_checkpoints(0);
    assert!(!app.chat_history[0].analyzed);
    app.scan_message_for_checkpoints(1);
    assert!(app.chat_history[1].analyzed);
    assert!(app.chat_history[1].found_checkpoints.is_empty());
    let snapshot = clone_history(&app.chat_history);
    app.scan_message_for_checkpoints(3);
    app.scan_message_for_checkpoints(usize::MAX);
    assert_eq!(app.chat_history, snapshot);
}

#[test]
fn measured_heights_are_kept_for_messages_of_the_history_only() {
    let mut app = LearningApp::default();
    app.record_message_height(1, 300);
    assert_eq!(app.scroll_state.height_of(1), 300);
    assert_eq!(app.scroll_state.total_height(), 380);
    app.record_message_height(2, 999);
    app.record_message_height(usize::MAX, 999);
    assert_eq!(app.scroll_state.item_count(), 2);
    assert_eq!(app.scroll_state.total_height(), 380);
}

#[test]
fn visible_messages_stay_within_the_history() {
    let mut app = LearningApp::default();
    for i in 0..10 {
        app.is_loading = false;
        app.send_message(format!("message {}", i));
    }
    assert_eq!(app.chat_history.len(), 12);
    assert_eq!(app.visible_messages(0, 100), (0, 3));
    assert_eq!(app.visible_messages(400, 160), (4, 9));
    assert_eq!(app.visible_messages(100_000, 160), (12, 12));
    app.scroll_state.ensure_item_count(20);
    assert_eq!(app.visible_messages(800, 400), (9, 12));
    assert_eq!(app.visible_messages(1500, 10), (12, 12));
}
