//! The chat session: the history of messages, the checkpoints of the
//! lesson, the request in flight and the message that may be sent again
//! after a failure.
//!
//! Nothing here sends or draws. A function that lets a request leave
//! returns it, and the result comes back through the mailbox.

use vstd::prelude::*;
use vstd::string::StringExecFns;

use crate::auth::closed_dialog;
use crate::auth::clone_text;
use crate::auth::AuthState;
use crate::auth::SignInFlow;
use crate::auth::SignInView;
use crate::checkpoint::default_checkpoints;
use crate::checkpoint::seed_checkpoints;
use crate::checkpoint::Checkpoint;
use crate::checkpoint::CheckpointView;
use crate::dispatch::PendingState;
use crate::dispatch::PendingView;
use crate::message::analysis;
use crate::message::analyze_message;
use crate::message::fresh_message;
use crate::message::Message;
use crate::message::MessageView;
use crate::scroll::padded;
use crate::scroll::visible_window;
use crate::scroll::ScrollState;
use crate::scroll::ScrollView;
use crate::text::is_blank;
use crate::text::str_is_blank;

verus! {

/// The height estimate of a message that was not measured yet.
pub const DEFAULT_MESSAGE_HEIGHT: u32 = 80;

/// The label of a new session.
pub const DEFAULT_LABEL: &'static str = "Hello World!";

/// The message of the user that opens a new session.
pub const OPENING_MESSAGE: &'static str = "I am ready, please begin.";

/// The reply of the assistant that opens a new session.
pub const GREETING: &'static str =
    "Hello! I'm excited to explore sorting algorithms with you today. Before we dive in, let's start with something simple.\n\nImagine you have these numbers: [7, 2, 4, 1]\n\nCould you try sorting these numbers from smallest to largest? Just tell me your steps as you do it.\n\n(Note: I want to see your natural approach without any specific instructions from me. Just do what feels intuitive!)";

/// The state of the chat.
#[derive(Debug)]
pub struct LearningApp {
    pub label: String,
    pub checkpoints: Vec<Checkpoint>,
    pub reset_modal_open: bool,
    pub chat_history: Vec<Message>,
    pub current_input: String,
    /// The error on display, if any.
    pub error_modal: Option<String>,
    /// The message that failed last and may be sent again.
    pub pending_message: Option<String>,
    /// Whether a request is in flight.
    pub is_loading: bool,
    pub scroll_state: ScrollState,
    pub sign_in: SignInFlow,
}

/// The state of the chat as plain values.
pub struct AppView {
    pub label: Seq<char>,
    pub checkpoints: Seq<CheckpointView>,
    pub reset_modal_open: bool,
    pub chat_history: Seq<MessageView>,
    pub current_input: Seq<char>,
    pub error_modal: Option<Seq<char>>,
    pub pending_message: Option<Seq<char>>,
    pub is_loading: bool,
    pub scroll: ScrollView,
    pub sign_in: SignInView,
}

impl View for LearningApp {
    type V = AppView;

    open spec fn view(&self) -> AppView {
        AppView {
            label: self.label@,
            checkpoints: self.checkpoints.deep_view(),
            reset_modal_open: self.reset_modal_open,
            chat_history: self.chat_history.deep_view(),
            current_input: self.current_input@,
            error_modal: self.error_modal.deep_view(),
            pending_message: self.pending_message.deep_view(),
            is_loading: self.is_loading,
            scroll: self.scroll_state@,
            sign_in: self.sign_in@,
        }
    }
}

/// What of a session is kept from one run of the program to the next.
#[derive(Debug, PartialEq, Eq)]
pub struct SavedSession {
    pub label: String,
    pub checkpoints: Vec<Checkpoint>,
    pub reset_modal_open: bool,
    pub chat_history: Vec<Message>,
    pub current_input: String,
}

/// A saved session as plain values.
pub struct SavedView {
    pub label: Seq<char>,
    pub checkpoints: Seq<CheckpointView>,
    pub reset_modal_open: bool,
    pub chat_history: Seq<MessageView>,
    pub current_input: Seq<char>,
}

impl View for SavedSession {
    type V = SavedView;

    open spec fn view(&self) -> SavedView {
        SavedView {
            label: self.label@,
            checkpoints: self.checkpoints.deep_view(),
            reset_modal_open: self.reset_modal_open,
            chat_history: self.chat_history.deep_view(),
            current_input: self.current_input@,
        }
    }
}

/// A request that is to leave: the new message of the user, and the
/// history before it.
#[derive(Debug, PartialEq, Eq)]
pub struct Outgoing {
    pub user_message: String,
    pub chat_history: Vec<Message>,
}

/// The two messages that open a new session.
pub open spec fn seed_history() -> Seq<MessageView> {
    seq![
        fresh_message(OPENING_MESSAGE@, true),
        MessageView { cacheable: true, ..fresh_message(GREETING@, false) },
    ]
}

/// The scroll model of a list of `count` messages, none measured yet.
pub open spec fn unmeasured_scroll(count: int) -> ScrollView {
    ScrollView {
        heights: padded(Seq::empty(), DEFAULT_MESSAGE_HEIGHT, count),
        estimated_default_height: DEFAULT_MESSAGE_HEIGHT,
        viewport_height: 0,
        scroll_offset: 0,
        stick_to_bottom: true,
    }
}

/// A new session: the opening messages, the first checkpoint in progress,
/// nothing in flight, no error, the dialogs closed.
pub open spec fn initial_app() -> AppView {
    AppView {
        label: DEFAULT_LABEL@,
        checkpoints: seed_checkpoints(),
        reset_modal_open: false,
        chat_history: seed_history(),
        current_input: Seq::empty(),
        error_modal: None,
        pending_message: None,
        is_loading: false,
        scroll: unmeasured_scroll(2),
        sign_in: closed_dialog(),
    }
}

/// The session that continues `saved`: what was kept is taken over, with
/// no message counting as analyzed; the rest is as in a new session.
pub open spec fn restored_app(saved: SavedView) -> AppView {
    AppView {
        label: saved.label,
        checkpoints: saved.checkpoints,
        reset_modal_open: saved.reset_modal_open,
        chat_history: Seq::new(
            saved.chat_history.len(),
            |i: int| MessageView { analyzed: false, ..saved.chat_history[i] },
        ),
        current_input: saved.current_input,
        scroll: unmeasured_scroll(saved.chat_history.len() as int),
        ..initial_app()
    }
}

/// What of `app` is kept from one run to the next.
pub open spec fn saved_part(app: AppView) -> SavedView {
    SavedView {
        label: app.label,
        checkpoints: app.checkpoints,
        reset_modal_open: app.reset_modal_open,
        chat_history: app.chat_history,
        current_input: app.current_input,
    }
}

/// Whether `message` may be sent now: it is not blank, and no request is
/// in flight.
pub open spec fn can_send(app: AppView, message: Seq<char>) -> bool {
    !is_blank(message) && !app.is_loading
}

/// `app` with one more message at the end of its history, which the view
/// then follows.
pub open spec fn with_message(app: AppView, message: MessageView) -> AppView {
    AppView {
        chat_history: app.chat_history.push(message),
        scroll: ScrollView {
            heights: padded(
                app.scroll.heights,
                app.scroll.estimated_default_height,
                (app.chat_history.len() + 1) as int,
            ),
            stick_to_bottom: true,
            ..app.scroll
        },
        ..app
    }
}

/// `app` after `message` was sent: the message stands at the end of the
/// history and a request is in flight.
pub open spec fn after_send(app: AppView, message: Seq<char>) -> AppView {
    AppView { is_loading: true, ..with_message(app, fresh_message(message, true)) }
}

/// `app` after it was asked to send `message`: as it was, where the message
/// may not be sent.
pub open spec fn after_submit(app: AppView, message: Seq<char>) -> AppView {
    if can_send(app, message) {
        after_send(app, message)
    } else {
        app
    }
}

/// `app` after the reply `reply` arrived: the reply stands at the end of
/// the history, analyzed; the checkpoints that it names are completed;
/// nothing is in flight.
pub open spec fn after_reply(app: AppView, reply: Seq<char>) -> AppView {
    let outcome = analysis(fresh_message(reply, false), app.checkpoints);
    AppView { checkpoints: outcome.1, is_loading: false, ..with_message(app, outcome.0) }
}

/// `app` after a request failed with `error`: the error is on display, the
/// last message may be sent again if it is one of the user, and nothing is
/// in flight. The history is as it was.
pub open spec fn after_error(app: AppView, error: Seq<char>) -> AppView {
    AppView {
        error_modal: Some(error),
        pending_message: if app.chat_history.len() > 0 && app.chat_history.last().from_user {
            Some(app.chat_history.last().content)
        } else {
            app.pending_message
        },
        is_loading: false,
        ..app
    }
}

/// `app` after the mailbox `pending` was emptied into it: first the reply,
/// if there is one, then the error, if there is one.
pub open spec fn after_drain(app: AppView, pending: PendingView) -> AppView {
    let replied = match pending.response {
        Some(reply) => after_reply(app, reply),
        None => app,
    };
    match pending.error {
        Some(error) => after_error(replied, error),
        None => replied,
    }
}

/// `app` after the user asked to send the failed message again: it is sent
/// as any message is, and the error is gone either way.
pub open spec fn after_retry(app: AppView) -> AppView {
    let cleared = AppView { pending_message: None, ..app };
    let sent = match app.pending_message {
        Some(message) => after_submit(cleared, message),
        None => cleared,
    };
    AppView { error_modal: None, ..sent }
}

/// Whether every message of the history has a height estimate.
pub open spec fn heights_cover_history(app: AppView) -> bool {
    app.scroll.heights.len() >= app.chat_history.len()
}

/// Every message has a height estimate: in a new session, in one that
/// continues a saved one, and after each step of a session where it was so
/// before.
pub proof fn lemma_heights_cover_history(
    app: AppView,
    saved: SavedView,
    text: Seq<char>,
    pending: PendingView,
)
    ensures
        heights_cover_history(initial_app()),
        heights_cover_history(restored_app(saved)),
        heights_cover_history(app) ==> heights_cover_history(after_submit(app, text)),
        heights_cover_history(app) ==> heights_cover_history(after_reply(app, text)),
        heights_cover_history(app) ==> heights_cover_history(after_error(app, text)),
        heights_cover_history(app) ==> heights_cover_history(after_drain(app, pending)),
        heights_cover_history(app) ==> heights_cover_history(after_retry(app)),
{
}

/// The history only grows at its end: each step of a session keeps the
/// messages that were there, in their places.
pub proof fn lemma_history_only_grows(app: AppView, text: Seq<char>, pending: PendingView)
    ensures
        app.chat_history.is_prefix_of(after_submit(app, text).chat_history),
        app.chat_history.is_prefix_of(after_reply(app, text).chat_history),
        app.chat_history.is_prefix_of(after_error(app, text).chat_history),
        app.chat_history.is_prefix_of(after_drain(app, pending).chat_history),
        app.chat_history.is_prefix_of(after_retry(app).chat_history),
{
    assert(app.chat_history.is_prefix_of(app.chat_history));
    let sent = app.chat_history.push(fresh_message(text, true));
    assert(app.chat_history.is_prefix_of(sent));
    let replied = after_reply(app, text).chat_history;
    assert(app.chat_history.is_prefix_of(replied));
    match pending.response {
        Some(reply) => {
            assert(app.chat_history.is_prefix_of(after_reply(app, reply).chat_history));
        },
        None => {},
    }
    match app.pending_message {
        Some(message) => {
            assert(app.chat_history.is_prefix_of(
                app.chat_history.push(fresh_message(message, true)),
            ));
        },
        None => {},
    }
}

/// A request leaves only from a session with nothing in flight, and then
/// one is in flight: while it is, no second one leaves.
pub proof fn lemma_one_request_in_flight(app: AppView, first: Seq<char>, second: Seq<char>)
    ensures
        app.is_loading ==> after_submit(app, first) == app,
        can_send(app, first) ==> after_submit(app, first).is_loading,
        can_send(app, first) ==> after_submit(after_submit(app, first), second) == after_submit(
            app,
            first,
        ),
{
}

/// A blank message adds nothing to the history and puts nothing in flight.
pub proof fn lemma_blank_message_changes_nothing(app: AppView, message: Seq<char>)
    requires
        is_blank(message),
    ensures
        after_submit(app, message) == app,
{
}

/// A failed request adds no message to the history; where the history ends
/// with a message of the user, that message may be sent again.
pub proof fn lemma_error_keeps_history(app: AppView, error: Seq<char>)
    ensures
        after_error(app, error).chat_history == app.chat_history,
        after_error(app, error).checkpoints == app.checkpoints,
        !after_error(app, error).is_loading,
        app.chat_history.len() > 0 && app.chat_history.last().from_user ==> after_error(
            app,
            error,
        ).pending_message == Some(app.chat_history.last().content),
{
}

/// A copy of `history`.
pub fn clone_history(history: &Vec<Message>) -> (copy: Vec<Message>)
    ensures
        copy.deep_view() == history.deep_view(),
{
    let mut copy: Vec<Message> = Vec::new();
    let mut i: usize = 0;
    while i < history.len()
        invariant
            i <= history.len(),
            copy.len() == i,
            forall|j: int| 0 <= j < i ==> (#[trigger] copy@[j])@ == history@[j]@,
        decreases history.len() - i,
    {
        copy.push(history[i].clone());
        i += 1;
    }
    assert(copy.deep_view() =~= history.deep_view());
    copy
}

/// A copy of `checkpoints`.
pub fn clone_checkpoints(checkpoints: &Vec<Checkpoint>) -> (copy: Vec<Checkpoint>)
    ensures
        copy.deep_view() == checkpoints.deep_view(),
{
    let mut copy: Vec<Checkpoint> = Vec::new();
    let mut i: usize = 0;
    while i < checkpoints.len()
        invariant
            i <= checkpoints.len(),
            copy.len() == i,
            forall|j: int| 0 <= j < i ==> (#[trigger] copy@[j])@ == checkpoints@[j]@,
        decreases checkpoints.len() - i,
    {
        copy.push(checkpoints[i].clone());
        i += 1;
    }
    assert(copy.deep_view() =~= checkpoints.deep_view());
    copy
}

/// The two messages that open a new session.
pub fn default_history() -> (history: Vec<Message>)
    ensures
        history.deep_view() == seed_history(),
{
    let mut history: Vec<Message> = Vec::new();
    history.push(Message::user(String::from_str(OPENING_MESSAGE)));
    let mut greeting = Message::assistant(String::from_str(GREETING));
    greeting.cacheable = true;
    history.push(greeting);
    assert(history.deep_view() =~= seed_history());
    history
}

impl Default for LearningApp {
    fn default() -> (app: Self)
        ensures
            app@ == initial_app(),
    {
        let mut scroll_state = ScrollState::new(DEFAULT_MESSAGE_HEIGHT);
        scroll_state.ensure_item_count(2);
        LearningApp {
            label: String::from_str(DEFAULT_LABEL),
            checkpoints: default_checkpoints(),
            reset_modal_open: false,
            chat_history: default_history(),
            current_input: String::new(),
            error_modal: None,
            pending_message: None,
            is_loading: false,
            scroll_state,
            sign_in: SignInFlow::default(),
        }
    }
}

impl LearningApp {
    /// The session to start with: the one that continues `saved`, or a new
    /// one where nothing was saved.
    pub fn new(saved: Option<SavedSession>) -> (app: Self)
        ensures
            app@ == match saved {
                Some(s) => restored_app(s@),
                None => initial_app(),
            },
    {
        match saved {
            None => LearningApp::default(),
            Some(s) => {
                let ghost kept = s@;
                let mut chat_history = s.chat_history;
                let mut i: usize = 0;
                while i < chat_history.len()
                    invariant
                        i <= chat_history.len(),
                        chat_history.len() == kept.chat_history.len(),
                        forall|j: int|
                            0 <= j < i ==> (#[trigger] chat_history@[j])@ == (MessageView {
                                analyzed: false,
                                ..kept.chat_history[j]
                            }),
                        forall|j: int|
                            i <= j < chat_history.len() ==> (#[trigger] chat_history@[j])@
                                == kept.chat_history[j],
                    decreases chat_history.len() - i,
                {
                    let mut message = chat_history[i].clone();
                    message.analyzed = false;
                    chat_history.set(i, message);
                    i += 1;
                }
                let mut scroll_state = ScrollState::new(DEFAULT_MESSAGE_HEIGHT);
                scroll_state.ensure_item_count(chat_history.len());
                let app = LearningApp {
                    label: s.label,
                    checkpoints: s.checkpoints,
                    reset_modal_open: s.reset_modal_open,
                    chat_history,
                    current_input: s.current_input,
                    error_modal: None,
                    pending_message: None,
                    is_loading: false,
                    scroll_state,
                    sign_in: SignInFlow::default(),
                };
                assert(app@.chat_history =~= restored_app(kept).chat_history);
                app
            },
        }
    }

    /// What of the session is kept from one run to the next.
    pub fn to_saved(&self) -> (saved: SavedSession)
        ensures
            saved@ == saved_part(self@),
    {
        SavedSession {
            label: self.label.clone(),
            checkpoints: clone_checkpoints(&self.checkpoints),
            reset_modal_open: self.reset_modal_open,
            chat_history: clone_history(&self.chat_history),
            current_input: self.current_input.clone(),
        }
    }

    /// Starts the lesson over: the session becomes a new one. Who is signed
    /// in stays as it is.
    pub fn reset_to_default(&mut self, auth: &mut AuthState)
        ensures
            final(self)@ == initial_app(),
            final(auth)@ == old(auth)@,
    {
        let saved_email = clone_text(&auth.email);
        let saved_token = clone_text(&auth.access_token);
        let saved_signed_in = auth.signed_in;
        *self = LearningApp::default();
        auth.email = saved_email;
        auth.access_token = saved_token;
        auth.signed_in = saved_signed_in;
    }

    /// Puts `message` at the end of the history, which the view then
    /// follows.
    fn push_message(&mut self, message: Message)
        ensures
            final(self)@ == with_message(old(self)@, message@),
    {
        self.chat_history.push(message);
        self.scroll_state.ensure_item_count(self.chat_history.len());
        self.scroll_state.set_stick_to_bottom(true);
        assert(self@.chat_history =~= old(self)@.chat_history.push(message@));
    }

    /// Sends `message`: it goes to the end of the history and a request for
    /// a reply leaves, with the history before the message. A blank message
    /// is not sent, and none is while a request is in flight.
    pub fn send_message(&mut self, message: String) -> (request: Option<Outgoing>)
        ensures
            final(self)@ == after_submit(old(self)@, message@),
            match request {
                Some(out) => {
                    &&& can_send(old(self)@, message@)
                    &&& out.user_message@ == message@
                    &&& out.chat_history.deep_view() == old(self)@.chat_history
                },
                None => !can_send(old(self)@, message@),
            },
    {
        if self.is_loading || str_is_blank(message.as_str()) {
            return None;
        }
        let history = clone_history(&self.chat_history);
        self.push_message(Message::user(message.clone()));
        self.is_loading = true;
        Some(Outgoing { user_message: message, chat_history: history })
    }

    /// Takes note of a failed request: the error goes on display, and the
    /// last message may be sent again if it is one of the user.
    pub fn handle_api_error(&mut self, error: String)
        ensures
            final(self)@ == (AppView { is_loading: old(self)@.is_loading, ..after_error(
                old(self)@,
                error@,
            ) }),
    {
        self.error_modal = Some(error);
        let count = self.chat_history.len();
        if count > 0 {
            if self.chat_history[count - 1].from_user {
                self.pending_message = Some(self.chat_history[count - 1].content.clone());
            }
        }
    }

    /// Sends the failed message again, if there is one, and takes the error
    /// off display.
    pub fn retry_last_message(&mut self) -> (request: Option<Outgoing>)
        ensures
            final(self)@ == after_retry(old(self)@),
            match request {
                Some(out) => {
                    &&& old(self)@.pending_message matches Some(message)
                    &&& can_send(old(self)@, message)
                    &&& out.user_message@ == message
                    &&& out.chat_history.deep_view() == old(self)@.chat_history
                },
                None => old(self)@.pending_message matches Some(message) ==> !can_send(
                    old(self)@,
                    message,
                ),
            },
    {
        let request = match self.pending_message.take() {
            Some(message) => self.send_message(message),
            None => None,
        };
        self.error_modal = None;
        request
    }

    /// Takes the error off display and gives up sending the failed message
    /// again.
    pub fn dismiss_error(&mut self)
        ensures
            final(self)@ == (AppView { error_modal: None, pending_message: None, ..old(self)@ }),
    {
        self.error_modal = None;
        self.pending_message = None;
    }

    /// Looks for checkpoint markers in the message at `message_idx`, where
    /// there is one.
    pub fn scan_message_for_checkpoints(&mut self, message_idx: usize)
        ensures
            message_idx >= old(self)@.chat_history.len() ==> final(self)@ == old(self)@,
            message_idx < old(self)@.chat_history.len() ==> final(self)@ == ({
                let outcome = analysis(
                    old(self)@.chat_history[message_idx as int],
                    old(self)@.checkpoints,
                );
                AppView {
                    chat_history: old(self)@.chat_history.update(message_idx as int, outcome.0),
                    checkpoints: outcome.1,
                    ..old(self)@
                }
            }),
    {
        if message_idx >= self.chat_history.len() {
            return ;
        }
        let mut message = self.chat_history[message_idx].clone();
        analyze_message(&mut message, &mut self.checkpoints);
        self.chat_history.set(message_idx, message);
        assert(self@.chat_history =~= old(self)@.chat_history.update(
            message_idx as int,
            message@,
        ));
    }

    /// Empties the mailbox into the session: a reply goes to the end of the
    /// history and is analyzed, an error goes on display; either ends the
    /// request in flight.
    pub fn drain_pending_result(&mut self, pending: &mut PendingState)
        ensures
            final(self)@ == after_drain(old(self)@, old(pending)@),
            final(pending)@ == (PendingView { response: None, error: None }),
    {
        match pending.response.take() {
            Some(reply) => {
                let mut message = Message::assistant(reply);
                analyze_message(&mut message, &mut self.checkpoints);
                self.push_message(message);
                self.is_loading = false;
            },
            None => {},
        }
        match pending.error.take() {
            Some(error) => {
                self.handle_api_error(error);
                self.is_loading = false;
            },
            None => {},
        }
    }

    /// What a press on the send button does. Signed out, it opens the
    /// sign-in dialog. Signed in, it sends what was entered and empties the
    /// entry, unless the entry is blank or a request is in flight.
    pub fn submit_current_input(&mut self, auth: &AuthState) -> (request: Option<Outgoing>)
        ensures
            final(self)@ == if old(self)@.is_loading {
                old(self)@
            } else if !auth@.signed_in {
                AppView {
                    sign_in: SignInView { modal_open: true, ..old(self)@.sign_in },
                    ..old(self)@
                }
            } else if is_blank(old(self)@.current_input) {
                old(self)@
            } else {
                after_send(
                    AppView { current_input: Seq::empty(), ..old(self)@ },
                    old(self)@.current_input,
                )
            },
            match request {
                Some(out) => {
                    &&& auth@.signed_in
                    &&& can_send(old(self)@, old(self)@.current_input)
                    &&& out.user_message@ == old(self)@.current_input
                    &&& out.chat_history.deep_view() == old(self)@.chat_history
                },
                None => !auth@.signed_in || !can_send(old(self)@, old(self)@.current_input),
            },
    {
        if self.is_loading {
            return None;
        }
        if !auth.signed_in {
            self.sign_in.open();
            return None;
        }
        if str_is_blank(self.current_input.as_str()) {
            return None;
        }
        let message = self.current_input.clone();
        self.current_input = String::new();
        self.send_message(message)
    }

    /// Opens the dialog that asks whether to start the lesson over.
    pub fn open_reset_modal(&mut self)
        ensures
            final(self)@ == (AppView { reset_modal_open: true, ..old(self)@ }),
    {
        self.reset_modal_open = true;
    }

    /// Closes that dialog and leaves the lesson as it is.
    pub fn cancel_reset(&mut self)
        ensures
            final(self)@ == (AppView { reset_modal_open: false, ..old(self)@ }),
    {
        self.reset_modal_open = false;
    }

    /// Starts the lesson over, as the user confirmed in that dialog, which
    /// is then closed.
    pub fn confirm_reset(&mut self, auth: &mut AuthState)
        ensures
            final(self)@ == initial_app(),
            final(auth)@ == old(auth)@,
    {
        self.reset_to_default(auth);
        self.reset_modal_open = false;
    }

    /// Installs the measured height of the message at `index`, where there
    /// is one.
    pub fn record_message_height(&mut self, index: usize, height: u32)
        ensures
            final(self)@ == if index < old(self)@.chat_history.len() {
                AppView {
                    scroll: ScrollView {
                        heights: crate::scroll::with_measured(
                            old(self)@.scroll.heights,
                            old(self)@.scroll.estimated_default_height,
                            index as int,
                            height,
                        ),
                        ..old(self)@.scroll
                    },
                    ..old(self)@
                }
            } else {
                old(self)@
            },
    {
        if index < self.chat_history.len() {
            self.scroll_state.record_measured_height(index, height);
        }
    }

    /// The window `(start, end)` of messages to draw for a viewport of
    /// height `viewport_height` scrolled to `scroll_offset`: that of the
    /// scroll model, kept within the history.
    pub fn visible_messages(&self, scroll_offset: u64, viewport_height: u64) -> (r: (
        usize,
        usize,
    ))
        ensures
            0 <= r.0 <= r.1 <= self@.chat_history.len(),
            ({
                let window = visible_window(
                    self@.scroll.heights,
                    scroll_offset as int,
                    viewport_height as int,
                );
                let count = self@.chat_history.len() as int;
                &&& r.0 == if window.0 <= count {
                    window.0
                } else {
                    count
                }
                &&& r.1 == if window.1 <= count {
                    window.1
                } else {
                    count
                }
            }),
    {
        let window = self.scroll_state.visible_range(scroll_offset, viewport_height);
        let count = self.chat_history.len();
        let start = if window.0 <= count {
            window.0
        } else {
            count
        };
        let end = if window.1 <= count {
            window.1
        } else {
            count
        };
        (start, end)
    }
}

} // verus!
