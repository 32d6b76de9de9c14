//! What goes to the remote services and what is made of their answers: the
//! completion request built from the chat, the reading of each answer, and
//! the mailbox through which a result reaches the chat.

use vstd::prelude::*;
use vstd::string::StringExecFns;

use crate::auth::clone_text;
use crate::auth::signed_in_as;
use crate::auth::AuthState;
use crate::message::Message;
use crate::message::MessageView;
use crate::prompt::get_system_message;
use crate::prompt::system_message;
use crate::text::decimal;
use crate::text::decimal_string;

verus! {

/// The most tokens that a reply may have.
pub const MAX_TOKENS: u32 = 2048;

/// The sampling temperature, in hundredths: zero, so that the same
/// conversation gets the same reply.
pub const TEMPERATURE_HUNDREDTHS: u32 = 0;

/// One turn of the conversation as the completion service takes it.
#[derive(Debug, PartialEq, Eq)]
pub struct AnthropicMessage {
    pub role: String,
    pub content: String,
    pub cacheable: bool,
}

/// A turn as plain values.
pub struct TurnView {
    pub role: Seq<char>,
    pub content: Seq<char>,
    pub cacheable: bool,
}

impl View for AnthropicMessage {
    type V = TurnView;

    open spec fn view(&self) -> TurnView {
        TurnView { role: self.role@, content: self.content@, cacheable: self.cacheable }
    }
}

impl DeepView for AnthropicMessage {
    type V = TurnView;

    open spec fn deep_view(&self) -> TurnView {
        self@
    }
}

/// A request to the completion service.
#[derive(Debug, PartialEq, Eq)]
pub struct AnthropicRequest {
    pub messages: Vec<AnthropicMessage>,
    pub max_tokens: u32,
    pub temperature_hundredths: u32,
    pub system: String,
    pub email: Option<String>,
}

/// A completion request as plain values.
pub struct RequestView {
    pub messages: Seq<TurnView>,
    pub max_tokens: u32,
    pub temperature_hundredths: u32,
    pub system: Seq<char>,
    pub email: Option<Seq<char>>,
}

impl View for AnthropicRequest {
    type V = RequestView;

    open spec fn view(&self) -> RequestView {
        RequestView {
            messages: self.messages.deep_view(),
            max_tokens: self.max_tokens,
            temperature_hundredths: self.temperature_hundredths,
            system: self.system@,
            email: self.email.deep_view(),
        }
    }
}

/// One block of a reply of the completion service.
#[derive(Debug, PartialEq, Eq)]
pub struct ContentItem {
    pub text: String,
    pub content_type: String,
}

/// A content block as plain values.
pub struct ContentView {
    pub text: Seq<char>,
    pub content_type: Seq<char>,
}

impl View for ContentItem {
    type V = ContentView;

    open spec fn view(&self) -> ContentView {
        ContentView { text: self.text@, content_type: self.content_type@ }
    }
}

impl DeepView for ContentItem {
    type V = ContentView;

    open spec fn deep_view(&self) -> ContentView {
        self@
    }
}

/// What came of one request to a remote service.
#[derive(Debug, PartialEq, Eq)]
pub enum Exchange {
    /// No answer came; the text says why.
    Failed(String),
    /// An answer came: its status code, and its body or, where the body
    /// could not be read, the reason.
    Answered(u16, Result<String, String>),
}

/// The turn that stands for `message` in a request.
pub open spec fn turn_of(message: MessageView) -> TurnView {
    TurnView {
        role: if message.from_user {
            "user"@
        } else {
            "assistant"@
        },
        content: message.content,
        cacheable: false,
    }
}

/// The completion request for a new message of the user after `history`:
/// one turn for each earlier message, in order, then the new message as a
/// turn of the user; the system message; the fixed sampling parameters; and
/// the address of the user where it is known.
pub open spec fn completion_request(
    user_message: Seq<char>,
    history: Seq<MessageView>,
    email: Option<Seq<char>>,
) -> RequestView {
    RequestView {
        messages: Seq::new(history.len(), |i: int| turn_of(history[i])).push(
            TurnView { role: "user"@, content: user_message, cacheable: false },
        ),
        max_tokens: MAX_TOKENS,
        temperature_hundredths: TEMPERATURE_HUNDREDTHS,
        system: system_message(),
        email,
    }
}

/// Whether `status` says that a request succeeded.
pub open spec fn is_success_status(status: u16) -> bool {
    200 <= status <= 299
}

/// The texts of the first `upto` blocks of `items` that are of type `text`,
/// one after the other.
pub open spec fn joined_text(items: Seq<ContentView>, upto: int) -> Seq<char>
    decreases upto,
{
    if upto <= 0 {
        Seq::empty()
    } else if items[upto - 1].content_type == "text"@ {
        joined_text(items, upto - 1) + items[upto - 1].text
    } else {
        joined_text(items, upto - 1)
    }
}

/// The text of a reply: the texts of its blocks of type `text`, one after
/// the other.
pub open spec fn reply_text(items: Seq<ContentView>) -> Seq<char> {
    joined_text(items, items.len() as int)
}

/// Builds the completion request for `user_message` after `chat_history`.
pub fn make_anthropic_request(user_message: String, chat_history: &Vec<Message>, auth: &AuthState)
    -> (request: AnthropicRequest)
    ensures
        request@ == completion_request(user_message@, chat_history.deep_view(), auth@.email),
{
    let mut messages: Vec<AnthropicMessage> = Vec::new();
    let mut i: usize = 0;
    while i < chat_history.len()
        invariant
            i <= chat_history.len(),
            messages.len() == i,
            forall|j: int|
                0 <= j < i ==> (#[trigger] messages@[j])@ == turn_of(chat_history.deep_view()[j]),
        decreases chat_history.len() - i,
    {
        let role = if chat_history[i].from_user {
            String::from_str("user")
        } else {
            String::from_str("assistant")
        };
        messages.push(
            AnthropicMessage { role, content: chat_history[i].content.clone(), cacheable: false },
        );
        i += 1;
    }
    messages.push(
        AnthropicMessage { role: String::from_str("user"), content: user_message, cacheable: false },
    );
    let request = AnthropicRequest {
        messages,
        max_tokens: MAX_TOKENS,
        temperature_hundredths: TEMPERATURE_HUNDREDTHS,
        system: get_system_message(),
        email: clone_text(&auth.email),
    };
    assert(request@.messages =~= completion_request(
        user_message@,
        chat_history.deep_view(),
        auth@.email,
    ).messages);
    request
}

/// Whether `status` says that a request succeeded.
pub fn status_is_success(status: u16) -> (success: bool)
    ensures
        success == is_success_status(status),
{
    200 <= status && status <= 299
}

/// What asking for a code came to: sent on any success status; otherwise
/// the error is the body of the answer as it stands, or the reason why no
/// answer or no body came.
pub fn otp_request_outcome(exchange: Exchange) -> (outcome: Result<(), String>)
    ensures
        match exchange {
            Exchange::Failed(cause) => outcome matches Err(e) && e@ == "Network error: "@
                + cause@,
            Exchange::Answered(status, body) => if is_success_status(status) {
                outcome is Ok
            } else {
                match body {
                    Ok(text) => outcome matches Err(e) && e@ == text@,
                    Err(cause) => outcome matches Err(e) && e@ == cause@,
                }
            },
        },
{
    match exchange {
        Exchange::Failed(cause) => Err(String::from_str("Network error: ").concat(cause.as_str())),
        Exchange::Answered(status, body) => {
            if status_is_success(status) {
                Ok(())
            } else {
                match body {
                    Ok(text) => Err(text),
                    Err(cause) => Err(cause),
                }
            }
        },
    }
}

/// The body of the answer to a verification, where the service accepted
/// the code; otherwise the error.
pub fn verification_body(exchange: Exchange) -> (outcome: Result<String, String>)
    ensures
        match exchange {
            Exchange::Failed(cause) => outcome matches Err(e) && e@ == "Network error: "@
                + cause@,
            Exchange::Answered(status, body) => match body {
                Err(cause) => outcome matches Err(e) && e@ == cause@,
                Ok(text) => if is_success_status(status) {
                    outcome matches Ok(b) && b@ == text@
                } else {
                    outcome matches Err(e) && e@ == "Failed to verify OTP: "@ + text@
                },
            },
        },
{
    match exchange {
        Exchange::Failed(cause) => Err(String::from_str("Network error: ").concat(cause.as_str())),
        Exchange::Answered(status, body) => {
            match body {
                Err(cause) => Err(cause),
                Ok(text) => {
                    if status_is_success(status) {
                        Ok(text)
                    } else {
                        Err(String::from_str("Failed to verify OTP: ").concat(text.as_str()))
                    }
                },
            }
        },
    }
}

/// Signs `email` in with the access token that the identity service sent,
/// or says why not: the answer could not be understood, or its token is
/// empty. Without a token nothing changes.
pub fn complete_sign_in(auth: &mut AuthState, email: &str, access_token: Result<String, String>)
    -> (outcome: Result<(), String>)
    ensures
        match access_token {
            Err(cause) => {
                &&& outcome matches Err(e) && e@ == cause@
                &&& final(auth)@ == old(auth)@
            },
            Ok(token) => if token@.len() == 0 {
                &&& outcome matches Err(e) && e@ == "Invalid authentication response"@
                &&& final(auth)@ == old(auth)@
            } else {
                &&& outcome is Ok
                &&& final(auth)@ == signed_in_as(email@, token@)
            },
        },
{
    match access_token {
        Err(cause) => Err(cause),
        Ok(token) => {
            if token.as_str().is_empty() {
                Err(String::from_str("Invalid authentication response"))
            } else {
                auth.signed_in = true;
                auth.email = Some(String::from_str(email));
                auth.access_token = Some(token);
                Ok(())
            }
        },
    }
}

/// The body of the answer to a completion request, where the service
/// answered with a success status; otherwise the error, which names the
/// status where the service answered with another one.
pub fn completion_body(exchange: Exchange) -> (outcome: Result<String, String>)
    ensures
        match exchange {
            Exchange::Failed(cause) => outcome matches Err(e) && e@ == "Network error: "@
                + cause@,
            Exchange::Answered(status, body) => if !is_success_status(status) {
                outcome matches Err(e) && e@ == "Server error: "@ + decimal(status as nat)
            } else {
                match body {
                    Err(cause) => outcome matches Err(e) && e@
                        == "Failed to get response text: "@ + cause@,
                    Ok(text) => outcome matches Ok(b) && b@ == text@,
                }
            },
        },
{
    match exchange {
        Exchange::Failed(cause) => Err(String::from_str("Network error: ").concat(cause.as_str())),
        Exchange::Answered(status, body) => {
            if !status_is_success(status) {
                Err(
                    String::from_str("Server error: ").concat(
                        decimal_string(status as u128).as_str(),
                    ),
                )
            } else {
                match body {
                    Err(cause) => Err(
                        String::from_str("Failed to get response text: ").concat(cause.as_str()),
                    ),
                    Ok(text) => Ok(text),
                }
            }
        },
    }
}

/// The reply that the blocks of an answer hold, or the error where the
/// answer could not be understood.
pub fn completion_text(parsed: Result<Vec<ContentItem>, String>) -> (outcome: Result<
    String,
    String,
>)
    ensures
        match parsed {
            Err(cause) => outcome matches Err(e) && e@ == "Failed to parse response: "@ + cause@,
            Ok(items) => outcome matches Ok(text) && text@ == reply_text(items.deep_view()),
        },
{
    match parsed {
        Err(cause) => Err(
            String::from_str("Failed to parse response: ").concat(cause.as_str()),
        ),
        Ok(items) => {
            let mut text = String::new();
            let mut i: usize = 0;
            while i < items.len()
                invariant
                    i <= items.len(),
                    text@ == joined_text(items.deep_view(), i as int),
                decreases items.len() - i,
            {
                if items[i].content_type == String::from_str("text") {
                    text.append(items[i].text.as_str());
                }
                i += 1;
            }
            Ok(text)
        },
    }
}

/// The mailbox between a request and the chat: one place for a reply and
/// one for an error. What is posted replaces what lay there.
#[derive(Debug, PartialEq, Eq)]
pub struct PendingState {
    pub response: Option<String>,
    pub error: Option<String>,
}

/// A mailbox as plain values.
pub struct PendingView {
    pub response: Option<Seq<char>>,
    pub error: Option<Seq<char>>,
}

impl View for PendingState {
    type V = PendingView;

    open spec fn view(&self) -> PendingView {
        PendingView { response: self.response.deep_view(), error: self.error.deep_view() }
    }
}

impl Default for PendingState {
    fn default() -> (pending: Self)
        ensures
            pending@ == (PendingView { response: None, error: None }),
    {
        PendingState { response: None, error: None }
    }
}

impl PendingState {
    /// Puts the result of a request into the mailbox.
    pub fn post(&mut self, result: Result<String, String>)
        ensures
            final(self)@ == match result {
                Ok(reply) => PendingView { response: Some(reply@), ..old(self)@ },
                Err(error) => PendingView { error: Some(error@), ..old(self)@ },
            },
    {
        match result {
            Ok(reply) => {
                self.response = Some(reply);
            },
            Err(error) => {
                self.error = Some(error);
            },
        }
    }
}

} // verus!
