//! Signing in with a one-time code sent by email: who is signed in, the
//! steps of the sign-in dialog, what is checked before a request leaves,
//! and what the user is told when the identity service refuses.

use vstd::prelude::*;
use vstd::string::StringExecFns;

use crate::text::has_occurrence;
use crate::text::str_has_occurrence;

verus! {

/// Who is signed in. It lives apart from the chat: resetting the lesson
/// leaves it as it is.
#[derive(Debug, PartialEq, Eq)]
pub struct AuthState {
    pub signed_in: bool,
    pub email: Option<String>,
    pub access_token: Option<String>,
}

/// An `AuthState` as plain values.
pub struct AuthStateView {
    pub signed_in: bool,
    pub email: Option<Seq<char>>,
    pub access_token: Option<Seq<char>>,
}

impl View for AuthState {
    type V = AuthStateView;

    open spec fn view(&self) -> AuthStateView {
        AuthStateView {
            signed_in: self.signed_in,
            email: self.email.deep_view(),
            access_token: self.access_token.deep_view(),
        }
    }
}

/// Nobody is signed in.
pub open spec fn signed_out() -> AuthStateView {
    AuthStateView { signed_in: false, email: None, access_token: None }
}

/// `email` is signed in with `access_token`.
pub open spec fn signed_in_as(email: Seq<char>, access_token: Seq<char>) -> AuthStateView {
    AuthStateView { signed_in: true, email: Some(email), access_token: Some(access_token) }
}

/// A copy of an optional text.
pub fn clone_text(text: &Option<String>) -> (copy: Option<String>)
    ensures
        copy.deep_view() == text.deep_view(),
{
    match text {
        Some(t) => Some(t.clone()),
        None => None,
    }
}

impl Default for AuthState {
    fn default() -> (auth: Self)
        ensures
            auth@ == signed_out(),
    {
        AuthState { signed_in: false, email: None, access_token: None }
    }
}

impl Clone for AuthState {
    fn clone(&self) -> (copy: Self)
        ensures
            copy@ == self@,
    {
        AuthState {
            signed_in: self.signed_in,
            email: clone_text(&self.email),
            access_token: clone_text(&self.access_token),
        }
    }
}

/// Takes over the sign-in that was stored when the program last ended, if
/// one was stored.
pub fn initialize_auth_state(auth: &mut AuthState, stored: Option<AuthState>)
    ensures
        final(auth)@ == match stored {
            Some(s) => s@,
            None => old(auth)@,
        },
{
    match stored {
        Some(s) => {
            *auth = s;
        },
        None => {},
    }
}

/// What `EmailAddress::is_valid` of the `email_address` crate answers for an
/// address.
pub uninterp spec fn email_is_valid(address: Seq<char>) -> bool;

/// `EmailAddress::is_valid` of the `email_address` crate: whether `address`
/// parses as an email address (an optional display name, a local part, `@`
/// and a domain, within the length limits of the crate). The call reads the
/// text alone and does not panic; all that is claimed here is that the
/// answer is the one that `email_is_valid` names.
#[verifier::external_body]
fn is_valid_email(address: &str) -> (valid: bool)
    ensures
        valid == email_is_valid(address@),
{
    email_address::EmailAddress::is_valid(address)
}

/// Where the sign-in dialog stands.
#[derive(Clone, Copy, Debug, PartialEq, Eq, Structural)]
pub enum AuthStep {
    /// The user enters an email address to get a code.
    EnterEmail,
    /// A code was sent; the user enters it.
    EnterCode,
    /// The user has a code already and enters address and code together.
    HaveCode,
}

/// The request that asks the identity service to send a code.
#[derive(Debug, PartialEq, Eq)]
pub struct OtpRequest {
    pub email: String,
    pub create_user: bool,
}

/// The request that asks the identity service to verify a code.
#[derive(Debug, PartialEq, Eq)]
pub struct VerifyRequest {
    pub email: String,
    pub token: String,
    pub auth_type: String,
}

/// What the identity service answered, as the dialog hears of it.
#[derive(Debug, PartialEq, Eq)]
pub enum AuthMessage {
    /// The answer to a request for a code: sent, or the error text.
    OTPRequested(Result<(), String>),
    /// The answer to a verification: signed in, or the error text.
    OTPVerified(Result<(), String>),
}

/// The sign-in dialog.
#[derive(Debug, PartialEq, Eq)]
pub struct SignInFlow {
    pub modal_open: bool,
    pub email: String,
    pub code: String,
    pub step: AuthStep,
    pub error: Option<String>,
}

/// The sign-in dialog as plain values.
pub struct SignInView {
    pub modal_open: bool,
    pub email: Seq<char>,
    pub code: Seq<char>,
    pub step: AuthStep,
    pub error: Option<Seq<char>>,
}

impl View for SignInFlow {
    type V = SignInView;

    open spec fn view(&self) -> SignInView {
        SignInView {
            modal_open: self.modal_open,
            email: self.email@,
            code: self.code@,
            step: self.step,
            error: self.error.deep_view(),
        }
    }
}

/// The dialog before anything was entered: closed, at its first step.
pub open spec fn closed_dialog() -> SignInView {
    SignInView {
        modal_open: false,
        email: Seq::empty(),
        code: Seq::empty(),
        step: AuthStep::EnterEmail,
        error: None,
    }
}

/// What is wrong with the address entered, if anything; `valid` says
/// whether it is a valid email address.
pub open spec fn email_problem(email: Seq<char>, valid: bool) -> Option<Seq<char>> {
    if email.len() == 0 {
        Some("Please enter an email address"@)
    } else if !valid {
        Some("Please enter a valid email address"@)
    } else {
        None
    }
}

/// What is wrong with the address and the code entered, if anything.
pub open spec fn verification_problem(email: Seq<char>, valid: bool, code: Seq<char>) -> Option<
    Seq<char>,
> {
    match email_problem(email, valid) {
        Some(problem) => Some(problem),
        None => if code.len() == 0 {
            Some("Please enter the verification code"@)
        } else {
            None
        },
    }
}

/// What the user is told when a code could not be sent.
pub open spec fn send_failure_text(error: Seq<char>) -> Seq<char> {
    if has_occurrence(error, "over_email_send_rate_limit"@) {
        "Too many attempts. Please wait a few minutes before trying again."@
    } else {
        "Failed to send code: "@ + error
    }
}

/// What the user is told when a code was not accepted.
pub open spec fn verify_failure_text(error: Seq<char>) -> Seq<char> {
    if has_occurrence(error, "otp_expired"@) {
        "Code has expired or is invalid. Please try again."@
    } else if has_occurrence(error, "invalid_token"@) {
        "Invalid code. Please check and try again."@
    } else if has_occurrence(error, "rate_limit"@) {
        "Too many attempts. Please wait a few minutes before trying again."@
    } else {
        "Error: "@ + error
    }
}

/// The dialog after it heard `message`.
///
/// A code that was sent moves the dialog on to the entry of the code; a
/// verified code closes the dialog; either clears the error. A failure
/// leaves the step as it is and shows what went wrong.
pub open spec fn after_auth_message(
    flow: SignInView,
    message: AuthMessage,
) -> SignInView {
    match message {
        AuthMessage::OTPRequested(Ok(_)) => SignInView {
            step: AuthStep::EnterCode,
            error: None,
            ..flow
        },
        AuthMessage::OTPRequested(Err(e)) => SignInView {
            error: Some(send_failure_text(e@)),
            ..flow
        },
        AuthMessage::OTPVerified(Ok(_)) => SignInView { modal_open: false, error: None, ..flow },
        AuthMessage::OTPVerified(Err(e)) => SignInView {
            error: Some(verify_failure_text(e@)),
            ..flow
        },
    }
}

/// What the user is told when a code could not be sent.
pub fn describe_send_failure(error: &str) -> (text: String)
    ensures
        text@ == send_failure_text(error@),
{
    if str_has_occurrence(error, "over_email_send_rate_limit") {
        String::from_str("Too many attempts. Please wait a few minutes before trying again.")
    } else {
        String::from_str("Failed to send code: ").concat(error)
    }
}

/// What the user is told when a code was not accepted.
pub fn describe_verify_failure(error: &str) -> (text: String)
    ensures
        text@ == verify_failure_text(error@),
{
    if str_has_occurrence(error, "otp_expired") {
        String::from_str("Code has expired or is invalid. Please try again.")
    } else if str_has_occurrence(error, "invalid_token") {
        String::from_str("Invalid code. Please check and try again.")
    } else if str_has_occurrence(error, "rate_limit") {
        String::from_str("Too many attempts. Please wait a few minutes before trying again.")
    } else {
        String::from_str("Error: ").concat(error)
    }
}

impl Default for SignInFlow {
    fn default() -> (flow: Self)
        ensures
            flow@ == closed_dialog(),
    {
        SignInFlow {
            modal_open: false,
            email: String::new(),
            code: String::new(),
            step: AuthStep::EnterEmail,
            error: None,
        }
    }
}

impl SignInFlow {
    /// Opens the dialog.
    pub fn open(&mut self)
        ensures
            final(self)@ == (SignInView { modal_open: true, ..old(self)@ }),
    {
        self.modal_open = true;
    }

    /// Goes to the step for a user who has a code already.
    pub fn have_code(&mut self)
        ensures
            final(self)@ == (SignInView { step: AuthStep::HaveCode, ..old(self)@ }),
    {
        self.step = AuthStep::HaveCode;
    }

    /// Goes back to the first step. The code entered is dropped, the
    /// address stays.
    pub fn back(&mut self)
        ensures
            final(self)@ == (SignInView {
                step: AuthStep::EnterEmail,
                code: Seq::empty(),
                ..old(self)@
            }),
    {
        self.step = AuthStep::EnterEmail;
        self.code = String::new();
    }

    /// Decides on a request for a code, given whether the address entered
    /// is a valid email address. A request leaves only for a valid address;
    /// otherwise the dialog shows what is wrong with it.
    pub fn request_otp_checked(&mut self, email_valid: bool) -> (request: Option<OtpRequest>)
        ensures
            match email_problem(old(self)@.email, email_valid) {
                Some(problem) => {
                    &&& request is None
                    &&& final(self)@ == (SignInView { error: Some(problem), ..old(self)@ })
                },
                None => {
                    &&& request matches Some(r) && r.email@ == old(self)@.email && r.create_user
                    &&& final(self)@ == old(self)@
                },
            },
    {
        if self.email.as_str().is_empty() {
            self.error = Some(String::from_str("Please enter an email address"));
            return None;
        }
        if !email_valid {
            self.error = Some(String::from_str("Please enter a valid email address"));
            return None;
        }
        Some(OtpRequest { email: self.email.clone(), create_user: true })
    }

    /// Asks for a code to be sent to the address entered. A request leaves
    /// only for a valid address; otherwise the dialog shows what is wrong
    /// with it.
    pub fn request_otp(&mut self) -> (request: Option<OtpRequest>)
        ensures
            match email_problem(old(self)@.email, email_is_valid(old(self)@.email)) {
                Some(problem) => {
                    &&& request is None
                    &&& final(self)@ == (SignInView { error: Some(problem), ..old(self)@ })
                },
                None => {
                    &&& request matches Some(r) && r.email@ == old(self)@.email && r.create_user
                    &&& final(self)@ == old(self)@
                },
            },
    {
        let valid = is_valid_email(self.email.as_str());
        self.request_otp_checked(valid)
    }

    /// Decides on a verification, given whether the address entered is a
    /// valid email address. A request leaves only for a valid address and a
    /// code that is not empty; otherwise the dialog shows what is wrong.
    pub fn verify_otp_checked(&mut self, email_valid: bool) -> (request: Option<VerifyRequest>)
        ensures
            match verification_problem(old(self)@.email, email_valid, old(self)@.code) {
                Some(problem) => {
                    &&& request is None
                    &&& final(self)@ == (SignInView { error: Some(problem), ..old(self)@ })
                },
                None => {
                    &&& request matches Some(r) && r.email@ == old(self)@.email && r.token@ == old(
                        self,
                    )@.code && r.auth_type@ == "email"@
                    &&& final(self)@ == old(self)@
                },
            },
    {
        if self.email.as_str().is_empty() {
            self.error = Some(String::from_str("Please enter an email address"));
            return None;
        }
        if !email_valid {
            self.error = Some(String::from_str("Please enter a valid email address"));
            return None;
        }
        if self.code.as_str().is_empty() {
            self.error = Some(String::from_str("Please enter the verification code"));
            return None;
        }
        Some(
            VerifyRequest {
                email: self.email.clone(),
                token: self.code.clone(),
                auth_type: String::from_str("email"),
            },
        )
    }

    /// Asks for the code entered to be verified. A request leaves only for
    /// a valid address and a code that is not empty; otherwise the dialog
    /// shows what is wrong.
    pub fn verify_otp(&mut self) -> (request: Option<VerifyRequest>)
        ensures
            match verification_problem(
                old(self)@.email,
                email_is_valid(old(self)@.email),
                old(self)@.code,
            ) {
                Some(problem) => {
                    &&& request is None
                    &&& final(self)@ == (SignInView { error: Some(problem), ..old(self)@ })
                },
                None => {
                    &&& request matches Some(r) && r.email@ == old(self)@.email && r.token@ == old(
                        self,
                    )@.code && r.auth_type@ == "email"@
                    &&& final(self)@ == old(self)@
                },
            },
    {
        let valid = is_valid_email(self.email.as_str());
        self.verify_otp_checked(valid)
    }

    /// Takes note of what the identity service answered.
    pub fn handle_auth_message(&mut self, message: AuthMessage)
        ensures
            final(self)@ == after_auth_message(old(self)@, message),
    {
        match message {
            AuthMessage::OTPRequested(Ok(_)) => {
                self.step = AuthStep::EnterCode;
                self.error = None;
            },
            AuthMessage::OTPRequested(Err(e)) => {
                self.error = Some(describe_send_failure(e.as_str()));
            },
            AuthMessage::OTPVerified(Ok(_)) => {
                self.modal_open = false;
                self.error = None;
            },
            AuthMessage::OTPVerified(Err(e)) => {
                self.error = Some(describe_verify_failure(e.as_str()));
            },
        }
    }
}

} // verus!
