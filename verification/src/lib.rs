//! The logic of a tutoring chat: checkpoint markers in assistant replies,
//! the height model of a virtualized message list, the chat session, the
//! sign-in flow and the framing of completion requests.

pub mod auth;
pub mod checkpoint;
pub mod dispatch;
pub mod marker;
pub mod message;
pub mod prompt;
pub mod scroll;
pub mod session;
pub mod text;

pub use crate::auth::initialize_auth_state;
pub use crate::auth::AuthState;
pub use crate::dispatch::make_anthropic_request;
pub use crate::dispatch::PendingState;
pub use crate::prompt::get_system_message;
pub use crate::session::LearningApp;
