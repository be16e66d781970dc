//! Verified core of the San Andreas Unbound game mode: the timer registry,
//! the account authentication state machine, password hashing, the player
//! session bookkeeping and the text (queries and messages) that the game mode
//! sends out.
pub mod auth;
pub mod password;
pub mod session;
pub mod text;
pub mod timer;
