//! The logic behind a small launcher window for the Wheatley ringing program:
//! the form the user fills in, the name of the method that is rung, and the
//! supervision of the one process that the form starts.
//!
//! Nothing here touches a window or a process. The supervisor decides what has
//! to happen and in which order; whoever embeds it performs each action and
//! reports how it went.

pub mod error;
pub mod form;
pub mod launch;
pub mod stage;
pub mod supervisor;
pub mod trace;
