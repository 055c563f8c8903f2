//! Holding a conversation: launching it, leaving it, and the commands that can be
//! given from within it.

pub mod composition;
pub mod control;
pub mod exits;
pub mod launch;
pub mod native;
