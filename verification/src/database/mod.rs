//! The flat-file conversation store that came before the database.

pub mod conversation;
pub mod order;
