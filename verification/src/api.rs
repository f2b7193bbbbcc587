//! What the user interface calls.

pub mod chat;
pub mod error;
pub mod feed;
pub mod laws;
