//! The verified core of Panda Playground: chat, sketch and voice messages
//! between nearby devices over a gossip network.

pub mod android_init;
pub mod api;
pub mod digest;
pub mod node;
pub mod pcm;
pub mod text;
