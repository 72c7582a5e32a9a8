//! What the chat front-end says and understands: the data behind its
//! buttons, the messages it shows, and the links it follows.

pub mod callback;
pub mod render;
pub mod links;
