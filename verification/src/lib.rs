//! Client-side logic for a Cloudreve storage backend driven from a chat bot:
//! session credentials, cursor-paginated directory listings and the
//! supervision of remote-download tasks.
//!
//! Nothing here touches the network. Each exchange with the backend comes
//! in two halves: a function that describes the request to send, and one
//! that settles what came back. The caller sends the one and hands the
//! reply to the other.
//!
//! - [`cloudreve`] holds the client: its credential, the transport's
//!   request and reply types, and one module for each endpoint.
//! - [`listing`] browses a directory page by page and remembers the
//!   continuation tokens between pages.
//! - [`monitor`] follows a remote download from its submission to its end.
//! - [`bot`] holds what the chat front-end shows and understands.
//! - [`json`], [`text`] and [`units`] are what the others are built from.

pub mod bot;
pub mod cloudreve;
pub mod json;
pub mod listing;
pub mod monitor;
pub mod text;
pub mod units;
