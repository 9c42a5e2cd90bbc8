//! A line-oriented chat client library: wire codec, session logic,
//! event dispatch and the conversation model.
pub mod client;
pub mod command;
pub mod config;
pub mod dispatch;
pub mod protocol;
pub mod session;
pub mod text;
pub mod ui;
