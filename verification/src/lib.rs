//! A server of the Model Context Protocol that speaks JSON-RPC line by line.
//!
//! [`line::handle_line`] answers one line of input, [`input::handle_lines`] lines
//! one by one. [`server::dispatch_message`] answers one message or one batch of
//! them. What they answer is said in [`protocol`], and what holds of it whatever
//! is sent, in [`laws`]. [`answers`] and [`parameters`] tell it from the messages
//! themselves, and [`views`] says what values show.
pub mod answers;
pub mod decode;
pub mod input;
pub mod json;
pub mod laws;
pub mod line;
pub mod message;
pub mod parameters;
pub mod protocol;
pub mod server;
pub mod session;
pub mod text;
pub mod value;
pub mod views;
