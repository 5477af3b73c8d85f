//! Supervision of a game-server process: a line parser that turns console
//! output into events, a state machine that decides how tasks and process
//! observations are handled, the host-side handle state, and the text logic
//! of the chat bot around it.
pub mod bot;
pub mod events;
pub mod handle;
pub mod parse;
pub mod server;
pub mod settings;
pub mod supervisor;
pub mod text;
