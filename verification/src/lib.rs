//! An interactive chat client's verified core: the conversation history,
//! the per-turn update rules, the input classifier of the command loop,
//! and the terminal renderer for the model's replies.
pub mod chat;
pub mod render;
pub mod repl;
pub mod text;
