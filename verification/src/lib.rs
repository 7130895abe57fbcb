//! Compiles a chain of window-manipulation directives into one script for a
//! desktop scripting host, and plans the session that ships it.

pub mod catalog;
pub mod context;
pub mod directive;
pub mod error;
pub mod fragments;
pub mod grammar;
pub mod lexer;
pub mod parser;
pub mod pipeline;
pub mod session;
pub mod step;
pub mod template;
pub mod text;
pub mod usage;
pub mod window;
