//! A small interactive shell core: tokenizing a command line, resolving
//! built-in commands, deciding between built-in and external dispatch, and
//! classifying the terminal status of a launched child process.

pub mod builtins;
pub mod dispatch;
pub mod launch;
pub mod tokenizer;
