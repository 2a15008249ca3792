//! The decision logic of a small interactive command shell.
//!
//! The shell itself is a state machine ([`shell::Shell`]) that is told what
//! happened (a line was read, a directory change succeeded, a child ended) and
//! answers with the text to emit and the next thing to do. Everything that
//! touches the operating system is left to the program that hosts it.

pub mod builtins;
pub mod command;
pub mod laws;
pub mod model;
pub mod shell;
pub mod stack;
pub mod status;
pub mod text;
pub mod words;
