//! The logic of a minimal interactive command shell: an input line is split
//! into whitespace-separated tokens, the first token is dispatched to one of
//! a fixed set of built-in commands, and each command turns its arguments
//! into an action for the caller to carry out. Directory listings are
//! formatted here, with hidden-file filtering, separator placement and ANSI
//! color decoration; reading directories, standard input and standard output
//! stay with the caller.
pub mod color;
pub mod command;
pub mod listing;
pub mod shell;
pub mod text;
