//! A verified core for a small interactive shell.
//!
//! The library holds the logic of the shell: splitting an input line into a
//! command name and arguments, recognising the fixed built-in commands,
//! selecting the first executable match on a search path, deciding how a
//! parsed command is dispatched, and preparing the text that the shell
//! prints. Reading input, querying the environment and the filesystem, and
//! spawning child processes are left to a thin unverified front end, which
//! feeds the outcomes of those probes back into the verified dispatcher.

pub mod builtins;
pub mod dispatch;
pub mod errors;
pub mod numbers;
pub mod output;
pub mod resolver;
pub mod text;
pub mod tokenizer;
