//! Bootstrap synthesis for connector programs.
//!
//! A connector author writes one asynchronous function that produces records
//! (a source) or consumes them (a sink). This library builds the program
//! around it: the `main` procedure that parses `--config`, starts logging,
//! loads the configuration, constructs the client, registers metrics and
//! runs the author's function.

pub mod ast;
pub mod emit;
pub mod generator;
pub mod lifecycle;
pub mod options;
pub mod prologue;
pub mod stream;
pub mod token;
