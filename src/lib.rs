//! Decision logic of an interactive, step-by-step runner: an operator walks
//! through an ordered list of "execute, then check" steps, each command is sent
//! to a remote endpoint, and the operator confirms every move.
//!
//! Every module here is a pure decision procedure: the caller performs the
//! input, output and remote calls it asks for and reports back what happened.

pub mod prompt;
pub mod step;
pub mod run;
pub mod ticker;
