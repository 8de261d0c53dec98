//! Backing up every repository of an organization: the decisions, verified.
//!
//! The crate holds what a backup run decides and computes: which command
//! lists the repositories, whether a repository is cloned or pulled, how
//! many synchronizations may run at once, and what is reported when all of
//! them have ended. Running the commands and awaiting them is left to the
//! caller.

pub mod cli;
pub mod domain;
pub mod gateway;
pub mod text;
pub mod use_case;
