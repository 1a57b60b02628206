//! Run-and-invert: the decisions of a tool that runs a program and reports
//! success when that program fails or crashes, and failure when it succeeds.
//!
//! The library holds every decision of such a tool as a function from plain
//! values to plain values: how the command line is read, what is printed when
//! the program cannot be found, how the way the child ended is classified, and
//! which exit code follows. Looking the program up, spawning it and waiting
//! for it are left to the caller, who hands the results in.

pub mod command_line;
pub mod diagnostics;
pub mod failure;
pub mod outcome;
pub mod policy;
pub mod verdict;
