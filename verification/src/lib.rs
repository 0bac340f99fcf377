//! Verified core of a command-line project scaffolder.
//!
//! Every operation of the tool is modelled as a pure computation: the
//! command surface selects a variant, the name resolver picks the effective
//! name, the template renderer produces file contents, and the orchestrator
//! turns an invocation into a plan — a sequence of actions (create a
//! directory, write a file, run a program, print text). An unverified shell
//! around this library parses the command line and carries the plan out.

pub mod cli;
pub mod model;
pub mod names;
pub mod plan;
pub mod templates;
