//! Continuous integration for patch-based workflows: the decisions of the
//! patch-application pipeline and of the CI build-lifecycle driver, stated
//! and proved over plain values.
//!
//! The library computes what to run, what to ask the CI server and what an
//! answer means. Running git, talking HTTP and sleeping between polls are left
//! to the caller, which feeds the outcomes back in.

pub mod json;

pub mod driver;
pub mod git;
pub mod jenkins;
pub mod settings;
