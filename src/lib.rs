//! Describes a compiler from the banner that it prints for a verbose version
//! query: its host triple, its version and language version, and whether it
//! accepts `--cap-lints`. Running the compiler is left to the caller, which
//! follows the steps of [`probe::next_step`].
pub mod banner;
pub mod probe;
pub mod rustc;
pub mod version;

pub use banner::field_of;
pub use probe::{attempt_invocation, first_attempt, next_step, Attempt, ProbeStep, RunOutcome};
pub use rustc::{Invocation, Rustc, RustcError};
pub use version::{parse_version, Version};
