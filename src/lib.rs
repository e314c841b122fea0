//! Triple modular redundancy for computations that ought to be
//! deterministic: run a computation three times, compare the results
//! pairwise and settle on the majority.

pub mod vote;
pub mod wrap;
pub mod report;
pub mod computations;
pub mod laws;

pub use vote::{vote_by, Dissenter, Vote};
pub use wrap::{triple_verify, triple_verify_by};
pub use report::{divergence_message, warning_message};
