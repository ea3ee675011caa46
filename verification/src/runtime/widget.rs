//! Widget requests.
pub mod operation;
