//! Builds a code-review prompt from a diff while keeping the diff under an
//! approximate token budget.
pub mod budget;
pub mod reducer;
pub mod review;
