//! A snapshot of the environment that a diff viewer reads at start-up, and
//! the rules that pick the pager command it hands its output to.

pub mod env;
pub mod pager;
