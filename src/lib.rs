//! Link checking: resolve link text against a site, then classify what a
//! bounded-time probe of the resulting URL reported.

pub mod resolve;
pub mod outcome;
pub mod probe;
