//! A small profile directory: an ordered store of profiles, a faceted filter
//! over it, the context handed to the `filter` template, and the decision
//! logic of the `contains` template helper.

pub mod counter;
pub mod filter;
pub mod helper;
pub mod profile;
pub mod seed;
