//! A small task store: an ordered list of tasks addressed by position, the
//! operations that change it, a filtered listing, its JSON form, and the
//! choice of one operation from command-line flags.
pub mod task;
pub mod store;
pub mod filter;
pub mod json;
pub mod command;
