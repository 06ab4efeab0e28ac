//! The sending side: one attempt from the first call to its end, attempts that
//! take up a failed transfer again, and what became of them.
//!
//! As on the receiving side, work is done in steps that name the next outside
//! action and hold no file and no connection themselves.
pub mod attempts;
pub mod complete;
pub mod effects;
pub mod operation;
pub mod recovery;
pub mod send;
