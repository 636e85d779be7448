//! Resolution of a media URL into a fetch strategy, and the pull-based
//! enumerator that turns the strategy's pages into a flat, lazy stream of
//! item locations.
//!
//! Every network exchange is left to the caller: the library decides what to
//! fetch next and what a fetched payload means, and the caller performs the
//! request and hands the outcome back.

pub mod error;
pub mod naming;
pub mod source;
pub mod imgur;
pub mod enumerator;
