//! Expiry sweeps over a paginated remote timeline.
//!
//! The crate holds the decisions of a sweep: which items have expired and may
//! be acted on, how the page walker moves from one page boundary to the next,
//! and how long it pauses when the remote service signals a rate limit. The
//! network calls themselves belong to the program around the library.

pub mod args;
mod clock;
pub mod conf;
pub mod governor;
pub mod item;
pub mod page;
pub mod sweep;
pub mod walker;
