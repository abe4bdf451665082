//! A system summary in the manner of `neofetch`.
//!
//! The library takes what a probe read of the host, fills the gaps, picks
//! the banner of the distribution and lays out the report, painted for a
//! terminal. Reading the host and writing the lines is left to the caller.
//!
//! - [`snapshot`] builds the snapshot of the host from the raw readings,
//!   with [`disk`] and [`units`] for the sums and conversions;
//! - [`distro`] settles the identity of the distribution;
//! - [`banner`] selects the banner that goes with it;
//! - [`report`] lays out the labelled lines, [`screen`] and [`paint`]
//!   render them, and [`text`] holds the helpers they share;
//! - [`summary`] runs the whole pass.

pub mod banner;
pub mod disk;
pub mod distro;
pub mod paint;
pub mod report;
pub mod screen;
pub mod snapshot;
pub mod summary;
pub mod text;
pub mod units;
