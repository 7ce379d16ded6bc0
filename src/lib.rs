//! Loader information for a piece of loaded content: property accessors over
//! a two-state loader stream, and the on-demand rebuild of an uncompressed SWF
//! container from a decoded movie.

pub mod accessors;
pub mod container;
pub mod model;
pub mod writer;
