//! One in-memory model for syndication feeds, wide enough to hold what Atom, RSS 2.0 and
//! RSS 1.0 documents say, with the defaults a feed or an entry needs before anything has
//! been read into it.

pub mod model;
pub mod util;
