//! Provider front ends: the per-site result types and the decision and
//! URL computations their flows are built from. The HTTP fetching and the
//! HTML scraping around them are I/O and live with the caller.

pub mod dramacool;
pub mod flixhq;
pub mod fmovies;
