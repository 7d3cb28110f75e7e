//! The fmovies provider front end.

use vstd::prelude::*;

verus! {

/// The fmovies provider.
#[derive(Debug)]
pub struct Fmovies;

} // verus!
