//! Direction indices for the eight menu slices.

use vstd::prelude::*;

verus! {

pub const NORTH: usize = 0;

pub const NORTH_EAST: usize = 1;

pub const EAST: usize = 2;

pub const SOUTH_EAST: usize = 3;

pub const SOUTH: usize = 4;

pub const SOUTH_WEST: usize = 5;

pub const WEST: usize = 6;

pub const NORTH_WEST: usize = 7;

} // verus!
