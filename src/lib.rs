//! A small 2D space game's simulation: a ship that thrusts, strafes and turns,
//! fixed asteroids, and axis-aligned bounding-box collision detection.
//!
//! All quantities are exact integers: positions in pico-units, velocities in
//! nano-units per second, time steps in milliseconds, angles in micro-radians
//! and heading vectors in millionths.

use vstd::prelude::*;

pub mod aabb;
pub mod heading;
pub mod ship;
pub mod space;

verus! {

/// A pair of numbers, used for positions, velocities and headings.
#[derive(Clone, Copy, Debug, PartialEq, Eq)]
pub struct Vector2<T> {
    pub x: T,
    pub y: T,
}

impl<T> Vector2<T> {
    /// The vector `(x, y)`.
    pub fn new(x: T, y: T) -> (r: Self)
        ensures
            r.x == x,
            r.y == y,
    {
        Self { x, y }
    }
}

} // verus!
