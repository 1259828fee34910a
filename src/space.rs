use vstd::prelude::*;

use crate::aabb::AABB;
use crate::ship::{Spaceship, POSITION_SCALE};
use crate::Vector2;

verus! {

/// Half the side of an asteroid's bounding box: 64 world units.
pub const ASTEROID_HALF_EXTENT: i128 = 64 * 1_000_000_000_000;

/// A fixed obstacle. Its position is in pico-units, like the ship's.
#[derive(Clone, Copy, Debug, PartialEq, Eq)]
pub struct Asteroid {
    pub position: Vector2<i128>,
    pub texture_id: usize,
    pub aabb: AABB,
}

impl Asteroid {
    /// The bounding box surrounds the position.
    pub open spec fn wf(&self) -> bool {
        self.aabb.is_around(self.position, ASTEROID_HALF_EXTENT as int)
    }

    /// An asteroid at world coordinates `(position_x, position_y)`.
    pub fn new(position_x: i32, position_y: i32, texture_id: usize) -> (r: Self)
        ensures
            r.position.x == position_x * POSITION_SCALE,
            r.position.y == position_y * POSITION_SCALE,
            r.texture_id == texture_id,
            r.wf(),
    {
        let position = Vector2::new(
            position_x as i128 * POSITION_SCALE,
            position_y as i128 * POSITION_SCALE,
        );
        Self { position, texture_id, aabb: AABB::around(position, ASTEROID_HALF_EXTENT) }
    }
}

/// The player's ship and the asteroids around it.
#[derive(Clone, Debug)]
pub struct Space {
    pub player_spaceship: Spaceship,
    pub asteroids: Vec<Asteroid>,
}

impl Space {
    /// An empty space around the given ship.
    pub fn new(player_spaceship: Spaceship) -> (r: Self)
        ensures
            r.player_spaceship == player_spaceship,
            r.asteroids@ == Seq::<Asteroid>::empty(),
    {
        Self { player_spaceship, asteroids: Vec::new() }
    }

    /// Adds an asteroid after those already there.
    pub fn add_asteroid(&mut self, asteroid: Asteroid)
        ensures
            final(self).asteroids@ == old(self).asteroids@.push(asteroid),
            final(self).player_spaceship == old(self).player_spaceship,
    {
        self.asteroids.push(asteroid);
    }
}

/// The indices, in increasing order, of those among the first `n` asteroids
/// whose bounding box meets `player`.
pub open spec fn collisions_before(player: AABB, asteroids: Seq<Asteroid>, n: int) -> Seq<usize>
    decreases n,
{
    if n <= 0 {
        Seq::empty()
    } else {
        let earlier = collisions_before(player, asteroids, n - 1);
        if player.overlaps(&asteroids[n - 1].aabb) {
            earlier.push((n - 1) as usize)
        } else {
            earlier
        }
    }
}

/// The indices of the asteroids that the player's ship touches this tick, in
/// the order of the asteroids: one event for each overlapping asteroid.
pub fn detect_collisions(space: &Space) -> (r: Vec<usize>)
    ensures
        r@ == collisions_before(
            space.player_spaceship.aabb,
            space.asteroids@,
            space.asteroids@.len() as int,
        ),
        forall|i: usize|
            r@.contains(i) <==> (i < space.asteroids@.len()
                && space.player_spaceship.aabb.overlaps(&space.asteroids@[i as int].aabb)),
{
    let player = &space.player_spaceship.aabb;
    let mut r: Vec<usize> = Vec::new();
    let n = space.asteroids.len();
    let mut i: usize = 0;
    while i < n
        invariant
            i <= n,
            n == space.asteroids@.len(),
            player == &space.player_spaceship.aabb,
            r@ == collisions_before(*player, space.asteroids@, i as int),
            forall|j: usize|
                r@.contains(j) <==> (j < i && player.overlaps(&space.asteroids@[j as int].aabb)),
        decreases n - i,
    {
        let ghost before = r@;
        let hit = player.intersect(&space.asteroids[i].aabb);
        if hit {
            r.push(i);
        }
        proof {
            assert forall|j: usize|
                r@.contains(j) <==> (j < i + 1 && player.overlaps(
                    &space.asteroids@[j as int].aabb,
                )) by {
                if hit {
                    assert(r@ == before.push(i));
                    assert(r@[before.len() as int] == i);
                    if r@.contains(j) && j != i {
                        let k = choose|k: int| 0 <= k < r@.len() && r@[k] == j;
                        assert(before[k] == j);
                    }
                    if before.contains(j) {
                        let k = choose|k: int| 0 <= k < before.len() && before[k] == j;
                        assert(r@[k] == j);
                    }
                }
            }
        }
        i = i + 1;
    }
    r
}

} // verus!
