//! Coordinate space of the arena: integer grid positions and the arena
//! bounds. Positions are plain integer pairs compared by value.

use vstd::prelude::*;
use vstd::assert_by_contradiction;
use vstd::set_lib::set_int_range;
use vstd::set_lib::lemma_int_range;
use vstd::set_lib::lemma_len_subset;

verus! {

/// Width of the arena in grid cells.
pub const ARENA_WIDTH: u32 = 10;
/// Height of the arena in grid cells.
pub const ARENA_HEIGHT: u32 = 10;

/// How many random draws `random_exceptions` makes before it falls back to
/// a deterministic sweep of the arena; the cap keeps the search finite.
const RANDOM_DRAW_CAP: u32 = 10000;

/// One grid cell, addressed by integer coordinates. Equality is by value.
#[derive(Clone, Copy, PartialEq, Eq, Structural, Debug)]
pub struct Position {
    pub x: i32,
    pub y: i32,
}

/// A position lies inside the arena: within [0, ARENA_WIDTH) x [0, ARENA_HEIGHT).
pub open spec fn in_bounds(p: Position) -> bool {
    0 <= p.x < ARENA_WIDTH && 0 <= p.y < ARENA_HEIGHT
}

impl Position {
    /// Component-wise subtraction.
    pub fn sub(self, rhs: Position) -> (r: Position)
        requires
            i32::MIN <= self.x - rhs.x <= i32::MAX,
            i32::MIN <= self.y - rhs.y <= i32::MAX,
        ensures
            r.x == self.x - rhs.x,
            r.y == self.y - rhs.y,
    {
        Position { x: self.x - rhs.x, y: self.y - rhs.y }
    }

    /// A random cell of the arena. Which cell comes back is up to the
    /// random generator; only membership in the arena is promised.
    pub fn random() -> (r: Position)
        ensures
            in_bounds(r),
    {
        let x: u32 = random_u32() % ARENA_WIDTH;
        let y: u32 = random_u32() % ARENA_HEIGHT;
        Position { x: x as i32, y: y as i32 }
    }

    /// A random cell of the arena outside `exceptions`: samples until a
    /// draw misses the excluded cells. Exceptions covering the whole arena
    /// are ruled out up front, so a free cell always comes back; after
    /// `RANDOM_DRAW_CAP` unlucky draws a deterministic sweep finds one.
    pub fn random_exceptions(exceptions: &Vec<Position>) -> (r: Position)
        requires
            exists|p: Position| in_bounds(p) && !exceptions@.contains(p),
        ensures
            in_bounds(r),
            !exceptions@.contains(r),
    {
        let mut attempts: u32 = 0;
        while attempts < RANDOM_DRAW_CAP
            invariant
                exists|p: Position| in_bounds(p) && !exceptions@.contains(p),
            decreases RANDOM_DRAW_CAP - attempts,
        {
            let r = Position::random();
            if !contains_pos(exceptions, r) {
                return r;
            }
            attempts = attempts + 1;
        }
        first_free_cell(exceptions)
    }
}

/// The row-major index of a cell: cells of the arena map one to one onto
/// [0, ARENA_WIDTH * ARENA_HEIGHT).
pub open spec fn cell_index(p: Position) -> int {
    p.y * ARENA_WIDTH + p.x
}

/// Fewer excluded cells than the arena has leaves at least one cell free.
pub proof fn lemma_free_cell_exists(excl: Seq<Position>)
    requires
        excl.len() < ARENA_WIDTH * ARENA_HEIGHT,
    ensures
        exists|p: Position| in_bounds(p) && !excl.contains(p),
{
    let cells = ARENA_WIDTH * ARENA_HEIGHT;
    assert_by_contradiction!(exists|p: Position| in_bounds(p) && !excl.contains(p), {
        let indices = excl.map_values(|p: Position| cell_index(p));
        assert forall|i: int| 0 <= i < cells implies indices.to_set().contains(i) by {
            let p = Position { x: (i % (ARENA_WIDTH as int)) as i32, y: (i / (ARENA_WIDTH as int)) as i32 };
            assert(in_bounds(p));
            assert(cell_index(p) == i);
            assert(excl.contains(p));
            let j = choose|j: int| 0 <= j < excl.len() && excl[j] == p;
            assert(indices[j] == i);
            assert(indices.to_set().contains(indices[j]));
        }
        assert(set_int_range(0, cells as int).subset_of(indices.to_set()));
        lemma_int_range(0, cells as int);
        indices.lemma_cardinality_of_set();
        lemma_len_subset(set_int_range(0, cells as int), indices.to_set());
    });
}

/// The lowest-indexed free cell of the arena, by a sweep in row-major order.
fn first_free_cell(exceptions: &Vec<Position>) -> (r: Position)
    requires
        exists|p: Position| in_bounds(p) && !exceptions@.contains(p),
    ensures
        in_bounds(r),
        !exceptions@.contains(r),
{
    let mut idx: u32 = 0;
    while idx < ARENA_WIDTH * ARENA_HEIGHT
        invariant
            idx <= ARENA_WIDTH * ARENA_HEIGHT,
            forall|p: Position| in_bounds(p) && cell_index(p) < idx ==> exceptions@.contains(p),
            exists|p: Position| in_bounds(p) && !exceptions@.contains(p),
        decreases ARENA_WIDTH * ARENA_HEIGHT - idx,
    {
        let c = Position { x: (idx % ARENA_WIDTH) as i32, y: (idx / ARENA_WIDTH) as i32 };
        if !contains_pos(exceptions, c) {
            return c;
        }
        proof {
            assert forall|p: Position| in_bounds(p) && cell_index(p) < idx + 1 implies
                exceptions@.contains(p) by {
                if cell_index(p) == idx {
                    assert(p == c);
                }
            }
        }
        idx = idx + 1;
    }
    proof {
        let w = choose|p: Position| in_bounds(p) && !exceptions@.contains(p);
        assert(cell_index(w) < ARENA_WIDTH * ARENA_HEIGHT);
        assert(false);
    }
    Position { x: 0, y: 0 }
}

/// Whether `p` occurs in `v`.
fn contains_pos(v: &Vec<Position>, p: Position) -> (b: bool)
    ensures
        b == v@.contains(p),
{
    let mut i: usize = 0;
    while i < v.len()
        invariant
            0 <= i <= v@.len(),
            forall|j: int| 0 <= j < i ==> v@[j] != p,
        decreases v@.len() - i,
    {
        if v[i] == p {
            assert(v@.contains(p)) by {
                assert(v@[i as int] == p);
            }
            return true;
        }
        i = i + 1;
    }
    false
}

/// Relies on rand::random::<u32>: a fresh value from the thread-local
/// generator. Nothing can be promised of which value comes back.
#[verifier::external_body]
fn random_u32() -> u32 {
    rand::random::<u32>()
}

} // verus!
