//! Half-hex coordinate algebra.
//!
//! A `HexCoord` is a cube coordinate `(q, r, s)` whose components always sum
//! to zero; `new` derives `s` from `q` and `r`, so the invariant holds by
//! construction. Three of the six standard hex directions are modeled (plus
//! a stay-in-place direction), matching the half-hex topology the grid
//! builder uses: north-ish, south-ish and northeast-ish.

use vstd::prelude::*;

verus! {

/// Headroom bound on the `q` and `r` components, so that deriving `s` and
/// stepping to a neighbor never leave `i64`.
pub const COORD_LIMIT: i64 = 0x2000_0000_0000_0000;

/// The directions of travel on the half-hex grid, plus `Stay`, which leaves
/// a coordinate where it is.
#[derive(Clone, Copy, Debug, PartialEq, Eq, Structural, Hash)]
pub enum Direction {
    Stay,
    Three,
    Six,
    Nine,
}

/// Change of the `q` component when stepping in direction `d`.
pub open spec fn dq(d: Direction) -> int {
    match d {
        Direction::Stay => 0,
        Direction::Three => 0,
        Direction::Six => 0,
        Direction::Nine => 1,
    }
}

/// Change of the `r` component when stepping in direction `d`.
pub open spec fn dr(d: Direction) -> int {
    match d {
        Direction::Stay => 0,
        Direction::Three => -1,
        Direction::Six => 1,
        Direction::Nine => -1,
    }
}

impl Direction {
    /// The direction that undoes this one, as far as the half-hex model has
    /// it: north-ish and south-ish cancel each other; the inverse of
    /// northeast-ish is not modeled, so `Nine` is its own fixed point and
    /// only the involution law holds of it, not the round trip.
    pub open spec fn opposite_spec(self) -> Direction {
        match self {
            Direction::Stay => Direction::Stay,
            Direction::Three => Direction::Six,
            Direction::Six => Direction::Three,
            Direction::Nine => Direction::Nine,
        }
    }

    /// The opposite direction.
    pub fn opposite(&self) -> (o: Direction)
        ensures
            o == self.opposite_spec(),
    {
        match self {
            Direction::Stay => Direction::Stay,
            Direction::Three => Direction::Six,
            Direction::Six => Direction::Three,
            Direction::Nine => Direction::Nine,
        }
    }
}

/// Applying `opposite` twice returns the original direction.
pub proof fn lemma_opposite_involutive(d: Direction)
    ensures
        d.opposite_spec().opposite_spec() == d,
{
}

/// A coordinate on the half-hex grid: distances along the grid's axes, with
/// the invariant that the three components sum to zero. With only three of
/// the six hex directions modeled the lattice is triangular, hence the
/// name; callers that think of cells as hexes use the `HexCoord` alias.
#[derive(Clone, Copy, Debug, PartialEq, Eq, Structural, Hash)]
pub struct TriCoord {
    pub q: i64,
    pub r: i64,
    pub s: i64,
}

/// The cell coordinate, seen as a position on the hex board.
pub type HexCoord = TriCoord;

impl TriCoord {
    /// The zero-sum invariant: every coordinate built by this module
    /// satisfies it.
    pub open spec fn zero_sum(self) -> bool {
        self.q + self.r + self.s == 0
    }

    /// Strictly inside the headroom bound, leaving room for one step in any
    /// direction.
    pub open spec fn interior(self) -> bool {
        &&& -COORD_LIMIT < self.q < COORD_LIMIT
        &&& -COORD_LIMIT < self.r < COORD_LIMIT
    }

    /// The coordinate one step from `c` in direction `d`.
    pub open spec fn neighbor_spec(c: TriCoord, d: Direction) -> TriCoord {
        TriCoord {
            q: (c.q + dq(d)) as i64,
            r: (c.r + dr(d)) as i64,
            s: (-(c.q + dq(d)) - (c.r + dr(d))) as i64,
        }
    }

    /// The origin of the grid.
    pub fn origin() -> (c: TriCoord)
        ensures
            c == (TriCoord { q: 0, r: 0, s: 0 }),
    {
        TriCoord { q: 0, r: 0, s: 0 }
    }

    /// Construct a coordinate from the two free components, deriving the
    /// third so that the zero-sum invariant holds unconditionally.
    pub fn new(q: i64, r: i64) -> (c: TriCoord)
        requires
            -COORD_LIMIT <= q <= COORD_LIMIT,
            -COORD_LIMIT <= r <= COORD_LIMIT,
        ensures
            c.q == q,
            c.r == r,
            c.s == -q - r,
            c.zero_sum(),
            c.q + c.r + c.s == 0,
    {
        TriCoord { q, r, s: -q - r }
    }

    /// The coordinate to the north.
    pub fn three(&self) -> (c: TriCoord)
        requires
            self.interior(),
        ensures
            c == TriCoord::neighbor_spec(*self, Direction::Three),
            c.q == self.q,
            c.r == self.r - 1,
            c.zero_sum(),
    {
        TriCoord::new(self.q, self.r - 1)
    }

    /// The coordinate to the south.
    pub fn six(&self) -> (c: TriCoord)
        requires
            self.interior(),
        ensures
            c == TriCoord::neighbor_spec(*self, Direction::Six),
            c.q == self.q,
            c.r == self.r + 1,
            c.zero_sum(),
    {
        TriCoord::new(self.q, self.r + 1)
    }

    /// The coordinate to the northeast.
    pub fn nine(&self) -> (c: TriCoord)
        requires
            self.interior(),
        ensures
            c == TriCoord::neighbor_spec(*self, Direction::Nine),
            c.q == self.q + 1,
            c.r == self.r - 1,
            c.zero_sum(),
    {
        TriCoord::new(self.q + 1, self.r - 1)
    }

    /// The coordinate one step in the given direction; `Stay` returns the
    /// coordinate itself, with `s` rederived from the invariant.
    pub fn neighbor(&self, dir: Direction) -> (c: TriCoord)
        requires
            self.interior(),
        ensures
            c == TriCoord::neighbor_spec(*self, dir),
            c.q == self.q + dq(dir),
            c.r == self.r + dr(dir),
            c.s == -(self.q + dq(dir)) - (self.r + dr(dir)),
            c.zero_sum(),
    {
        match dir {
            Direction::Stay => TriCoord::new(self.q, self.r),
            Direction::Three => self.three(),
            Direction::Six => self.six(),
            Direction::Nine => self.nine(),
        }
    }

    /// The three neighbor coordinates, in the fixed clockwise order starting
    /// from north-ish: north-ish, south-ish, northeast-ish.
    pub fn neighbors(&self) -> (v: Vec<TriCoord>)
        requires
            self.interior(),
        ensures
            v@.len() == 3,
            v@[0] == TriCoord::neighbor_spec(*self, Direction::Three),
            v@[1] == TriCoord::neighbor_spec(*self, Direction::Six),
            v@[2] == TriCoord::neighbor_spec(*self, Direction::Nine),
            forall|i: int| 0 <= i < 3 ==> (#[trigger] v@[i]).zero_sum(),
    {
        let mut v: Vec<TriCoord> = Vec::new();
        v.push(self.three());
        v.push(self.six());
        v.push(self.nine());
        v
    }
}

/// Stepping in a direction and then in its opposite returns to the start,
/// for every direction whose inverse the half-hex model contains; the
/// northeast-ish direction has none, so it is excluded. `m` is the neighbor
/// of `c` in direction `d`, and `b` the neighbor of `m` in the opposite
/// direction, each as `neighbor` returns them.
pub proof fn lemma_neighbor_round_trip(c: TriCoord, d: Direction, m: TriCoord, b: TriCoord)
    requires
        d != Direction::Nine,
        c.zero_sum(),
        c.interior(),
        m == TriCoord::neighbor_spec(c, d),
        b == TriCoord::neighbor_spec(m, d.opposite_spec()),
    ensures
        b == c,
{
}

} // verus!
