//! The `Direction` enum: four cardinal directions and their geometric
//! helpers (axis classification, opposite, quarter-turn rotations).

use vstd::prelude::*;

use crate::directional::Directional;

verus! {

/// One of the four cardinal directions. It is the index key of
/// `Directional<T>`: every `Direction` value selects exactly one slot.
#[derive(Debug, PartialEq, Eq, Structural, Clone, Copy)]
pub enum Direction {
    Right,
    Left,
    Up,
    Down,
}

impl Direction {
    /// True exactly of `Up` and `Down`.
    pub open spec fn is_vertical_spec(self) -> bool {
        self is Up || self is Down
    }

    /// True exactly of `Right` and `Left`.
    pub open spec fn is_horizontal_spec(self) -> bool {
        self is Right || self is Left
    }

    /// The direction rotated by a half turn: `Right` and `Left` swap,
    /// `Up` and `Down` swap.
    pub open spec fn opposite_spec(self) -> Direction {
        match self {
            Direction::Right => Direction::Left,
            Direction::Left => Direction::Right,
            Direction::Up => Direction::Down,
            Direction::Down => Direction::Up,
        }
    }

    /// The direction rotated a quarter turn clockwise: the cycle
    /// `Right -> Down -> Left -> Up -> Right`.
    pub open spec fn rotate_cw_spec(self) -> Direction {
        match self {
            Direction::Right => Direction::Down,
            Direction::Down => Direction::Left,
            Direction::Left => Direction::Up,
            Direction::Up => Direction::Right,
        }
    }

    /// The direction rotated a quarter turn anticlockwise: the cycle
    /// `Right -> Up -> Left -> Down -> Right`.
    pub open spec fn rotate_ccw_spec(self) -> Direction {
        match self {
            Direction::Right => Direction::Up,
            Direction::Up => Direction::Left,
            Direction::Left => Direction::Down,
            Direction::Down => Direction::Right,
        }
    }

    pub fn is_vertical(&self) -> (r: bool)
        ensures
            r == self.is_vertical_spec(),
    {
        *self == Direction::Up || *self == Direction::Down
    }

    pub fn is_horizontal(&self) -> (r: bool)
        ensures
            r == self.is_horizontal_spec(),
    {
        *self == Direction::Right || *self == Direction::Left
    }

    /// The half-turn rotation, looked up in a `Directional<Direction>`
    /// table whose slots hold each direction's opposite.
    pub fn opposite(&self) -> (r: Direction)
        ensures
            r == self.opposite_spec(),
    {
        let oppo_dirs = Directional::new(
            Direction::Left,
            Direction::Right,
            Direction::Down,
            Direction::Up,
        );
        *oppo_dirs.get(*self)
    }

    pub fn rotated_90_clockwise(&self) -> (r: Direction)
        ensures
            r == self.rotate_cw_spec(),
    {
        match self {
            Direction::Right => Direction::Down,
            Direction::Left => Direction::Up,
            Direction::Up => Direction::Right,
            Direction::Down => Direction::Left,
        }
    }

    pub fn rotated_90_anticlockwise(&self) -> (r: Direction)
        ensures
            r == self.rotate_ccw_spec(),
            r == self.rotate_cw_spec().opposite_spec(),
    {
        self.rotated_90_clockwise().opposite()
    }

    /// The unit step along this direction's axis, as integer `(x, y)`
    /// components: `Right` is `(1, 0)`, `Left` is `(-1, 0)`, `Up` is
    /// `(0, 1)`, `Down` is `(0, -1)`.
    pub open spec fn unit_offset_spec(self) -> (i32, i32) {
        match self {
            Direction::Right => (1i32, 0i32),
            Direction::Left => (-1i32, 0i32),
            Direction::Up => (0i32, 1i32),
            Direction::Down => (0i32, -1i32),
        }
    }

    /// The unit step along this direction's axis, as integer components;
    /// a host vector type is built from these at the boundary.
    pub fn unit_offset(&self) -> (r: (i32, i32))
        ensures
            r == self.unit_offset_spec(),
    {
        match self {
            Direction::Right => (1i32, 0i32),
            Direction::Left => (-1i32, 0i32),
            Direction::Up => (0i32, 1i32),
            Direction::Down => (0i32, -1i32),
        }
    }
}

/// The four directions in the fixed order right, left, up, down.
pub fn all_dirs() -> (r: [Direction; 4])
    ensures
        r@ == seq![Direction::Right, Direction::Left, Direction::Up, Direction::Down],
{
    let dirs = [Direction::Right, Direction::Left, Direction::Up, Direction::Down];
    proof {
        assert(dirs@ =~= seq![
            Direction::Right,
            Direction::Left,
            Direction::Up,
            Direction::Down,
        ]);
    }
    dirs
}

/// Taking the opposite twice returns the original direction.
pub proof fn lemma_opposite_involution(d: Direction)
    ensures
        d.opposite_spec().opposite_spec() == d,
{
}

/// Exactly one of `is_vertical` and `is_horizontal` holds of every
/// direction: the two axes partition the four values.
pub proof fn lemma_axes_partition(d: Direction)
    ensures
        d.is_vertical_spec() != d.is_horizontal_spec(),
{
}

/// The two quarter-turn rotations are inverses of one another.
pub proof fn lemma_rotation_inverse(d: Direction)
    ensures
        d.rotate_cw_spec().rotate_ccw_spec() == d,
        d.rotate_ccw_spec().rotate_cw_spec() == d,
{
}

/// Rotating clockwise four times returns the original direction.
pub proof fn lemma_rotate_cw_four_times(d: Direction)
    ensures
        d.rotate_cw_spec().rotate_cw_spec().rotate_cw_spec().rotate_cw_spec() == d,
{
}

/// The anticlockwise rotation equals the opposite of the clockwise one.
pub proof fn lemma_ccw_is_opposite_of_cw(d: Direction)
    ensures
        d.rotate_ccw_spec() == d.rotate_cw_spec().opposite_spec(),
{
}

} // verus!
