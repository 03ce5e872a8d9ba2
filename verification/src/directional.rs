//! The `Directional<T>` container: one slot of type `T` per direction,
//! indexed by `Direction`, with construction and iteration helpers.

use vstd::pervasive::cloned;
use vstd::prelude::*;

use crate::direction::Direction;

verus! {

/// A record with exactly four slots, one per `Direction`, each holding an
/// independent value of type `T`. Indexing by a `Direction` is total: every
/// direction selects exactly one slot and every slot is selected by exactly
/// one direction.
#[derive(Debug, Clone, Copy, Hash)]
pub struct Directional<T> {
    pub right: T,
    pub left: T,
    pub up: T,
    pub down: T,
}

impl<T> Directional<T> {
    /// The slot that `dir` selects.
    pub open spec fn spec_index(self, dir: Direction) -> T {
        match dir {
            Direction::Right => self.right,
            Direction::Left => self.left,
            Direction::Up => self.up,
            Direction::Down => self.down,
        }
    }

    /// Builds a container from four values, in the fixed order
    /// right, left, up, down.
    pub fn new(right: T, left: T, up: T, down: T) -> (r: Directional<T>)
        ensures
            r == (Directional { right, left, up, down }),
            r.spec_index(Direction::Right) == right,
            r.spec_index(Direction::Left) == left,
            r.spec_index(Direction::Up) == up,
            r.spec_index(Direction::Down) == down,
    {
        Directional { right, left, up, down }
    }

    /// The container with the slot that `dir` selects replaced by `v` and
    /// the other three slots unchanged.
    pub open spec fn spec_update(self, dir: Direction, v: T) -> Directional<T> {
        match dir {
            Direction::Right => Directional { right: v, ..self },
            Direction::Left => Directional { left: v, ..self },
            Direction::Up => Directional { up: v, ..self },
            Direction::Down => Directional { down: v, ..self },
        }
    }

    /// A read-only reference to the slot that `dir` selects.
    pub fn get(&self, dir: Direction) -> (r: &T)
        ensures
            *r == self.spec_index(dir),
    {
        match dir {
            Direction::Right => &self.right,
            Direction::Left => &self.left,
            Direction::Up => &self.up,
            Direction::Down => &self.down,
        }
    }

    /// A mutable reference to the slot that `dir` selects. Writing through
    /// it changes that slot and no other.
    pub fn get_mut(&mut self, dir: Direction) -> (r: &mut T)
        ensures
            *r == old(self).spec_index(dir),
            *final(self) == old(self).spec_update(dir, *final(r)),
    {
        match dir {
            Direction::Right => &mut self.right,
            Direction::Left => &mut self.left,
            Direction::Up => &mut self.up,
            Direction::Down => &mut self.down,
        }
    }

    /// Consumes the container and yields its four values in the fixed
    /// order right, left, up, down.
    pub fn into_vec(self) -> (r: Vec<T>)
        ensures
            r@ == seq![self.right, self.left, self.up, self.down],
    {
        let Directional { right, left, up, down } = self;
        let mut values: Vec<T> = Vec::new();
        values.push(right);
        values.push(left);
        values.push(up);
        values.push(down);
        proof {
            assert(values@ =~= seq![self.right, self.left, self.up, self.down]);
        }
        values
    }

    /// Yields read-only references to the four slots in the fixed order
    /// right, left, up, down.
    pub fn ref_vec(&self) -> (r: Vec<&T>)
        ensures
            r@ == seq![&self.right, &self.left, &self.up, &self.down],
    {
        let mut refs: Vec<&T> = Vec::new();
        refs.push(&self.right);
        refs.push(&self.left);
        refs.push(&self.up);
        refs.push(&self.down);
        proof {
            assert(refs@ =~= seq![&self.right, &self.left, &self.up, &self.down]);
        }
        refs
    }
}

impl<T: Clone> Directional<T> {
    /// Builds a container whose four slots all hold duplicates of one
    /// value: three clones and, in the `down` slot, the value itself.
    pub fn new_all(value: T) -> (r: Directional<T>)
        ensures
            forall|d: Direction| cloned::<T>(value, #[trigger] r.spec_index(d)),
            r.down == value,
    {
        Directional {
            right: value.clone(),
            left: value.clone(),
            up: value.clone(),
            down: value,
        }
    }
}

impl<T: Default> Default for Directional<T> {
    /// A container whose four slots each hold a default value of `T`.
    fn default() -> (r: Self)
        ensures
            call_ensures(T::default, (), r.right),
            call_ensures(T::default, (), r.left),
            call_ensures(T::default, (), r.up),
            call_ensures(T::default, (), r.down),
    {
        Directional {
            right: T::default(),
            left: T::default(),
            up: T::default(),
            down: T::default(),
        }
    }
}

/// Updating one slot is isolated: the slot that `dir` selects takes the new
/// value, and the slot of every other direction is unchanged.
pub proof fn lemma_update_isolated<T>(m: Directional<T>, dir: Direction, v: T)
    ensures
        m.spec_update(dir, v).spec_index(dir) == v,
        forall|d: Direction|
            d != dir ==> #[trigger] m.spec_update(dir, v).spec_index(d) == m.spec_index(d),
{
}

/// The identity table: the container whose every slot holds the direction
/// that selects it.
pub fn directional_dirs() -> (r: Directional<Direction>)
    ensures
        forall|d: Direction| #[trigger] r.spec_index(d) == d,
{
    Directional::new(Direction::Right, Direction::Left, Direction::Up, Direction::Down)
}

} // verus!
