//! The logical terrain coordinate the resolution chain accepts: a megatile
//! group index and the position of one of its 16 (4x4) minitiles.

use vstd::prelude::*;

verus! {

/// A megatile coordinate: a group index and a subtile position in [0, 16).
#[derive(Clone, Copy, Debug)]
pub struct MegaTile {
    group: usize,
    subtile: usize,
}

impl View for MegaTile {
    type V = (usize, usize);

    closed spec fn view(&self) -> (usize, usize) {
        (self.group, self.subtile)
    }
}

impl MegaTile {
    /// Builds a coordinate; the subtile position always lies in [0, 16).
    pub fn new(group_index: usize, subtile_index: usize) -> (r: MegaTile)
        requires
            subtile_index < 16,
        ensures
            r@ == (group_index, subtile_index),
    {
        MegaTile { group: group_index, subtile: subtile_index }
    }

    /// The megatile group this coordinate addresses.
    pub fn group_index(&self) -> (r: usize)
        ensures
            r == self@.0,
    {
        self.group
    }

    /// The minitile position within the group's 4x4 arrangement.
    pub fn subtile_index(&self) -> (r: usize)
        ensures
            r == self@.1,
    {
        self.subtile
    }
}

} // verus!
