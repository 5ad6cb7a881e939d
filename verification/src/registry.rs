//! The set of descriptors that were opened for a path in scope.

use vstd::prelude::*;
use std::collections::HashSet;

verus! {

/// Descriptors that currently refer to a file opened in scope.
pub struct DescriptorRegistry {
    marked: HashSet<i32>,
}

impl View for DescriptorRegistry {
    type V = Set<i32>;

    closed spec fn view(&self) -> Set<i32> {
        self.marked@
    }
}

impl DescriptorRegistry {
    /// A registry that follows no descriptor.
    pub fn new() -> (r: Self)
        ensures
            r@ == Set::<i32>::empty(),
    {
        DescriptorRegistry { marked: HashSet::new() }
    }

    /// Starts following `fd`.
    pub fn mark(&mut self, fd: i32)
        ensures
            final(self)@ == old(self)@.insert(fd),
    {
        self.marked.insert(fd);
    }

    /// Stops following `fd`, and says whether it was followed.
    pub fn unmark(&mut self, fd: i32) -> (was_marked: bool)
        ensures
            was_marked == old(self)@.contains(fd),
            final(self)@ == old(self)@.remove(fd),
    {
        self.marked.remove(&fd)
    }

    /// Says whether `fd` is followed.
    pub fn is_marked(&self, fd: i32) -> (r: bool)
        ensures
            r == self@.contains(fd),
    {
        self.marked.contains(&fd)
    }
}

} // verus!
