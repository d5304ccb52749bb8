//! Images, and walking the classes an image defines.

use crate::reference::NonNullRef;
use vstd::prelude::*;

verus! {

/// Cursor over the classes of an image, by index from `0` to the image's
/// class count.
pub struct AssemblyClassIter<I> {
    /// The image whose classes are walked.
    image: NonNullRef<I, ()>,
    /// Index of the next class.
    index: usize,
    /// Number of classes in the image.
    len: usize,
}

impl<I> AssemblyClassIter<I> {
    /// Index of the next class.
    pub closed spec fn spec_index(&self) -> usize {
        self.index
    }

    /// Number of classes in the image.
    pub closed spec fn spec_len(&self) -> usize {
        self.len
    }

    /// The image whose classes are walked.
    pub closed spec fn spec_image(&self) -> NonNullRef<I, ()> {
        self.image
    }

    /// A cursor at the first of the `len` classes of `image`.
    pub fn new(image: NonNullRef<I, ()>, len: usize) -> (r: Self)
        ensures
            r.spec_image() == image,
            r.spec_index() == 0,
            r.spec_len() == len,
    {
        AssemblyClassIter { image, index: 0, len }
    }

    /// The image whose classes are walked.
    pub fn image(&self) -> (r: NonNullRef<I, ()>)
        ensures
            r == self.spec_image(),
    {
        self.image
    }

    /// Number of classes not yet visited.
    pub fn remaining(&self) -> (r: usize)
        ensures
            r == if self.spec_index() < self.spec_len() {
                self.spec_len() - self.spec_index()
            } else {
                0
            },
    {
        if self.index < self.len {
            self.len - self.index
        } else {
            0
        }
    }

    /// Index of the next class to fetch, or `None` when all have been
    /// visited; moves past it.
    pub fn next_index(&mut self) -> (r: Option<usize>)
        ensures
            final(self).spec_image() == old(self).spec_image(),
            final(self).spec_len() == old(self).spec_len(),
            old(self).spec_index() >= old(self).spec_len() ==> r is None && final(self).spec_index()
                == old(self).spec_index(),
            old(self).spec_index() < old(self).spec_len() ==> r == Some(old(self).spec_index())
                && final(self).spec_index() == old(self).spec_index() + 1,
    {
        if self.index >= self.len {
            return None;
        }
        let index = self.index;
        self.index = self.index + 1;
        Some(index)
    }
}

} // verus!
