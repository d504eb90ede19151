//! The list of the fonts of one family.

use vstd::prelude::*;

verus! {

/// The positions of the fonts of a family. A family seldom has more than four
/// faces, so the list is a [`smallvec::SmallVec`] with room for four.
#[verifier::external_body]
pub struct FontIds {
    ids: smallvec::SmallVec<[usize; 4]>,
}

/// What a list holds, in order.
pub uninterp spec fn font_ids_of(list: FontIds) -> Seq<usize>;

impl View for FontIds {
    type V = Seq<usize>;

    open spec fn view(&self) -> Seq<usize> {
        font_ids_of(*self)
    }
}

impl FontIds {
    /// `SmallVec::new`: the list holds nothing.
    #[verifier::external_body]
    pub(crate) fn new() -> (list: FontIds)
        ensures
            font_ids_of(list) == Seq::<usize>::empty(),
    {
        FontIds { ids: smallvec::SmallVec::new() }
    }

    /// `SmallVec::push`: the list holds what it held, and `id` after it.
    #[verifier::external_body]
    pub(crate) fn push(&mut self, id: usize)
        ensures
            font_ids_of(*final(self)) == font_ids_of(*old(self)).push(id),
    {
        self.ids.push(id)
    }

    /// `SmallVec::len`: the number of items.
    #[verifier::external_body]
    pub(crate) fn len(&self) -> (len: usize)
        ensures
            len == font_ids_of(*self).len(),
    {
        self.ids.len()
    }

    /// `SmallVec::is_empty`: whether the list holds nothing.
    #[verifier::external_body]
    pub(crate) fn is_empty(&self) -> (empty: bool)
        ensures
            empty == (font_ids_of(*self).len() == 0),
    {
        self.ids.is_empty()
    }

    /// The index operator of `SmallVec`: the item at position `index`.
    #[verifier::external_body]
    pub(crate) fn at(&self, index: usize) -> (id: usize)
        requires
            index < font_ids_of(*self).len(),
        ensures
            id == font_ids_of(*self)[index as int],
    {
        self.ids[index]
    }

    /// `SmallVec::clone`: the copy holds the same items.
    #[verifier::external_body]
    pub(crate) fn duplicate(&self) -> (list: FontIds)
        ensures
            font_ids_of(list) == font_ids_of(*self),
    {
        FontIds { ids: self.ids.clone() }
    }

    /// Makes a list of the given positions.
    pub fn from_positions(positions: &[usize]) -> (list: FontIds)
        ensures
            list@ == positions@,
    {
        let mut list = FontIds::new();
        let mut i: usize = 0;
        while i < positions.len()
            invariant
                i <= positions.len(),
                list@ == positions@.take(i as int),
            decreases positions.len() - i,
        {
            list.push(positions[i]);
            assert(positions@.take(i + 1) =~= positions@.take(i as int).push(positions@[i as int]));
            i = i + 1;
        }
        assert(positions@.take(i as int) =~= positions@);
        list
    }

    /// The positions in the list, in order.
    pub fn to_positions(&self) -> (positions: Vec<usize>)
        ensures
            positions@ == self@,
    {
        let mut positions: Vec<usize> = Vec::new();
        let len: usize = self.len();
        let mut i: usize = 0;
        while i < len
            invariant
                i <= len,
                len == self@.len(),
                positions@ == self@.take(i as int),
            decreases len - i,
        {
            positions.push(self.at(i));
            assert(self@.take(i + 1) =~= self@.take(i as int).push(self@[i as int]));
            i = i + 1;
        }
        assert(self@.take(i as int) =~= self@);
        positions
    }
}

} // verus!
