use std::fmt::Debug;
use std::hash::Hash;
use std::marker::PhantomData;
use vstd::prelude::*;
use vstd::std_specs::cmp::PartialEqSpec;

verus! {

/// A typed index: a value that stands for one position of an arena and for
/// nothing else.
///
/// An implementation is a thin wrapper over the position. Turning a position
/// into an index and back gives the position again, and two indices of one
/// type with the same position are the same index.
pub trait Idx: 'static + Copy + Eq + Hash + Debug {
    /// The position this index stands for.
    spec fn spec_index(&self) -> usize;

    /// The index that stands for `index`.
    spec fn spec_new(index: usize) -> Self;

    /// Making an index of a position and reading it back gives the position.
    proof fn lemma_new_index(index: usize)
        ensures
            Self::spec_new(index).spec_index() == index,
    ;

    /// An index is the one made of its own position.
    proof fn lemma_index_new(self)
        ensures
            Self::spec_new(self.spec_index()) == self,
    ;

    fn index(&self) -> (position: usize)
        ensures
            position == self.spec_index(),
    ;

    fn new(index: usize) -> (made: Self)
        ensures
            made == Self::spec_new(index),
            made.spec_index() == index,
    ;
}

/// An append-only arena: element number `i` is the one that the `i`-th
/// `push` stored, and the index that `push` returned names it from then on.
///
/// The view of an arena is the sequence of its elements in index order.
#[derive(PartialEq, Eq, Hash, Debug)]
pub struct IdxVec<I, T> {
    raw: Vec<T>,
    _phantom: PhantomData<I>,
}

impl<I, T> View for IdxVec<I, T> {
    type V = Seq<T>;

    closed spec fn view(&self) -> Seq<T> {
        self.raw@
    }
}

impl<I, T: Clone> Clone for IdxVec<I, T> {
    /// A copy of the arena: as many elements, each a clone of the one in its
    /// place.
    fn clone(&self) -> (copy: Self)
        ensures
            copy@.len() == self@.len(),
            forall|i: int| 0 <= i < self@.len() ==> cloned::<T>(self@[i], #[trigger] copy@[i]),
    {
        IdxVec { raw: self.raw.clone(), _phantom: PhantomData }
    }
}

impl<I, T> IdxVec<I, T> where I: Idx {
    /// Whether `index` names an element of this arena.
    pub open spec fn spec_contains_key(&self, index: I) -> bool {
        index.spec_index() < self@.len()
    }

    /// The element that `index` names.
    pub open spec fn spec_at(&self, index: I) -> T
        recommends
            self.spec_contains_key(index),
    {
        self@[index.spec_index() as int]
    }

    pub fn new() -> (arena: IdxVec<I, T>)
        ensures
            arena@ == Seq::<T>::empty(),
    {
        IdxVec { raw: Vec::new(), _phantom: PhantomData }
    }

    pub fn with_capacity(capacity: usize) -> (arena: IdxVec<I, T>)
        ensures
            arena@ == Seq::<T>::empty(),
    {
        IdxVec { raw: Vec::with_capacity(capacity), _phantom: PhantomData }
    }

    /// Stores `elem` behind all the others and returns the index that names
    /// it. Every index that named an element before still names that element.
    pub fn push(&mut self, elem: T) -> (index: I)
        ensures
            final(self)@ == old(self)@.push(elem),
            index == Self::spec_push_index(old(self)@),
            index.spec_index() == old(self)@.len(),
            final(self).spec_contains_key(index),
            final(self).spec_at(index) == elem,
            forall|earlier: I| #[trigger]
                old(self).spec_contains_key(earlier) ==> final(self).spec_contains_key(earlier)
                    && final(self).spec_at(earlier) == old(self).spec_at(earlier),
    {
        let index = self.raw.len();
        self.raw.push(elem);
        I::new(index)
    }

    pub fn is_empty(&self) -> (empty: bool)
        ensures
            empty == (self@.len() == 0),
    {
        self.raw.is_empty()
    }

    pub fn len(&self) -> (len: usize)
        ensures
            len == self@.len(),
    {
        self.raw.len()
    }

    /// Whether `index` lies within the arena's current bounds.
    pub fn contains_key(&self, index: I) -> (within: bool)
        ensures
            within == self.spec_contains_key(index),
    {
        index.index() < self.raw.len()
    }

    pub fn get(&self, index: I) -> (found: Option<&T>)
        ensures
            found == if self.spec_contains_key(index) {
                Some(&self.spec_at(index))
            } else {
                None
            },
    {
        self.raw.get(index.index())
    }

    pub fn get_mut(&mut self, index: I) -> (found: Option<&mut T>)
        ensures
            match found {
                Some(slot) => {
                    &&& old(self).spec_contains_key(index)
                    &&& *slot == old(self).spec_at(index)
                    &&& final(self)@ == old(self)@.update(
                        index.spec_index() as int,
                        *final(slot),
                    )
                },
                None => !old(self).spec_contains_key(index) && final(self)@ == old(self)@,
            },
    {
        let position = index.index();
        if position < self.raw.len() {
            Some(&mut self.raw[position])
        } else {
            None
        }
    }

    /// The element that `index` names, open to change. The index must lie
    /// within the arena: `get_mut` is the form for an index that may not.
    pub fn index_mut(&mut self, index: I) -> (element: &mut T)
        requires
            old(self).spec_contains_key(index),
        ensures
            *element == old(self).spec_at(index),
            final(self)@ == old(self)@.update(index.spec_index() as int, *final(element)),
    {
        let position = index.index();
        &mut self.raw[position]
    }

    /// Every valid index paired with the element it names, in ascending order.
    pub fn iter(&self) -> (pairs: Vec<(I, &T)>)
        ensures
            pairs@.len() == self@.len(),
            forall|i: int|
                0 <= i < self@.len() ==> (#[trigger] pairs@[i]).0 == I::spec_new(i as usize)
                    && pairs@[i].0.spec_index() == i && *pairs@[i].1 == self@[i],
    {
        let mut pairs: Vec<(I, &T)> = Vec::with_capacity(self.raw.len());
        let mut position: usize = 0;
        while position < self.raw.len()
            invariant
                position <= self.raw@.len(),
                pairs@.len() == position,
                forall|i: int|
                    0 <= i < position ==> (#[trigger] pairs@[i]).0 == I::spec_new(i as usize)
                        && pairs@[i].0.spec_index() == i && *pairs@[i].1 == self.raw@[i],
            decreases self.raw@.len() - position,
        {
            pairs.push((I::new(position), &self.raw[position]));
            position += 1;
        }
        pairs
    }

    /// Every valid index, in ascending order.
    pub fn keys(&self) -> (keys: Vec<I>)
        ensures
            keys@.len() == self@.len(),
            forall|i: int|
                0 <= i < self@.len() ==> #[trigger] keys@[i] == I::spec_new(i as usize)
                    && keys@[i].spec_index() == i,
    {
        let mut keys: Vec<I> = Vec::with_capacity(self.raw.len());
        let mut position: usize = 0;
        while position < self.raw.len()
            invariant
                position <= self.raw@.len(),
                keys@.len() == position,
                forall|i: int|
                    0 <= i < position ==> #[trigger] keys@[i] == I::spec_new(i as usize)
                        && keys@[i].spec_index() == i,
            decreases self.raw@.len() - position,
        {
            keys.push(I::new(position));
            position += 1;
        }
        keys
    }

    /// The elements in index order.
    pub fn values(&self) -> (values: &[T])
        ensures
            values@ == self@,
    {
        self.raw.as_slice()
    }

    /// The elements in index order, each open to change; their number is not.
    pub fn values_mut(&mut self) -> (values: &mut [T])
        ensures
            values@ == old(self)@,
            final(values)@ == final(self)@,
    {
        self.raw.as_mut_slice()
    }

    pub fn clear(&mut self)
        ensures
            final(self)@ == Seq::<T>::empty(),
    {
        self.raw.clear()
    }

    /// The contents of an arena that started empty and took the elements of
    /// `elems` by `push`, one after the other.
    pub open spec fn spec_pushed(elems: Seq<T>) -> Seq<T>
        decreases elems.len(),
    {
        if elems.len() == 0 {
            Seq::<T>::empty()
        } else {
            Self::spec_pushed(elems.drop_last()).push(elems.last())
        }
    }

    /// The index that `push` returns on an arena that holds `before`.
    pub open spec fn spec_push_index(before: Seq<T>) -> I {
        I::spec_new(before.len() as usize)
    }

    /// Pushing a run of elements onto an empty arena leaves exactly that run:
    /// element number `i` is the `i`-th one pushed, and the length is the
    /// number of pushes.
    pub proof fn lemma_pushed_is_input(elems: Seq<T>)
        ensures
            Self::spec_pushed(elems) == elems,
            Self::spec_pushed(elems).len() == elems.len(),
        decreases elems.len(),
    {
        if elems.len() > 0 {
            Self::lemma_pushed_is_input(elems.drop_last());
            assert(elems.drop_last().push(elems.last()) =~= elems);
        }
    }

    /// Of any run of pushes onto an empty arena, push number `i` (counted
    /// from zero) returns the index of position `i`.
    pub proof fn lemma_push_index_is_count(elems: Seq<T>, i: int)
        requires
            0 <= i < elems.len(),
            i <= usize::MAX,
        ensures
            Self::spec_push_index(Self::spec_pushed(elems.take(i))).spec_index() == i,
    {
        Self::lemma_pushed_is_input(elems.take(i));
        I::lemma_new_index(i as usize);
    }

    /// In an arena filled by a run of pushes, the index that push number `i`
    /// returned names the element that push stored, and an index at or past
    /// the number of pushes names nothing.
    pub proof fn lemma_pushed_lookup(elems: Seq<T>, arena: Self, index: I)
        requires
            arena@ == Self::spec_pushed(elems),
        ensures
            index.spec_index() < elems.len() ==> arena.spec_contains_key(index) && arena.spec_at(
                index,
            ) == elems[index.spec_index() as int],
            index.spec_index() >= elems.len() ==> !arena.spec_contains_key(index),
    {
        Self::lemma_pushed_is_input(elems);
    }
}

impl<I, T> IdxVec<I, T> where T: Eq {
    /// Whether some element equals `t`, where `==` on `T` is the equality
    /// that its specification gives.
    pub fn contains(&self, t: &T) -> (found: bool)
        ensures
            T::obeys_eq_spec() ==> found == exists|i: int|
                0 <= i < self@.len() && (#[trigger] self@[i]).eq_spec(t),
    {
        let mut position: usize = 0;
        while position < self.raw.len()
            invariant
                position <= self.raw@.len(),
                T::obeys_eq_spec() ==> forall|i: int|
                    0 <= i < position ==> !(#[trigger] self.raw@[i]).eq_spec(t),
            decreases self.raw@.len() - position,
        {
            if self.raw[position] == *t {
                assert(T::obeys_eq_spec() ==> self@[position as int].eq_spec(t));
                return true;
            }
            position += 1;
        }
        false
    }
}

impl<I, T> Default for IdxVec<I, T> where I: Idx {
    fn default() -> (arena: IdxVec<I, T>)
        ensures
            arena@ == Seq::<T>::empty(),
    {
        IdxVec::new()
    }
}

impl<I, T> From<Vec<T>> for IdxVec<I, T> where I: Idx {
    /// The arena that holds the elements of `elems` in their order, as if
    /// each had been pushed in turn.
    fn from(elems: Vec<T>) -> (arena: IdxVec<I, T>)
        ensures
            arena@ == elems@,
            arena@ == IdxVec::<I, T>::spec_pushed(elems@),
    {
        proof {
            IdxVec::<I, T>::lemma_pushed_is_input(elems@);
        }
        IdxVec { raw: elems, _phantom: PhantomData }
    }
}

impl<I, T> vstd::std_specs::convert::FromSpecImpl<Vec<T>> for IdxVec<I, T> where I: Idx {
    open spec fn obeys_from_spec() -> bool {
        true
    }

    closed spec fn from_spec(elems: Vec<T>) -> IdxVec<I, T> {
        IdxVec { raw: elems, _phantom: PhantomData }
    }
}

impl<I, T> std::ops::Index<I> for IdxVec<I, T> where I: Idx {
    type Output = T;

    fn index(&self, index: I) -> (element: &T)
        ensures
            *element == self.spec_at(index),
    {
        &self.raw[index.index()]
    }
}

impl<I, T> vstd::std_specs::core::IndexSpecImpl<I> for IdxVec<I, T> where I: Idx {
    open spec fn index_req(&self, index: &I) -> bool {
        self.spec_contains_key(*index)
    }
}

} // verus!
