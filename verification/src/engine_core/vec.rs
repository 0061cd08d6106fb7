use vstd::prelude::*;

verus! {

/// A Torque vector. This behaves similarly to Vec, with a length and a
/// capacity of thirty-two bits.
#[derive(Debug)]
pub struct TgeVec<T> {
    array: Vec<T>,
    array_size: u32,
}

impl<T> View for TgeVec<T> {
    type V = Seq<T>;

    closed spec fn view(&self) -> Seq<T> {
        self.array@
    }
}

impl<T> TgeVec<T> {
    /// A vector holds no more than it has room for.
    pub closed spec fn wf(&self) -> bool {
        self.array@.len() <= self.array_size
    }

    /// What a well-formed vector holds fits its room, which is counted in
    /// thirty-two bits.
    pub proof fn lemma_len_within_room(&self)
        requires
            self.wf(),
        ensures
            self@.len() <= self.room() <= u32::MAX,
    {
    }

    /// The number of elements for which the vector has room.
    pub closed spec fn room(&self) -> nat {
        self.array_size as nat
    }

    /// Constructs an empty vector.
    pub fn new() -> (vec: Self)
        ensures
            vec.wf(),
            vec@ == Seq::<T>::empty(),
            vec.room() == 0,
    {
        TgeVec { array: Vec::new(), array_size: 0 }
    }

    /// Constructs an empty vector whose initial capacity is at least
    /// `capacity`.
    pub fn with_capacity(capacity: u32) -> (vec: Self)
        ensures
            vec.wf(),
            vec@ == Seq::<T>::empty(),
            vec.room() >= capacity,
    {
        let mut vec = Self::new();
        vec.reserve(capacity);
        vec
    }

    /// Returns the length of the vector.
    pub fn len(&self) -> (n: u32)
        requires
            self.wf(),
        ensures
            n == self@.len(),
    {
        self.array.len() as u32
    }

    /// Returns `true` if the vector is empty.
    pub fn is_empty(&self) -> (empty: bool)
        ensures
            empty == (self@.len() == 0),
    {
        self.array.len() == 0
    }

    /// Returns the number of allocated elements in the vector.
    pub fn capacity(&self) -> (n: u32)
        ensures
            n == self.room(),
    {
        self.array_size
    }

    /// Returns a slice covering the vector.
    pub fn as_slice(&self) -> (slice: &[T])
        ensures
            slice@ == self@,
    {
        self.array.as_slice()
    }

    /// Ensures the vector has capacity to store `additional` new elements.
    /// Room that is there is kept; more is made only where it is needed.
    pub fn reserve(&mut self, additional: u32)
        requires
            old(self).wf(),
            old(self)@.len() + additional <= u32::MAX,
        ensures
            final(self).wf(),
            final(self)@ == old(self)@,
            final(self).room() >= old(self)@.len() + additional,
            final(self).room() >= old(self).room(),
            old(self).room() >= old(self)@.len() + additional ==> final(self).room() == old(
                self,
            ).room(),
    {
        let new_count: u32 = self.array.len() as u32 + additional;
        if new_count > self.array_size {
            self.array.reserve(additional as usize);
            self.array_size = new_count;
        }
    }

    /// Inserts `element` into the vector at `index`, moving the elements at
    /// `index` to the right.
    pub fn insert(&mut self, index: u32, element: T)
        requires
            old(self).wf(),
            index <= old(self)@.len(),
            old(self)@.len() < u32::MAX,
        ensures
            final(self).wf(),
            final(self)@ == old(self)@.insert(index as int, element),
            final(self).room() >= old(self).room(),
    {
        self.reserve(1);
        self.array.insert(index as usize, element);
    }

    /// Moves all of the elements in `other` into the vector.
    pub fn append(&mut self, other: &mut TgeVec<T>)
        requires
            old(self).wf(),
            old(other).wf(),
            old(self)@.len() + old(other)@.len() <= u32::MAX,
        ensures
            final(self).wf(),
            final(other).wf(),
            final(self)@ == old(self)@ + old(other)@,
            final(other)@ == Seq::<T>::empty(),
            final(other).room() == old(other).room(),
            final(self).room() >= old(self).room(),
    {
        let count = other.len();
        self.reserve(count);
        self.array.append(&mut other.array);
    }

    /// Moves all of the elements in `other` into the vector.
    pub fn append_vec(&mut self, other: &mut Vec<T>)
        requires
            old(self).wf(),
            old(self)@.len() + old(other)@.len() <= u32::MAX,
        ensures
            final(self).wf(),
            final(self)@ == old(self)@ + old(other)@,
            final(other)@ == Seq::<T>::empty(),
            final(self).room() >= old(self).room(),
    {
        let count = other.len() as u32;
        self.reserve(count);
        self.array.append(other);
    }

    /// Appends the elements of `items` to the end of the vector.
    pub fn extend(&mut self, items: Vec<T>)
        requires
            old(self).wf(),
            old(self)@.len() + items@.len() <= u32::MAX,
        ensures
            final(self).wf(),
            final(self)@ == old(self)@ + items@,
            final(self).room() >= old(self).room(),
    {
        let mut items = items;
        self.append_vec(&mut items);
    }

    /// Clones each element in `other` and appends them to the end of the
    /// vector.
    pub fn extend_from_slice(&mut self, other: &[T]) where T: Clone
        requires
            old(self).wf(),
            old(self)@.len() + other@.len() <= u32::MAX,
        ensures
            final(self).wf(),
            final(self)@.len() == old(self)@.len() + other@.len(),
            final(self)@.take(old(self)@.len() as int) == old(self)@,
            forall|i: int|
                0 <= i < other@.len() ==> cloned(
                    other@[i],
                    #[trigger] final(self)@[old(self)@.len() + i],
                ),
            final(self).room() >= old(self).room(),
    {
        self.reserve(other.len() as u32);
        let ghost before = self@;
        let mut i: usize = 0;
        while i < other.len()
            invariant
                i <= other@.len(),
                self.wf(),
                self.room() >= old(self).room(),
                before.len() + other@.len() <= self.room(),
                self@.len() == before.len() + i,
                self@.take(before.len() as int) == before,
                forall|k: int| 0 <= k < i ==> cloned(other@[k], #[trigger] self@[before.len() + k]),
            decreases other@.len() - i,
        {
            let ghost so_far = self@;
            let item = other[i].clone();
            self.array.push(item);
            assert(self@.take(before.len() as int) =~= so_far.take(before.len() as int));
            assert forall|k: int| 0 <= k < i + 1 implies cloned(
                other@[k],
                #[trigger] self@[before.len() + k],
            ) by {
                if k < i {
                    assert(self@[before.len() + k] == so_far[before.len() + k]);
                }
            }
            i += 1;
        }
    }

    /// Removes and returns the element at `index`, shifting the elements
    /// after it to the left.
    pub fn remove(&mut self, index: u32) -> (element: T)
        requires
            old(self).wf(),
            index < old(self)@.len(),
        ensures
            final(self).wf(),
            element == old(self)@[index as int],
            final(self)@ == old(self)@.remove(index as int),
            final(self).room() == old(self).room(),
    {
        self.array.remove(index as usize)
    }

    /// Removes and returns the element at `index`, replacing it with the
    /// last element.
    pub fn swap_remove(&mut self, index: u32) -> (element: T)
        requires
            old(self).wf(),
            index < old(self)@.len(),
        ensures
            final(self).wf(),
            element == old(self)@[index as int],
            final(self)@ == old(self)@.update(index as int, old(self)@.last()).drop_last(),
            final(self).room() == old(self).room(),
    {
        self.array.swap_remove(index as usize)
    }

    /// Append an element onto the end of the vector.
    pub fn push(&mut self, value: T)
        requires
            old(self).wf(),
            old(self)@.len() < u32::MAX,
        ensures
            final(self).wf(),
            final(self)@ == old(self)@.push(value),
            final(self).room() >= old(self).room(),
    {
        let end = self.len();
        self.insert(end, value);
        assert(self@ =~= old(self)@.push(value));
    }

    /// If the vector is not empty, removes and returns the last element.
    pub fn pop(&mut self) -> (last: Option<T>)
        requires
            old(self).wf(),
        ensures
            final(self).wf(),
            old(self)@.len() == 0 ==> last is None && final(self)@ == old(self)@,
            old(self)@.len() > 0 ==> last == Some(old(self)@.last()) && final(self)@ == old(
                self,
            )@.drop_last(),
            final(self).room() == old(self).room(),
    {
        let count = self.len();
        if count > 0 {
            let last = self.remove(count - 1);
            assert(self@ =~= old(self)@.drop_last());
            Some(last)
        } else {
            None
        }
    }

    /// Changes the length of the vector to `new_len`, filling new elements
    /// with clones of `value`.
    pub fn resize(&mut self, new_len: u32, value: T) where T: Clone
        requires
            old(self).wf(),
        ensures
            final(self).wf(),
            final(self)@.len() == new_len,
            new_len <= old(self)@.len() ==> final(self)@ == old(self)@.take(new_len as int),
            new_len > old(self)@.len() ==> final(self)@.take(old(self)@.len() as int) == old(
                self,
            )@ && forall|i: int|
                old(self)@.len() <= i < new_len ==> cloned(value, #[trigger] final(self)@[i]),
            final(self).room() >= old(self).room(),
    {
        let count = self.len();
        if new_len > count {
            self.reserve(new_len - count);
            self.array.resize(new_len as usize, value);
            assert(self@.take(count as int) =~= self@.subrange(0, count as int));
        } else {
            self.array.truncate(new_len as usize);
        }
    }

    /// Changes the length of the vector to `new_len`, filling new elements
    /// by calling `f`.
    pub fn resize_with<F: Fn() -> T>(&mut self, new_len: u32, f: F)
        requires
            old(self).wf(),
            f.requires(()),
        ensures
            final(self).wf(),
            final(self)@.len() == new_len,
            new_len <= old(self)@.len() ==> final(self)@ == old(self)@.take(new_len as int),
            new_len > old(self)@.len() ==> final(self)@.take(old(self)@.len() as int) == old(
                self,
            )@ && forall|i: int|
                old(self)@.len() <= i < new_len ==> f.ensures((), #[trigger] final(self)@[i]),
            final(self).room() >= old(self).room(),
    {
        let count = self.len();
        if new_len > count {
            self.reserve(new_len - count);
            let ghost before = self@;
            let mut i: u32 = count;
            while i < new_len
                invariant
                    count <= i <= new_len,
                    self.wf(),
                    self.room() >= old(self).room(),
                    before.len() == count,
                    new_len <= self.room(),
                    f.requires(()),
                    self@.len() == i,
                    self@.take(count as int) == before,
                    forall|k: int| count <= k < i ==> f.ensures((), #[trigger] self@[k]),
                decreases new_len - i,
            {
                let ghost so_far = self@;
                let item = f();
                self.array.push(item);
                assert(self@.take(count as int) =~= so_far.take(count as int));
                assert forall|k: int| count <= k < i + 1 implies f.ensures(
                    (),
                    #[trigger] self@[k],
                ) by {
                    if k < i {
                        assert(self@[k] == so_far[k]);
                    }
                }
                i += 1;
            }
        } else {
            self.array.truncate(new_len as usize);
        }
    }

    /// Drops all elements in the vector.
    pub fn clear(&mut self)
        requires
            old(self).wf(),
        ensures
            final(self).wf(),
            final(self)@ == Seq::<T>::empty(),
            final(self).room() == old(self).room(),
    {
        self.array.clear();
    }

    /// If `len` is smaller than the vector's length, changes the length to
    /// `len` and drops any removed elements.
    pub fn truncate(&mut self, len: u32)
        requires
            old(self).wf(),
        ensures
            final(self).wf(),
            len < old(self)@.len() ==> final(self)@ == old(self)@.take(len as int),
            len >= old(self)@.len() ==> final(self)@ == old(self)@,
            final(self).room() == old(self).room(),
    {
        if (len as usize) < self.array.len() {
            self.array.truncate(len as usize);
        }
    }

    /// Moves the elements of `vec` into a vector of the engine.
    pub fn from(vec: Vec<T>) -> (result: Self)
        requires
            vec@.len() <= u32::MAX,
        ensures
            result.wf(),
            result@ == vec@,
    {
        let mut result = Self::new();
        result.reserve(vec.len() as u32);
        result.extend(vec);
        assert(result@ =~= vec@);
        result
    }

    /// Turns the vector into an iterator over its elements, the first one
    /// first.
    pub fn into_iter(self) -> (iter: IntoIter<T>)
        ensures
            iter@ == self@,
    {
        let mut source = self.array;
        let ghost all = source@;
        let mut rest: Vec<T> = Vec::new();
        while source.len() > 0
            invariant
                source@.len() <= all.len(),
                source@ == all.take(source@.len() as int),
                rest@.len() == all.len() - source@.len(),
                forall|k: int| 0 <= k < rest@.len() ==> rest@[k] == all[all.len() - 1 - k],
            decreases source@.len(),
        {
            let ghost n = source@.len();
            match source.pop() {
                Some(item) => {
                    rest.push(item);
                    assert(source@ =~= all.take(n - 1));
                },
                None => {},
            }
        }
        assert(all =~= Seq::new(rest@.len(), |i: int| rest@[rest@.len() - 1 - i]));
        IntoIter { rest }
    }
}

impl<T: Clone> Clone for TgeVec<T> {
    fn clone(&self) -> (copy: Self)
        ensures
            self.wf() ==> copy.wf(),
            copy.room() == self.room(),
            copy@.len() == self@.len(),
            forall|i: int| 0 <= i < self@.len() ==> cloned(self@[i], #[trigger] copy@[i]),
    {
        TgeVec { array: self.array.clone(), array_size: self.array_size }
    }
}

impl<T> Default for TgeVec<T> {
    fn default() -> (vec: Self)
        ensures
            vec.wf(),
            vec@ == Seq::<T>::empty(),
    {
        Self::new()
    }
}

/// Iterator over the elements of a `TgeVec` that was given up for it.
#[derive(Debug)]
pub struct IntoIter<T> {
    rest: Vec<T>,
}

impl<T> View for IntoIter<T> {
    type V = Seq<T>;

    /// The elements that are still to come, the next one first.
    closed spec fn view(&self) -> Seq<T> {
        Seq::new(self.rest@.len(), |i: int| self.rest@[self.rest@.len() - 1 - i])
    }
}

impl<T> IntoIter<T> {
    /// Hands out the next element, or `None` when none is left.
    pub fn next(&mut self) -> (item: Option<T>)
        ensures
            old(self)@.len() == 0 ==> item is None && final(self)@ == old(self)@,
            old(self)@.len() > 0 ==> item == Some(old(self)@[0]) && final(self)@ == old(
                self,
            )@.skip(1),
    {
        let item = self.rest.pop();
        assert(old(self)@.len() > 0 ==> self@ =~= old(self)@.skip(1));
        assert(old(self)@.len() == 0 ==> self@ =~= old(self)@);
        item
    }

    /// Returns how many elements are left, as the least and the most that
    /// are still to come.
    pub fn size_hint(&self) -> (hint: (usize, Option<usize>))
        ensures
            hint.0 == self@.len(),
            hint.1 == Some(hint.0),
    {
        let remaining = self.rest.len();
        (remaining, Some(remaining))
    }
}

} // verus!
