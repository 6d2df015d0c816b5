//! Fixed-capacity circular storage read in oldest-to-newest order.
use vstd::prelude::*;

verus! {

/// A ring of `SIZE` slots; `insert` overwrites the oldest one.
pub struct RingBuffer<const SIZE: usize, T> {
    /// Storage, in physical order
    data: [T; SIZE],
    /// Physical slot of the oldest element
    idx: usize,
}

/// Physical slot of the `i`-th oldest element when the oldest sits at `start`.
pub open spec fn slot(start: int, i: int, size: int) -> int {
    if i + start < size {
        i + start
    } else {
        i + start - size
    }
}

impl<const SIZE: usize, T> RingBuffer<SIZE, T> {
    /// The cursor stays inside the storage.
    pub closed spec fn wf(&self) -> bool {
        SIZE == 0 || self.idx < SIZE
    }

    /// The elements, oldest first.
    pub closed spec fn view(&self) -> Seq<T> {
        Seq::new(SIZE as nat, |i: int| self.data@[slot(self.idx as int, i, SIZE as int)])
    }

    /// The ring always holds `SIZE` elements.
    pub broadcast proof fn lemma_view_len(&self)
        ensures
            #[trigger] self.view().len() == SIZE,
    {
    }

    /// Physical slot of logical position `i`.
    fn physical(&self, i: usize) -> (r: usize)
        requires
            self.wf(),
            i < SIZE,
        ensures
            r == slot(self.idx as int, i as int, SIZE as int),
            r < SIZE,
    {
        if i < SIZE - self.idx {
            i + self.idx
        } else {
            i - (SIZE - self.idx)
        }
    }

    /// Creates the buffer; `data[0]` is the oldest element.
    pub fn new(data: [T; SIZE]) -> (r: Self)
        ensures
            r.wf(),
            r.view() == data@,
    {
        let r = Self { data, idx: 0 };
        assert(r.view() =~= data@);
        r
    }

    /// Overwrites the oldest element with `new`, which becomes the newest.
    pub fn insert(&mut self, new: T)
        requires
            old(self).wf(),
            SIZE > 0,
        ensures
            final(self).wf(),
            final(self).view() == old(self).view().drop_first().push(new),
    {
        let ghost before = self.view();
        let i = self.idx;
        self.data[i] = new;
        self.idx = if i + 1 == SIZE {
            0
        } else {
            i + 1
        };
        assert(self.view() =~= before.drop_first().push(new));
    }

    /// The `index`-th oldest element.
    pub fn index(&self, index: usize) -> (r: &T)
        requires
            self.wf(),
            index < SIZE,
        ensures
            *r == self.view()[index as int],
    {
        let p = self.physical(index);
        &self.data[p]
    }

    /// Mutable access to the `index`-th oldest element.
    pub fn index_mut(&mut self, index: usize) -> (r: &mut T)
        requires
            old(self).wf(),
            index < SIZE,
        ensures
            *r == old(self).view()[index as int],
            final(self).wf(),
            final(self).view() == old(self).view().update(index as int, *final(r)),
    {
        let p = self.physical(index);
        &mut self.data[p]
    }
}

impl<const SIZE: usize, T: Copy> RingBuffer<SIZE, T> {
    /// A snapshot of the elements, oldest first.
    pub fn copy(&self) -> (r: [T; SIZE])
        requires
            self.wf(),
        ensures
            r@ == self.view(),
    {
        let mut out = self.data;
        let mut i: usize = 0;
        while i < SIZE
            invariant
                self.wf(),
                i <= SIZE,
                forall|j: int| 0 <= j < i ==> out@[j] == self.view()[j],
            decreases SIZE - i,
        {
            let p = self.physical(i);
            out[i] = self.data[p];
            i += 1;
        }
        assert(out@ =~= self.view());
        out
    }
}

/// The contents after inserting each element of `v` in turn into a ring holding `s`.
pub open spec fn insert_all<T>(s: Seq<T>, v: Seq<T>) -> Seq<T>
    decreases v.len(),
{
    if v.len() == 0 {
        s
    } else {
        insert_all(s.drop_first().push(v[0]), v.drop_first())
    }
}

/// Inserting into a full ring keeps the newest elements of the old contents followed by
/// the inserted ones.
pub proof fn lemma_insert_all_window<T>(s: Seq<T>, v: Seq<T>)
    requires
        v.len() <= s.len(),
    ensures
        insert_all(s, v) == s.subrange(v.len() as int, s.len() as int) + v,
    decreases v.len(),
{
    if v.len() > 0 {
        let s1 = s.drop_first().push(v[0]);
        lemma_insert_all_window(s1, v.drop_first());
        assert(s1.subrange(v.len() - 1, s1.len() as int) + v.drop_first() =~= s.subrange(
            v.len() as int,
            s.len() as int,
        ) + v);
    } else {
        assert(s.subrange(0, s.len() as int) + v =~= s);
    }
}

/// Inserting as many elements as a ring holds, then reading positions `0..SIZE`, gives
/// back the inserted elements in insertion order, whatever the ring held before.
pub proof fn lemma_fill_in_order<T>(s: Seq<T>, v: Seq<T>)
    requires
        s.len() == v.len(),
    ensures
        insert_all(s, v) == v,
{
    lemma_insert_all_window(s, v);
    assert(s.subrange(v.len() as int, s.len() as int) + v =~= v);
}

} // verus!
