//! An append-only store handing out stable integer handles.
use vstd::prelude::*;
use vstd::std_specs::iter::IteratorSpec;

verus! {

/// A handle to one entry of an [`Arena`]: the position at which the entry was pushed.
#[derive(Debug, Copy, Clone, PartialEq, Eq, Hash, Structural)]
pub struct ArenaId(pub usize);

/// An append-only collection; entries are never removed or reordered, so an
/// [`ArenaId`] stays valid for the whole life of the arena.
#[derive(Debug, Clone)]
pub struct Arena<T> {
    arena: Vec<T>,
}

impl<T> View for Arena<T> {
    type V = Seq<T>;

    /// The entries, in the order in which they were pushed.
    closed spec fn view(&self) -> Seq<T> {
        self.arena@
    }
}

impl<T> Arena<T> {
    /// `id` names an entry of this arena.
    pub open spec fn valid_id(&self, id: ArenaId) -> bool {
        id.0 < self@.len()
    }

    /// Every id of `ids` names an entry of this arena.
    pub open spec fn valid_ids(&self, ids: Seq<ArenaId>) -> bool {
        forall|i: int| 0 <= i < ids.len() ==> self.valid_id(#[trigger] ids[i])
    }

    /// Creates an empty arena.
    pub fn new() -> (r: Self)
        ensures
            r@ == Seq::<T>::empty(),
    {
        Arena { arena: Vec::new() }
    }

    /// The number of entries.
    pub fn len(&self) -> (r: usize)
        ensures
            r == self@.len(),
    {
        self.arena.len()
    }

    /// Whether the arena holds no entry.
    pub fn is_empty(&self) -> (r: bool)
        ensures
            r == (self@.len() == 0),
    {
        self.arena.len() == 0
    }

    /// The entry named by `id`, or `None` when `id` is out of range.
    pub fn get(&self, id: ArenaId) -> (r: Option<&T>)
        ensures
            r == (if self.valid_id(id) {
                Some(&self@[id.0 as int])
            } else {
                None
            }),
    {
        if id.0 < self.arena.len() {
            Some(&self.arena[id.0])
        } else {
            None
        }
    }

    /// A mutable reference to the entry named by `id`, or `None` when `id` is out of range.
    pub fn get_mut(&mut self, id: ArenaId) -> (r: Option<&mut T>)
        ensures
            old(self).valid_id(id) <==> r is Some,
            r is Some ==> *r->0 == old(self)@[id.0 as int] && final(self)@ == old(self)@.update(
                id.0 as int,
                *final(r->0),
            ),
            r is None ==> final(self)@ == old(self)@,
    {
        if id.0 < self.arena.len() {
            Some(&mut self.arena[id.0])
        } else {
            None
        }
    }

    /// Walks the entries in insertion order.
    pub fn iter(&self) -> (r: std::slice::Iter<'_, T>)
        ensures
            r.remaining().unref() == self@,
    {
        self.arena.iter()
    }

    /// All entries as one mutable slice, in insertion order; a `for` loop over it
    /// visits each entry once and may change it in place.
    pub fn iter_mut(&mut self) -> (r: &mut [T])
        ensures
            r@ == old(self)@,
            final(self)@ == final(r)@,
    {
        self.arena.as_mut_slice()
    }

    /// Whether `id` names an entry of this arena.
    pub fn is_valid(&self, id: ArenaId) -> (r: bool)
        ensures
            r == self.valid_id(id),
    {
        id.0 < self.arena.len()
    }

    /// Whether every id of `slice` names an entry of this arena.
    pub fn is_valid_slice(&self, slice: &[ArenaId]) -> (r: bool)
        ensures
            r == self.valid_ids(slice@),
    {
        let mut i: usize = 0;
        while i < slice.len()
            invariant
                i <= slice@.len(),
                forall|j: int| 0 <= j < i ==> self.valid_id(#[trigger] slice@[j]),
            decreases slice@.len() - i,
        {
            if !self.is_valid(slice[i]) {
                return false;
            }
            i = i + 1;
        }
        true
    }

    /// Appends `value` and returns its handle, which is the previous length.
    pub fn push(&mut self, value: T) -> (r: ArenaId)
        ensures
            final(self)@ == old(self)@.push(value),
            r.0 == old(self)@.len(),
    {
        let id = self.arena.len();
        self.arena.push(value);
        ArenaId(id)
    }

    /// A cursor that hands out `(id, entry)` pairs in insertion order.
    pub fn enumerate(&self) -> (r: EnumerableArena<'_, T>)
        ensures
            r.source() == self@,
            r.position() == 0,
    {
        EnumerableArena { inner: self, pos: 0 }
    }
}

impl<T> Default for Arena<T> {
    fn default() -> (r: Self)
        ensures
            r@ == Seq::<T>::empty(),
    {
        Arena::new()
    }
}

/// Hands out each entry of an arena together with its [`ArenaId`], in insertion order.
pub struct EnumerableArena<'a, T> {
    inner: &'a Arena<T>,
    pos: usize,
}

impl<'a, T> EnumerableArena<'a, T> {
    /// The entries of the arena being walked.
    pub closed spec fn source(&self) -> Seq<T> {
        self.inner@
    }

    /// How many entries have been handed out so far.
    pub closed spec fn position(&self) -> nat {
        self.pos as nat
    }

    /// The next pair, or `None` once every entry has been handed out.
    pub fn next(&mut self) -> (r: Option<(ArenaId, &'a T)>)
        ensures
            final(self).source() == old(self).source(),
            old(self).position() < old(self).source().len() ==> r == Some(
                (ArenaId(old(self).position() as usize), &old(self).source()[old(self).position() as int]),
            ) && final(self).position() == old(self).position() + 1,
            old(self).position() >= old(self).source().len() ==> r is None && final(self).position()
                == old(self).position(),
    {
        if self.pos >= self.inner.arena.len() {
            None
        } else {
            let id = self.pos;
            self.pos = self.pos + 1;
            Some((ArenaId(id), &self.inner.arena[id]))
        }
    }
}

} // verus!
