//! The interning state machine: one entry per distinct value, a position
//! recorded at most once per entry.
use vstd::prelude::*;

use crate::store::{store_contents, Store};
use crate::{InternError, InterningState};

verus! {

/// An entry in the interner: the stream position at which the value's
/// payload was written, or `None` while the payload is still being produced.
#[derive(Clone, Copy, Debug)]
pub struct Entry {
    pos: Option<usize>,
}

impl View for Entry {
    type V = Option<usize>;

    closed spec fn view(&self) -> Option<usize> {
        self.pos
    }
}

impl Entry {
    /// The position recorded for the value, if its payload is finished.
    pub fn position(&self) -> (r: Option<usize>)
        ensures
            r == self@,
    {
        self.pos
    }
}

/// The borrowed state carried from a successful `start_interning` to the
/// matching `finish_interning`: the key whose entry is awaiting a position.
/// It must be consumed by exactly one finish call on the same interner.
#[derive(Clone, Copy, Debug)]
pub struct InternState<'a> {
    value: &'a str,
}

impl<'a> View for InternState<'a> {
    type V = Seq<char>;

    closed spec fn view(&self) -> Seq<char> {
        self.value@
    }
}

/// A general-purpose value interner.
///
/// Its view is the map from each interned key to the recorded position of
/// its payload: `None` while the payload is still being produced, `Some(p)`
/// once `finish_interning` has recorded `p`.
pub struct Interner {
    value_to_pos: Store,
}

impl View for Interner {
    type V = Map<Seq<char>, Option<usize>>;

    closed spec fn view(&self) -> Map<Seq<char>, Option<usize>> {
        store_contents(self.value_to_pos)
    }
}

/// The model of an interner that has seen nothing yet.
pub open spec fn empty_interner() -> Map<Seq<char>, Option<usize>> {
    Map::<Seq<char>, Option<usize>>::empty()
}

/// What `start_interning` answers on a map `m` for a value `v`: `Started`
/// on the first sighting, `Pending` while the matching finish is still owed,
/// and `Finished` with the recorded position afterwards.
pub open spec fn start_outcome(
    m: Map<Seq<char>, Option<usize>>,
    v: Seq<char>,
) -> InterningState<Seq<char>> {
    if !m.contains_key(v) {
        InterningState::Started(v)
    } else {
        match m[v] {
            None => InterningState::Pending,
            Some(p) => InterningState::Finished(p),
        }
    }
}

/// The map after `start_interning`: a first sighting claims an entry with no
/// position yet; every later sighting leaves the map as it is.
pub open spec fn start_result(
    m: Map<Seq<char>, Option<usize>>,
    v: Seq<char>,
) -> Map<Seq<char>, Option<usize>> {
    if !m.contains_key(v) {
        m.insert(v, None)
    } else {
        m
    }
}

/// What `finish_interning` answers on a map `m` for a value `v`: `Ok` exactly
/// when the entry exists and has no position yet.
pub open spec fn finish_outcome(
    m: Map<Seq<char>, Option<usize>>,
    v: Seq<char>,
) -> Result<(), InternError> {
    if !m.contains_key(v) {
        Err(InternError::NotStarted)
    } else if m[v] is Some {
        Err(InternError::AlreadyFinished)
    } else {
        Ok(())
    }
}

/// The map after `finish_interning` recorded position `p` for `v`; on either
/// protocol violation the map is untouched.
pub open spec fn finish_result(
    m: Map<Seq<char>, Option<usize>>,
    v: Seq<char>,
    p: usize,
) -> Map<Seq<char>, Option<usize>> {
    if finish_outcome(m, v) is Ok {
        m.insert(v, Some(p))
    } else {
        m
    }
}

impl Interner {
    /// Returns a new, empty interner.
    pub fn new() -> (r: Self)
        ensures
            r@ == empty_interner(),
    {
        Interner { value_to_pos: Store::new() }
    }

    /// The number of interned values.
    pub fn len(&self) -> (n: usize)
        ensures
            n == self@.dom().len(),
    {
        self.value_to_pos.len()
    }

    /// The interned values with their entries, in no promised order.
    pub fn iter(&self) -> (r: Vec<(String, Entry)>)
        ensures
            forall|i: int| 0 <= i < r@.len() ==> {
                &&& self@.contains_key(#[trigger] r@[i].0@)
                &&& r@[i].1@ == self@[r@[i].0@]
            },
            forall|k: Seq<char>| self@.contains_key(k)
                ==> exists|i: int| 0 <= i < r@.len() && #[trigger] r@[i].0@ == k,
            forall|i: int, j: int| 0 <= i < j < r@.len() ==> r@[i].0@ != r@[j].0@,
    {
        self.value_to_pos.pairs()
    }

    /// Starts interning the given value.
    ///
    /// The value is looked up by equality: a first sighting claims a fresh
    /// entry and must be followed by serializing the payload and calling
    /// `finish_interning` with the returned state; a sighting of an entry
    /// still awaiting its finish is `Pending`; a finished entry answers the
    /// position recorded for it.
    pub fn start_interning<'a>(&mut self, value: &'a str) -> (r: InterningState<InternState<'a>>)
        ensures
            final(self)@ == start_result(old(self)@, value@),
            match r {
                InterningState::Started(state) => state@ == value@ && start_outcome(
                    old(self)@,
                    value@,
                ) is Started,
                InterningState::Pending => start_outcome(old(self)@, value@) is Pending,
                InterningState::Finished(pos) => start_outcome(old(self)@, value@)
                    == InterningState::<Seq<char>>::Finished(pos),
            },
    {
        match self.value_to_pos.probe_or_insert(value, Entry { pos: None }) {
            Some(entry) => match entry.position() {
                None => InterningState::Pending,
                Some(pos) => InterningState::Finished(pos),
            },
            None => InterningState::Started(InternState { value }),
        }
    }

    /// Finishes interning the value named by `state`, recording `pos` as the
    /// position of its payload.
    ///
    /// Fails with `AlreadyFinished` if a position is already recorded for the
    /// value, and with `NotStarted` if the value has no entry at all; either
    /// is a protocol violation and leaves the interner untouched.
    pub fn finish_interning(&mut self, state: InternState<'_>, pos: usize) -> (r: Result<
        (),
        InternError,
    >)
        ensures
            r == finish_outcome(old(self)@, state@),
            final(self)@ == finish_result(old(self)@, state@, pos),
    {
        match self.value_to_pos.get(state.value) {
            None => Err(InternError::NotStarted),
            Some(entry) => match entry.position() {
                Some(_) => Err(InternError::AlreadyFinished),
                None => {
                    self.value_to_pos.set_existing(state.value, Entry { pos: Some(pos) });
                    Ok(())
                },
            },
        }
    }
}

impl Default for Interner {
    /// Returns a new, empty interner.
    fn default() -> (r: Self)
        ensures
            r@ == empty_interner(),
    {
        Interner::new()
    }
}

} // verus!
