//! General-purpose value interning for a zero-copy serialization pipeline.
//!
//! When many records share equal values, serializing every occurrence would
//! duplicate the payload bytes. This crate tracks which values have already
//! been written and where, so that repeated values resolve to the position
//! of the one payload written for them. The serializer drives a three-step
//! protocol per value: start interning, serialize the payload if this is the
//! first sighting, finish interning with the payload's position.
use vstd::prelude::*;

mod adapter;
mod interner;
mod protocol;
mod store;

pub use adapter::InterningAdapter;
pub use interner::{
    empty_interner, finish_outcome, finish_result, start_outcome, start_result, Entry,
    InternState, Interner,
};
pub use protocol::{
    is_first_occurrence, lemma_cycle_is_pending, lemma_dedup_run, lemma_finish_twice,
    lemma_finish_unstarted, lemma_first_sighting, lemma_mid_flight_pending,
    lemma_other_keys_untouched, lemma_position_stable, resolved_at, run_to, step_position,
    step_result, step_wrote, wrote_at,
};

verus! {

/// The result of starting to intern a value.
pub enum InterningState<S> {
    /// The caller started interning this value. They should proceed to
    /// serialize the value's payload and call `finish_interning`.
    Started(S),
    /// Another caller started interning this value, but has not finished
    /// yet. This can only occur with cyclic shared structures, which the
    /// single-pass output format cannot represent.
    Pending,
    /// This value has already been interned. The caller should emit a
    /// reference to the returned position instead of a second payload.
    Finished(usize),
}

/// What the serializer must do next for one value, as decided by
/// [`InterningState::into_action`].
#[derive(Debug)]
pub enum InternAction<S> {
    /// First sighting: serialize the payload, then finish interning with its
    /// position.
    Serialize(S),
    /// The payload is already written at this position: emit a reference to
    /// it and write nothing else.
    Reuse(usize),
}

/// The kinds of failure the interning protocol can report. All of them are
/// fatal to the serialization pass in progress.
#[derive(Clone, Copy, Debug, PartialEq, Eq, Structural)]
pub enum InternError {
    /// `finish_interning` was called without a matching prior start.
    NotStarted,
    /// `finish_interning` was called twice for one start.
    AlreadyFinished,
    /// A value transitively references itself before its payload is
    /// finished.
    CyclicInternedValue,
}

impl<S> InterningState<S> {
    /// Decides what serializing one interned value comes to: a first
    /// sighting must write the payload, a finished value is reused by
    /// position, and a pending value means the value graph is cyclic, which
    /// is refused because a reference cannot point at a payload that is not
    /// fully written yet.
    pub fn into_action(self) -> (r: Result<InternAction<S>, InternError>)
        ensures
            match self {
                InterningState::Started(state) => r matches Ok(InternAction::Serialize(s))
                    && s == state,
                InterningState::Pending => r == Err::<InternAction<S>, _>(
                    InternError::CyclicInternedValue,
                ),
                InterningState::Finished(pos) => r matches Ok(InternAction::Reuse(p)) && p == pos,
            },
    {
        match self {
            InterningState::Started(state) => Ok(InternAction::Serialize(state)),
            InterningState::Pending => Err(InternError::CyclicInternedValue),
            InterningState::Finished(pos) => Ok(InternAction::Reuse(pos)),
        }
    }
}

impl InternError {
    /// A short description of the failure, as a serializer would report it.
    pub fn message(&self) -> (r: &'static str)
        ensures
            r@ == self.message_spec(),
    {
        match self {
            InternError::NotStarted => "value was not started interning",
            InternError::AlreadyFinished => "value was already finished interning",
            InternError::CyclicInternedValue => "encountered cyclic shared pointers while interning",
        }
    }

    /// The description `message` answers for each failure kind.
    pub open spec fn message_spec(&self) -> Seq<char> {
        match self {
            InternError::NotStarted => "value was not started interning"@,
            InternError::AlreadyFinished => "value was already finished interning"@,
            InternError::CyclicInternedValue => "encountered cyclic shared pointers while interning"@,
        }
    }
}

/// The flavor type for interned values: the single-pass output format
/// forbids cyclic graphs, which is what lets a reference always point at an
/// already-written payload.
pub struct InternFlavor;

/// A wrapper that pools copies of the same value to reduce serialized size.
/// The field is handed to the interner as the value itself.
#[derive(Debug)]
pub struct Intern;

/// A wrapper that pools copies of the same dereferenced value to reduce
/// serialized size. The field is handed to the interner through `Deref`.
#[derive(Debug)]
pub struct DerefIntern;

/// A wrapper that pools copies of the same borrowed value to reduce
/// serialized size. The field is handed to the interner through `Borrow`.
#[derive(Debug)]
pub struct BorrowIntern<B: ?Sized> {
    _phantom: core::marker::PhantomData<B>,
}

} // verus!
