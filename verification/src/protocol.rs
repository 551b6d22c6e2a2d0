//! The intern-and-serialize protocol over the interner's model, and the
//! laws it obeys.
//!
//! One step of the protocol for one value is: start interning; on a first
//! sighting serialize the payload and finish interning with its position;
//! on a finished value reuse the recorded position. The spec functions here
//! compose the per-call transitions of [`crate::Interner`] into whole steps
//! and runs, and the proof functions state what the protocol guarantees.
use vstd::prelude::*;

use crate::interner::{empty_interner, finish_outcome, finish_result, start_outcome, start_result};
use crate::{InternError, InterningState};

verus! {

/// Whether one whole protocol step on `m` for value `v` writes a payload:
/// exactly on a first sighting.
pub open spec fn step_wrote(m: Map<Seq<char>, Option<usize>>, v: Seq<char>) -> bool {
    start_outcome(m, v) is Started
}

/// The map after one whole protocol step on `m` for value `v`, with the
/// payload written at `w` if this step wrote one. A `Pending` sighting
/// aborts the pass and changes nothing.
pub open spec fn step_result(
    m: Map<Seq<char>, Option<usize>>,
    v: Seq<char>,
    w: usize,
) -> Map<Seq<char>, Option<usize>> {
    if step_wrote(m, v) {
        finish_result(start_result(m, v), v, w)
    } else {
        m
    }
}

/// The position one whole protocol step resolves `v` to: the write position
/// `w` on a first sighting, the recorded position on a finished value, and
/// none on a `Pending` sighting, which aborts the pass.
pub open spec fn step_position(
    m: Map<Seq<char>, Option<usize>>,
    v: Seq<char>,
    w: usize,
) -> Option<usize> {
    match start_outcome(m, v) {
        InterningState::Started(_) => Some(w),
        InterningState::Pending => None,
        InterningState::Finished(p) => Some(p),
    }
}

/// The map after the first `i` steps of a run over the values `vs`, where
/// step `j` would write its payload at `ws[j]`.
pub open spec fn run_to(
    m: Map<Seq<char>, Option<usize>>,
    vs: Seq<Seq<char>>,
    ws: Seq<usize>,
    i: int,
) -> Map<Seq<char>, Option<usize>>
    decreases i,
{
    if i <= 0 {
        m
    } else {
        step_result(run_to(m, vs, ws, i - 1), vs[i - 1], ws[i - 1])
    }
}

/// Whether step `i` of a run from the empty interner writes a payload.
pub open spec fn wrote_at(vs: Seq<Seq<char>>, ws: Seq<usize>, i: int) -> bool {
    step_wrote(run_to(empty_interner(), vs, ws, i), vs[i])
}

/// The position step `i` of a run from the empty interner resolves to.
pub open spec fn resolved_at(vs: Seq<Seq<char>>, ws: Seq<usize>, i: int) -> Option<usize> {
    step_position(run_to(empty_interner(), vs, ws, i), vs[i], ws[i])
}

/// Whether `vs[i]` is the first occurrence of its value in `vs`.
pub open spec fn is_first_occurrence(vs: Seq<Seq<char>>, i: int) -> bool {
    forall|j: int| 0 <= j < i ==> vs[j] != vs[i]
}

/// First sighting drives the write. On an interner that has not seen `v`,
/// a start is `Started`; the matching finish is then owed `Ok` and records
/// `p`; and a start on an equal value made after that finish answers
/// `Finished(p)`.
pub proof fn lemma_first_sighting(m: Map<Seq<char>, Option<usize>>, v: Seq<char>, p: usize)
    requires
        !m.contains_key(v),
    ensures
        start_outcome(m, v) is Started,
        finish_outcome(start_result(m, v), v) is Ok,
        start_outcome(finish_result(start_result(m, v), v, p), v) == InterningState::<
            Seq<char>,
        >::Finished(p),
{
}

/// Interning one value never touches another value's entry: every protocol
/// transition changes the map at its own key alone, so what the laws say of
/// a value still holds after calls on other values.
pub proof fn lemma_other_keys_untouched(
    m: Map<Seq<char>, Option<usize>>,
    v: Seq<char>,
    u: Seq<char>,
    p: usize,
)
    requires
        v != u,
    ensures
        start_result(m, u).contains_key(v) == m.contains_key(v),
        m.contains_key(v) ==> start_result(m, u)[v] == m[v],
        finish_result(m, u, p).contains_key(v) == m.contains_key(v),
        m.contains_key(v) ==> finish_result(m, u, p)[v] == m[v],
{
}

/// Mid-flight collision is `Pending`: while `v` is started but not
/// finished, a second start on an equal value answers `Pending`, not a
/// second `Started`, and leaves the interner unchanged.
pub proof fn lemma_mid_flight_pending(m: Map<Seq<char>, Option<usize>>, v: Seq<char>)
    requires
        m.contains_key(v),
        m[v] is None,
    ensures
        start_outcome(m, v) is Pending,
        start_result(m, v) == m,
{
}

/// Cycle rejection: a start on a value the interner has not seen, followed
/// before its finish by another start on an equal value — which is how a
/// value graph reaches itself — answers `Pending`, which the driver refuses
/// as `CyclicInternedValue` (see [`InterningState::into_action`]).
pub proof fn lemma_cycle_is_pending(m: Map<Seq<char>, Option<usize>>, v: Seq<char>)
    requires
        !m.contains_key(v),
    ensures
        start_outcome(start_result(m, v), v) is Pending,
        start_result(start_result(m, v), v) == start_result(m, v),
{
}

/// A recorded position stands forever: an entry is never removed, and once
/// `v` is finished at `p0`, no later transition — on `v` itself or on any
/// other value — moves or overwrites it. So a position transitions from
/// absent to present at most once per entry.
pub proof fn lemma_position_stable(
    m: Map<Seq<char>, Option<usize>>,
    v: Seq<char>,
    u: Seq<char>,
    p0: usize,
    p: usize,
)
    requires
        m.contains_key(v),
        m[v] == Some(p0),
    ensures
        start_result(m, u).contains_key(v) && start_result(m, u)[v] == Some(p0),
        finish_result(m, u, p).contains_key(v) && finish_result(m, u, p)[v] == Some(p0),
{
}

/// Protocol violation: a second finish for one start answers
/// `AlreadyFinished` and changes nothing.
pub proof fn lemma_finish_twice(m: Map<Seq<char>, Option<usize>>, v: Seq<char>, p: usize, q: usize)
    requires
        finish_outcome(m, v) is Ok,
    ensures
        finish_outcome(finish_result(m, v, p), v) == Err::<(), InternError>(
            InternError::AlreadyFinished,
        ),
        finish_result(finish_result(m, v, p), v, q) == finish_result(m, v, p),
{
}

/// Protocol violation: a finish for a value that was never started answers
/// `NotStarted` and changes nothing.
pub proof fn lemma_finish_unstarted(m: Map<Seq<char>, Option<usize>>, v: Seq<char>, p: usize)
    requires
        !m.contains_key(v),
    ensures
        finish_outcome(m, v) == Err::<(), InternError>(InternError::NotStarted),
        finish_result(m, v, p) == m,
{
}

/// After the first `i` steps of a run from the empty interner, the entry of
/// a value whose first occurrence in `vs` is at `j` is: absent while
/// `i <= j`, and the position `ws[j]` written at that first occurrence
/// afterwards.
proof fn lemma_run_to_entry(vs: Seq<Seq<char>>, ws: Seq<usize>, i: int, j: int)
    requires
        vs.len() == ws.len(),
        0 <= j < vs.len(),
        is_first_occurrence(vs, j),
        0 <= i <= vs.len(),
    ensures
        i <= j ==> !run_to(empty_interner(), vs, ws, i).contains_key(vs[j]),
        i > j ==> run_to(empty_interner(), vs, ws, i).contains_key(vs[j]) && run_to(
            empty_interner(),
            vs,
            ws,
            i,
        )[vs[j]] == Some(ws[j]),
    decreases i,
{
    if i > 0 {
        lemma_run_to_entry(vs, ws, i - 1, j);
    }
}

/// Dedup correctness: in a run from the empty interner over any sequence of
/// values — so for any number of equal copies interleaved with other values
/// — an occurrence writes a payload exactly when it is its value's first
/// occurrence, and every occurrence resolves to the position written there.
pub proof fn lemma_dedup_run(vs: Seq<Seq<char>>, ws: Seq<usize>, i: int, j: int)
    requires
        vs.len() == ws.len(),
        0 <= i < vs.len(),
        0 <= j <= i,
        vs[j] == vs[i],
        is_first_occurrence(vs, j),
    ensures
        wrote_at(vs, ws, i) <==> i == j,
        resolved_at(vs, ws, i) == Some(ws[j]),
{
    lemma_run_to_entry(vs, ws, i, j);
}

} // verus!
