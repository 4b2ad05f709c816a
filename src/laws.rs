//! Properties of the protocol, stated over the engine's spec transitions and
//! proved from them.

use vstd::prelude::*;
use crate::engine::{
    EngineState, NextV, Phase, Transition, awaits_package, bump, pending_answer, state_wf,
    step_found, step_launched, step_receive,
};
use crate::message::{
    CommandV, HitV, PackageId, PackageV, PayloadV, end_marker, hit_package, not_found_text,
    result_package,
};
use crate::result_set::{Generation, lemma_position, position};

verus! {

/// Every result among `writes` answers the request `answered`.
pub open spec fn answers_only(writes: Seq<PackageV>, answered: PackageId) -> bool {
    forall|k: int|
        0 <= k < writes.len() && (#[trigger] writes[k]).payload is Result ==> writes[k].payload->Result_0
            == answered
}

/// No hit is among `writes`.
pub open spec fn sends_no_hit(writes: Seq<PackageV>) -> bool {
    forall|k: int| 0 <= k < writes.len() ==> !((#[trigger] writes[k]).payload is Hit)
}

/// Whether `p` acknowledges the attempt `attempt` positively.
pub open spec fn acknowledges(p: PackageV, attempt: PackageId) -> bool {
    &&& p.payload matches PayloadV::Result(answered, outcome)
    &&& answered == attempt
    &&& outcome is Ok
}

/// Correlation. A command read while idle is accepted, every result written
/// in reply carries the id of the package that held the command, and a search
/// or a launch that it starts will answer that same id.
pub proof fn lemma_correlation<A>(s: EngineState<A>, p: PackageV)
    requires
        state_wf(s),
        s.phase is Idle,
        p.payload is Command,
    ensures
        step_receive(s, p) is Some,
        answers_only(step_receive(s, p)->Some_0.writes, p.id),
        step_receive(s, p)->Some_0.state.phase is Searching ==> pending_answer(
            step_receive(s, p)->Some_0.state.phase,
        ) == p.id,
        step_receive(s, p)->Some_0.state.phase is Launching ==> pending_answer(
            step_receive(s, p)->Some_0.state.phase,
        ) == p.id,
{
    let t = step_receive(s, p)->Some_0;
    assert(answers_only(t.writes, p.id));
}

/// Correlation, completed. The records of a search are acknowledged by a
/// result that answers the search request, and the outcome of a launch is
/// answered to the activation that asked for it.
pub proof fn lemma_correlation_of_completion<A>(
    s: EngineState<A>,
    records: Seq<A>,
    hits: Seq<HitV>,
    outcome: Result<(), Seq<char>>,
)
    requires
        state_wf(s),
        s.phase is Searching || s.phase is Launching,
    ensures
        s.phase is Searching ==> {
            let t = step_found(s, pending_answer(s.phase), records, hits);
            &&& t.writes[0] == result_package(s.next_id, pending_answer(s.phase), Ok(()))
            &&& answers_only(t.writes, pending_answer(s.phase))
        },
        s.phase is Launching ==> step_launched(s, pending_answer(s.phase), outcome).writes == seq![
            result_package(s.next_id, pending_answer(s.phase), outcome),
        ],
{
    if s.phase is Searching {
        let t = step_found(s, pending_answer(s.phase), records, hits);
        assert(answers_only(t.writes, pending_answer(s.phase)));
    }
}

/// A package read from the stream never changes the result set: only the
/// records of a search replace it, and a launch leaves it as it was.
pub proof fn lemma_generation_kept<A>(s: EngineState<A>, p: PackageV, outcome: Result<(), Seq<char>>)
    requires
        state_wf(s),
    ensures
        step_receive(s, p) is Some && !(s.phase is Idle && p.payload matches PayloadV::Command(
            CommandV::GetData(_),
        )) ==> step_receive(s, p)->Some_0.state.generation == s.generation,
        step_launched(s, pending_answer(s.phase), outcome).state.generation == s.generation,
{
}

/// Generation isolation. Once a search has replaced the result set, an
/// activation of an id that no hit of the new generation carries is answered
/// with the not-found error and launches nothing, whatever an earlier
/// generation held. `later` is any idle state that still holds the new
/// generation.
pub proof fn lemma_generation_isolation<A>(
    s: EngineState<A>,
    records: Seq<A>,
    hits: Seq<HitV>,
    later: EngineState<A>,
    hit_id: u64,
    p: PackageV,
)
    requires
        state_wf(s),
        s.phase is Searching,
        records.len() == hits.len(),
        forall|j: int| 0 <= j < hits.len() ==> hits[j].id != hit_id,
        later.generation == step_found(s, pending_answer(s.phase), records, hits).state.generation,
        later.phase is Idle,
        p.payload == PayloadV::Command(CommandV::Activate(hit_id)),
    ensures
        later.generation == (Generation { records, hits }),
        step_receive(later, p) == Some(
            Transition {
                state: EngineState { next_id: bump(later.next_id), ..later },
                writes: seq![result_package(later.next_id, p.id, Err(not_found_text()))],
                next: NextV::Read,
            },
        ),
{
    lemma_position(hits, hit_id);
}

/// Streaming order and retry. While hit `index` awaits acknowledgment, a
/// positive acknowledgment of that very attempt sends hit `index + 1` (or the
/// end-of-stream marker after the last hit); any other result sends hit
/// `index` again, unchanged, under a new id, and leaves the result set and
/// the position as they were; any other package sends no hit.
pub proof fn lemma_streaming_order<A>(s: EngineState<A>, p: PackageV)
    requires
        state_wf(s),
        s.phase is Streaming,
    ensures
        ({
            let index = s.phase->index as int;
            let attempt = s.phase->attempt;
            let hits = s.generation.hits;
            &&& acknowledges(p, attempt) && index + 1 < hits.len() ==> (step_receive(s, p) matches Some(t) && {
                &&& t.writes == seq![hit_package(s.next_id, hits[index + 1])]
                &&& t.state.phase == Phase::Streaming { index: (index + 1) as usize, attempt: s.next_id }
            })
            &&& acknowledges(p, attempt) && index + 1 == hits.len() ==> (step_receive(s, p) matches Some(t) && {
                &&& t.writes == seq![end_marker(s.next_id)]
                &&& t.state.phase is Idle
            })
            &&& p.payload is Result && !acknowledges(p, attempt) ==> (step_receive(s, p) matches Some(t) && {
                &&& t.writes == seq![hit_package(s.next_id, hits[index])]
                &&& t.state.phase == Phase::Streaming { index: index as usize, attempt: s.next_id }
                &&& s.next_id != attempt
                &&& t.state.generation == s.generation
            })
            &&& !(p.payload is Result) ==> (step_receive(s, p) matches Some(t) ==> sends_no_hit(t.writes))
        }),
{
    let t = step_receive(s, p);
    if t is Some && !(p.payload is Result) {
        assert(sends_no_hit(t->Some_0.writes));
    }
}

/// Delivery starts at the first hit of the new generation, right after the
/// result that acknowledges the search; with no hit, only the end-of-stream
/// marker follows.
pub proof fn lemma_delivery_starts_first<A>(s: EngineState<A>, records: Seq<A>, hits: Seq<HitV>)
    requires
        state_wf(s),
        s.phase is Searching,
    ensures
        ({
            let t = step_found(s, pending_answer(s.phase), records, hits);
            let ack = result_package(s.next_id, pending_answer(s.phase), Ok(()));
            &&& hits.len() > 0 ==> t.writes == seq![ack, hit_package(bump(s.next_id), hits[0])]
            &&& hits.len() > 0 ==> t.state.phase == Phase::Streaming { index: 0, attempt: bump(s.next_id) }
            &&& hits.len() == 0 ==> t.writes == seq![ack, end_marker(bump(s.next_id))]
            &&& hits.len() == 0 ==> t.state.phase is Idle
        }),
{
    let t = step_found(s, pending_answer(s.phase), records, hits);
    let ack = result_package(s.next_id, pending_answer(s.phase), Ok(()));
    if hits.len() > 0 {
        assert(t.writes =~= seq![ack, hit_package(bump(s.next_id), hits[0])]);
    } else {
        assert(t.writes =~= seq![ack, end_marker(bump(s.next_id))]);
    }
}

/// Abort truncation. An abort read while a hit awaits acknowledgment ends the
/// delivery: only the end-of-stream marker is written and the engine is idle.
/// From idle, no package read sends a hit, so no later hit of that delivery
/// is ever sent.
pub proof fn lemma_abort_truncates<A>(s: EngineState<A>, p: PackageV, q: PackageV)
    requires
        state_wf(s),
        s.phase is Streaming,
        p.payload == PayloadV::Command(CommandV::Abort),
    ensures
        step_receive(s, p) matches Some(t) && {
            &&& t.writes == seq![end_marker(s.next_id)]
            &&& t.state.phase is Idle
            &&& t.state.generation == s.generation
            &&& (step_receive(t.state, q) matches Some(u) ==> sends_no_hit(u.writes))
        },
{
    let t = step_receive(s, p)->Some_0;
    let u = step_receive(t.state, q);
    if u is Some {
        assert(sends_no_hit(u->Some_0.writes));
    }
}

/// Empty query. With the show-on-empty setting off, an empty query empties
/// the result set and is answered by the acknowledgment and the end-of-stream
/// marker alone. With it on, every application is listed.
pub proof fn lemma_empty_query<A>(s: EngineState<A>, p: PackageV)
    requires
        state_wf(s),
        s.phase is Idle,
        p.payload == PayloadV::Command(CommandV::GetData(Seq::<char>::empty())),
    ensures
        !s.show_on_empty ==> (step_receive(s, p) matches Some(t) && {
            &&& t.writes == seq![result_package(s.next_id, p.id, Ok(())), end_marker(bump(s.next_id))]
            &&& t.state.generation.hits.len() == 0
            &&& t.state.generation.records.len() == 0
            &&& t.state.phase is Idle
            &&& t.next == NextV::Read
        }),
        s.show_on_empty ==> (step_receive(s, p) matches Some(t) && {
            &&& t.writes.len() == 0
            &&& t.state.phase == Phase::Searching { answer: p.id }
            &&& t.next == NextV::ListAll
        }),
{
    if !s.show_on_empty {
        let t = step_receive(s, p)->Some_0;
        assert(t.writes =~= seq![result_package(s.next_id, p.id, Ok(())), end_marker(bump(s.next_id))]);
    }
}

/// Quit is terminal. It is answered once, the caller is told to halt, and the
/// engine no longer waits for a package: none is read after it.
pub proof fn lemma_quit_terminal<A>(s: EngineState<A>, p: PackageV, q: PackageV)
    requires
        state_wf(s),
        s.phase is Idle,
        p.payload == PayloadV::Command(CommandV::Quit),
    ensures
        step_receive(s, p) matches Some(t) && {
            &&& t.writes == seq![result_package(s.next_id, p.id, Ok(()))]
            &&& t.next == NextV::Halt
            &&& t.state.phase is Stopped
            &&& !awaits_package(t.state.phase)
            &&& step_receive(t.state, q) is None
        },
{
}

} // verus!
