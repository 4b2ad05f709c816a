//! The protocol engine: command dispatch and the streamed delivery of hits.
//!
//! The engine never touches the stream itself. Each method takes one event,
//! returns the packages to write in order and what to wait for next, and
//! moves the engine to its next phase. Each method is proved to follow the
//! spec transition of the same event (`step_receive`, `step_found`,
//! `step_launched`).

use vstd::prelude::*;
use crate::message::{
    Command, CommandV, Hit, HitV, Package, PackageId, PackageV, Payload, PayloadV, end_marker,
    hit_package, not_found_message, not_found_text, outcome_view, result_package,
};
use crate::result_set::{Generation, ResultSet, position};

verus! {

/// Whether an empty query lists every application by default.
pub const SHOW_ON_EMPTY: bool = false;

/// Where the engine stands between two events.
#[derive(Clone, Copy, Debug, PartialEq, Eq, Structural)]
pub enum Phase {
    /// Waiting for the next command.
    Idle,
    /// Waiting for the application directory to answer the query of request `answer`.
    Searching { answer: PackageId },
    /// Hit `index` was sent in the package `attempt`; waiting for its acknowledgment.
    Streaming { index: usize, attempt: PackageId },
    /// Waiting for the launch requested by request `answer`.
    Launching { answer: PackageId },
    /// Quit was processed; nothing more is read.
    Stopped,
}

/// What the caller does after writing the packages of a step.
#[derive(Debug)]
pub enum Next {
    /// Read one package and hand it to `receive`.
    Read,
    /// List every application and hand the records to `found`.
    ListAll,
    /// Search the applications for the query and hand the records to `found`.
    Search(String),
    /// Launch the record at this position and hand the outcome to `launched`.
    Launch(usize),
    /// Stop; the writes of this step are best-effort.
    Halt,
}

pub enum NextV {
    Read,
    ListAll,
    Search(Seq<char>),
    Launch(nat),
    Halt,
}

impl View for Next {
    type V = NextV;

    open spec fn view(&self) -> NextV {
        match self {
            Next::Read => NextV::Read,
            Next::ListAll => NextV::ListAll,
            Next::Search(q) => NextV::Search(q@),
            Next::Launch(i) => NextV::Launch(*i as nat),
            Next::Halt => NextV::Halt,
        }
    }
}

/// The packages to write, in order, and what to do after them.
#[derive(Debug)]
pub struct Step {
    pub writes: Vec<Package>,
    pub next: Next,
}

pub struct StepV {
    pub writes: Seq<PackageV>,
    pub next: NextV,
}

impl View for Step {
    type V = StepV;

    open spec fn view(&self) -> StepV {
        StepV { writes: self.writes@.map_values(|p: Package| p@), next: self.next@ }
    }
}

/// A package of a kind that the current phase does not expect: the host and
/// the provider have lost step, which is fatal.
#[derive(Debug, PartialEq, Eq, Structural)]
pub enum ProtocolError {
    UnexpectedPayload { id: PackageId },
}

/// The engine, seen mathematically.
pub struct EngineState<A> {
    pub generation: Generation<A>,
    pub phase: Phase,
    /// The id that the next package written will carry.
    pub next_id: PackageId,
    pub show_on_empty: bool,
}

/// What one event does: the new state, the packages written, what comes next.
pub struct Transition<A> {
    pub state: EngineState<A>,
    pub writes: Seq<PackageV>,
    pub next: NextV,
}

/// The id minted after `n`.
pub open spec fn bump(n: PackageId) -> PackageId {
    if n == u64::MAX {
        0
    } else {
        (n + 1) as u64
    }
}

/// The state is coherent: records and hits are paired, a hit being delivered
/// exists, and its attempt id is the last one minted.
pub open spec fn state_wf<A>(s: EngineState<A>) -> bool {
    &&& s.generation.records.len() == s.generation.hits.len()
    &&& s.generation.hits.len() <= usize::MAX
    &&& (s.phase matches Phase::Streaming { index, .. } ==> index < s.generation.hits.len())
    &&& (s.phase matches Phase::Streaming { attempt, .. } ==> s.next_id == bump(attempt))
}

/// The request that a search or a launch in progress will answer.
pub open spec fn pending_answer(phase: Phase) -> PackageId {
    match phase {
        Phase::Searching { answer } => answer,
        Phase::Launching { answer } => answer,
        _ => 0,
    }
}

/// The phases in which the engine waits for a package from the stream.
pub open spec fn awaits_package(phase: Phase) -> bool {
    phase is Idle || phase is Streaming
}

/// The end of a delivery: the end-of-stream marker, then back to idle.
pub open spec fn step_end<A>(s: EngineState<A>) -> Transition<A> {
    Transition {
        state: EngineState { phase: Phase::Idle, next_id: bump(s.next_id), ..s },
        writes: seq![end_marker(s.next_id)],
        next: NextV::Read,
    }
}

/// Delivery at position `index`: the hit there under a fresh id, or the end
/// of the delivery when no hit is left.
pub open spec fn step_deliver<A>(s: EngineState<A>, index: nat) -> Transition<A> {
    if index < s.generation.hits.len() {
        Transition {
            state: EngineState {
                phase: Phase::Streaming { index: index as usize, attempt: s.next_id },
                next_id: bump(s.next_id),
                ..s
            },
            writes: seq![hit_package(s.next_id, s.generation.hits[index as int])],
            next: NextV::Read,
        }
    } else {
        step_end(s)
    }
}

/// A new generation for request `answer`: it replaces the result set, the
/// request is acknowledged, and delivery starts at the first hit.
pub open spec fn step_found<A>(
    s: EngineState<A>,
    answer: PackageId,
    records: Seq<A>,
    hits: Seq<HitV>,
) -> Transition<A> {
    let fresh = EngineState {
        generation: Generation { records, hits },
        next_id: bump(s.next_id),
        ..s
    };
    let t = step_deliver(fresh, 0);
    Transition { writes: seq![result_package(s.next_id, answer, Ok(()))] + t.writes, ..t }
}

/// The outcome of a launch, answered to the request that asked for it.
pub open spec fn step_launched<A>(
    s: EngineState<A>,
    answer: PackageId,
    outcome: Result<(), Seq<char>>,
) -> Transition<A> {
    Transition {
        state: EngineState { phase: Phase::Idle, next_id: bump(s.next_id), ..s },
        writes: seq![result_package(s.next_id, answer, outcome)],
        next: NextV::Read,
    }
}

/// A command read while idle.
pub open spec fn step_command<A>(s: EngineState<A>, id: PackageId, c: CommandV) -> Transition<A> {
    match c {
        CommandV::Quit => Transition {
            state: EngineState { phase: Phase::Stopped, next_id: bump(s.next_id), ..s },
            writes: seq![result_package(s.next_id, id, Ok(()))],
            next: NextV::Halt,
        },
        CommandV::Abort => Transition { state: s, writes: seq![], next: NextV::Read },
        CommandV::GetData(q) => {
            let searching = EngineState { phase: Phase::Searching { answer: id }, ..s };
            if q.len() == 0 && !s.show_on_empty {
                step_found(searching, id, seq![], seq![])
            } else if q.len() == 0 {
                Transition { state: searching, writes: seq![], next: NextV::ListAll }
            } else {
                Transition { state: searching, writes: seq![], next: NextV::Search(q) }
            }
        },
        CommandV::Activate(hit_id) => match position(s.generation.hits, hit_id) {
            Some(i) => Transition {
                state: EngineState { phase: Phase::Launching { answer: id }, ..s },
                writes: seq![],
                next: NextV::Launch(i),
            },
            None => Transition {
                state: EngineState { next_id: bump(s.next_id), ..s },
                writes: seq![result_package(s.next_id, id, Err(not_found_text()))],
                next: NextV::Read,
            },
        },
    }
}

/// A package read from the stream; `None` when its kind is not expected.
pub open spec fn step_receive<A>(s: EngineState<A>, p: PackageV) -> Option<Transition<A>> {
    match s.phase {
        Phase::Idle => match p.payload {
            PayloadV::Command(c) => Some(step_command(s, p.id, c)),
            _ => None,
        },
        Phase::Streaming { index, attempt } => match p.payload {
            PayloadV::Result(answered, outcome) => if answered == attempt && outcome is Ok {
                Some(step_deliver(s, (index + 1) as nat))
            } else {
                Some(step_deliver(s, index as nat))
            },
            PayloadV::Command(CommandV::Abort) => Some(step_end(s)),
            _ => None,
        },
        _ => None,
    }
}

/// The engine: the result set it owns, its phase, and the id counter.
pub struct Engine<A> {
    results: ResultSet<A>,
    phase: Phase,
    next_id: PackageId,
    show_on_empty: bool,
}

impl<A> View for Engine<A> {
    type V = EngineState<A>;

    closed spec fn view(&self) -> EngineState<A> {
        EngineState {
            generation: self.results@,
            phase: self.phase,
            next_id: self.next_id,
            show_on_empty: self.show_on_empty,
        }
    }
}

impl<A> Engine<A> {
    pub closed spec fn wf(&self) -> bool {
        &&& self.results.wf()
        &&& state_wf(self@)
    }

    /// An idle engine with an empty result set.
    pub fn new(show_on_empty: bool) -> (r: Engine<A>)
        ensures
            r.wf(),
            r@.phase == Phase::Idle,
            r@.generation.records.len() == 0,
            r@.generation.hits.len() == 0,
            r@.next_id == 0,
            r@.show_on_empty == show_on_empty,
    {
        Engine { results: ResultSet::new(), phase: Phase::Idle, next_id: 0, show_on_empty }
    }

    /// The current phase.
    pub fn phase(&self) -> (r: Phase)
        ensures
            r == self@.phase,
    {
        self.phase
    }

    /// The number of hits of the current generation.
    pub fn hit_count(&self) -> (r: usize)
        requires
            self.wf(),
        ensures
            r == self@.generation.hits.len(),
    {
        self.results.len()
    }

    /// The hit at position `i` of the current generation.
    pub fn hit(&self, i: usize) -> (r: &Hit)
        requires
            i < self@.generation.hits.len(),
        ensures
            r@ == self@.generation.hits[i as int],
    {
        self.results.hit(i)
    }

    /// The application record at position `i` of the current generation.
    pub fn record(&self, i: usize) -> (r: &A)
        requires
            i < self@.generation.records.len(),
        ensures
            *r == self@.generation.records[i as int],
    {
        self.results.record(i)
    }

    fn mint(&mut self) -> (r: PackageId)
        ensures
            r == old(self)@.next_id,
            final(self)@ == (EngineState { next_id: bump(old(self)@.next_id), ..old(self)@ }),
            final(self).results == old(self).results,
    {
        let id = self.next_id;
        self.next_id = if id == u64::MAX { 0 } else { id + 1 };
        id
    }

    fn end_delivery(&mut self) -> (r: Step)
        requires
            old(self).wf(),
        ensures
            final(self).wf(),
            final(self)@ == step_end(old(self)@).state,
            r@.writes == step_end(old(self)@).writes,
            r@.next == step_end(old(self)@).next,
    {
        let id = self.mint();
        self.phase = Phase::Idle;
        let writes = vec![Package::end_marker(id)];
        proof {
            assert(writes@.map_values(|p: Package| p@) =~= step_end(old(self)@).writes);
        }
        Step { writes, next: Next::Read }
    }

    fn deliver(&mut self, index: usize) -> (r: Step)
        requires
            old(self).wf(),
            index <= old(self)@.generation.hits.len(),
        ensures
            final(self).wf(),
            final(self)@ == step_deliver(old(self)@, index as nat).state,
            r@.writes == step_deliver(old(self)@, index as nat).writes,
            r@.next == step_deliver(old(self)@, index as nat).next,
    {
        if index < self.results.len() {
            let hit = self.results.hit(index).duplicate();
            let id = self.mint();
            self.phase = Phase::Streaming { index, attempt: id };
            let writes = vec![Package::new(id, Payload::Hit(hit))];
            proof {
                assert(writes@.map_values(|p: Package| p@) =~= step_deliver(
                    old(self)@,
                    index as nat,
                ).writes);
            }
            Step { writes, next: Next::Read }
        } else {
            self.end_delivery()
        }
    }

    /// Hands over the records that the application directory returned for
    /// the pending query, and the hits derived from them, in the same order.
    pub fn found(&mut self, records: Vec<A>, hits: Vec<Hit>) -> (r: Step)
        requires
            old(self).wf(),
            old(self)@.phase is Searching,
            records.len() == hits.len(),
        ensures
            final(self).wf(),
            ({
                let t = step_found(
                    old(self)@,
                    pending_answer(old(self)@.phase),
                    records@,
                    hits@.map_values(|h: Hit| h@),
                );
                &&& final(self)@ == t.state
                &&& r@.writes == t.writes
                &&& r@.next == t.next
            }),
    {
        let answer = match self.phase {
            Phase::Searching { answer } => answer,
            _ => 0,
        };
        self.replace_and_deliver(answer, records, hits)
    }

    fn replace_and_deliver(&mut self, answer: PackageId, records: Vec<A>, hits: Vec<Hit>) -> (r: Step)
        requires
            old(self).wf(),
            !(old(self)@.phase is Streaming),
            records.len() == hits.len(),
        ensures
            final(self).wf(),
            ({
                let t = step_found(old(self)@, answer, records@, hits@.map_values(|h: Hit| h@));
                &&& final(self)@ == t.state
                &&& r@.writes == t.writes
                &&& r@.next == t.next
            }),
    {
        let ghost s0 = self@;
        let ack_id = self.mint();
        self.results = ResultSet::from_parts(records, hits);
        let ghost s1 = self@;
        let rest = self.deliver(0);
        let mut writes = vec![Package::result(ack_id, answer, Ok(()))];
        let ghost first = writes@.map_values(|p: Package| p@);
        let mut tail = rest.writes;
        writes.append(&mut tail);
        proof {
            let t = step_found(s0, answer, records@, hits@.map_values(|h: Hit| h@));
            assert(s1 == EngineState {
                generation: Generation { records: records@, hits: hits@.map_values(|h: Hit| h@) },
                next_id: bump(s0.next_id),
                ..s0
            });
            assert(writes@.map_values(|p: Package| p@) =~= t.writes);
        }
        Step { writes, next: rest.next }
    }

    /// Hands over the outcome of the launch that the pending activation asked for.
    pub fn launched(&mut self, outcome: Result<(), String>) -> (r: Step)
        requires
            old(self).wf(),
            old(self)@.phase is Launching,
        ensures
            final(self).wf(),
            ({
                let t = step_launched(old(self)@, pending_answer(old(self)@.phase), outcome_view(outcome));
                &&& final(self)@ == t.state
                &&& r@.writes == t.writes
                &&& r@.next == t.next
            }),
    {
        let answer = match self.phase {
            Phase::Launching { answer } => answer,
            _ => 0,
        };
        let id = self.mint();
        self.phase = Phase::Idle;
        let writes = vec![Package::result(id, answer, outcome)];
        proof {
            assert(writes@.map_values(|p: Package| p@) =~= step_launched(
                old(self)@,
                answer,
                outcome_view(outcome),
            ).writes);
        }
        Step { writes, next: Next::Read }
    }

    fn command(&mut self, id: PackageId, c: Command) -> (r: Step)
        requires
            old(self).wf(),
            old(self)@.phase is Idle,
        ensures
            final(self).wf(),
            ({
                let t = step_command(old(self)@, id, c@);
                &&& final(self)@ == t.state
                &&& r@.writes == t.writes
                &&& r@.next == t.next
            }),
    {
        match c {
            Command::Quit => {
                let answer_id = self.mint();
                self.phase = Phase::Stopped;
                let writes = vec![Package::result(answer_id, id, Ok(()))];
                proof {
                    assert(writes@.map_values(|p: Package| p@) =~= step_command(
                        old(self)@,
                        id,
                        c@,
                    ).writes);
                }
                Step { writes, next: Next::Halt }
            },
            Command::Abort => {
                let writes: Vec<Package> = Vec::new();
                proof {
                    assert(writes@.map_values(|p: Package| p@) =~= seq![]);
                }
                Step { writes, next: Next::Read }
            },
            Command::GetData(query) => {
                self.phase = Phase::Searching { answer: id };
                if query.as_str().is_empty() {
                    if self.show_on_empty {
                        let writes: Vec<Package> = Vec::new();
                        proof {
                            assert(writes@.map_values(|p: Package| p@) =~= seq![]);
                        }
                        Step { writes, next: Next::ListAll }
                    } else {
                        let records: Vec<A> = Vec::new();
                        let hits: Vec<Hit> = Vec::new();
                        proof {
                            assert(hits@.map_values(|h: Hit| h@) =~= seq![]);
                        }
                        self.replace_and_deliver(id, records, hits)
                    }
                } else {
                    let writes: Vec<Package> = Vec::new();
                    proof {
                        assert(writes@.map_values(|p: Package| p@) =~= seq![]);
                    }
                    Step { writes, next: Next::Search(query) }
                }
            },
            Command::Activate(hit_id) => {
                match self.results.find(hit_id) {
                    Some(i) => {
                        self.phase = Phase::Launching { answer: id };
                        let writes: Vec<Package> = Vec::new();
                        proof {
                            assert(writes@.map_values(|p: Package| p@) =~= seq![]);
                        }
                        Step { writes, next: Next::Launch(i) }
                    },
                    None => {
                        let answer_id = self.mint();
                        let writes = vec![Package::result(answer_id, id, Err(not_found_message()))];
                        proof {
                            assert(writes@.map_values(|p: Package| p@) =~= step_command(
                                old(self)@,
                                id,
                                c@,
                            ).writes);
                        }
                        Step { writes, next: Next::Read }
                    },
                }
            },
        }
    }

    /// Hands over a package read from the stream while the engine waits for
    /// one. A payload of a kind that the phase does not expect is refused and
    /// leaves the engine as it was.
    pub fn receive(&mut self, p: Package) -> (r: Result<Step, ProtocolError>)
        requires
            old(self).wf(),
            awaits_package(old(self)@.phase),
        ensures
            final(self).wf(),
            match step_receive(old(self)@, p@) {
                Some(t) => {
                    &&& r is Ok
                    &&& final(self)@ == t.state
                    &&& r->Ok_0@.writes == t.writes
                    &&& r->Ok_0@.next == t.next
                },
                None => {
                    &&& r == Err::<Step, ProtocolError>(ProtocolError::UnexpectedPayload { id: p.id })
                    &&& final(self)@ == old(self)@
                },
            },
    {
        let id = p.id;
        match self.phase {
            Phase::Streaming { index, attempt } => match p.payload {
                Payload::Result(answered, outcome) => {
                    if answered == attempt && outcome.is_ok() {
                        Ok(self.deliver(index + 1))
                    } else {
                        Ok(self.deliver(index))
                    }
                },
                Payload::Command(Command::Abort) => Ok(self.end_delivery()),
                _ => Err(ProtocolError::UnexpectedPayload { id }),
            },
            _ => match p.payload {
                Payload::Command(c) => Ok(self.command(id, c)),
                _ => Err(ProtocolError::UnexpectedPayload { id }),
            },
        }
    }
}

} // verus!
