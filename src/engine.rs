use vstd::prelude::*;

use crate::outcome::{ErrorKind, OutcomeView, TransferError, TransferOutcome};

verus! {

/// Where a transfer stands: the phases run in the order they are declared.
#[derive(Clone, Copy, Debug, PartialEq, Eq, Structural)]
pub enum EnginePhase {
    OpeningSource,
    ReadingMetadata,
    OpeningDestination,
    Reading,
    Writing,
    Finished,
}

/// What the I/O side reports back to the engine.
#[derive(Debug)]
pub enum EngineEvent {
    SourceOpened,
    SourceOpenFailed(String),
    SizeKnown(u64),
    MetadataFailed(String),
    DestinationOpened,
    DestinationOpenFailed(String),
    /// The cancellation signal fired; when it is ready together with a
    /// chunk, the I/O side reports this one.
    CancelObserved,
    /// A read completed with these bytes; none at all means end of source.
    ChunkRead(Vec<u8>),
    ReadFailed(String),
    /// The whole chunk handed out last was written.
    ChunkWritten,
    WriteFailed(String),
}

pub enum EventView {
    SourceOpened,
    SourceOpenFailed(Seq<char>),
    SizeKnown(u64),
    MetadataFailed(Seq<char>),
    DestinationOpened,
    DestinationOpenFailed(Seq<char>),
    CancelObserved,
    ChunkRead(Seq<u8>),
    ReadFailed(Seq<char>),
    ChunkWritten,
    WriteFailed(Seq<char>),
}

impl View for EngineEvent {
    type V = EventView;

    open spec fn view(&self) -> EventView {
        match self {
            EngineEvent::SourceOpened => EventView::SourceOpened,
            EngineEvent::SourceOpenFailed(c) => EventView::SourceOpenFailed(c@),
            EngineEvent::SizeKnown(t) => EventView::SizeKnown(*t),
            EngineEvent::MetadataFailed(c) => EventView::MetadataFailed(c@),
            EngineEvent::DestinationOpened => EventView::DestinationOpened,
            EngineEvent::DestinationOpenFailed(c) => EventView::DestinationOpenFailed(c@),
            EngineEvent::CancelObserved => EventView::CancelObserved,
            EngineEvent::ChunkRead(b) => EventView::ChunkRead(b@),
            EngineEvent::ReadFailed(c) => EventView::ReadFailed(c@),
            EngineEvent::ChunkWritten => EventView::ChunkWritten,
            EngineEvent::WriteFailed(c) => EventView::WriteFailed(c@),
        }
    }
}

/// What the engine asks the I/O side to do next.
#[derive(Debug)]
pub enum EngineAction {
    OpenSource,
    QueryMetadata,
    OpenDestination,
    /// Race a read of up to `CHUNK_SIZE` bytes against the cancellation signal.
    ReadChunk,
    /// Write all of these bytes to the destination.
    WriteChunk(Vec<u8>),
    /// Offer this progress sample to the observer (dropping it is allowed),
    /// then race the next read against the cancellation signal.
    ReportAndRead(u64),
    /// The transfer is over; release both files.
    Finish(TransferOutcome),
    /// The event did not belong to the current phase and changed nothing.
    Ignore,
}

pub enum ActionView {
    OpenSource,
    QueryMetadata,
    OpenDestination,
    ReadChunk,
    WriteChunk(Seq<u8>),
    ReportAndRead(u64),
    Finish(OutcomeView),
    Ignore,
}

impl View for EngineAction {
    type V = ActionView;

    open spec fn view(&self) -> ActionView {
        match self {
            EngineAction::OpenSource => ActionView::OpenSource,
            EngineAction::QueryMetadata => ActionView::QueryMetadata,
            EngineAction::OpenDestination => ActionView::OpenDestination,
            EngineAction::ReadChunk => ActionView::ReadChunk,
            EngineAction::WriteChunk(b) => ActionView::WriteChunk(b@),
            EngineAction::ReportAndRead(s) => ActionView::ReportAndRead(*s),
            EngineAction::Finish(o) => ActionView::Finish(o@),
            EngineAction::Ignore => ActionView::Ignore,
        }
    }
}

/// The abstract state of one transfer.
pub struct EngineModel {
    pub phase: EnginePhase,
    /// Size of the source as found when the transfer began.
    pub total: u64,
    /// Every byte received from the source, in order.
    pub received: Seq<u8>,
    /// Every byte whose write to the destination completed, in order.
    pub written: Seq<u8>,
    /// Every progress sample reported, in order.
    pub samples: Seq<u64>,
    /// A read returned no bytes.
    pub reached_end: bool,
    pub outcome: Option<OutcomeView>,
}

pub open spec fn initial_model() -> EngineModel {
    EngineModel {
        phase: EnginePhase::OpeningSource,
        total: 0,
        received: Seq::empty(),
        written: Seq::empty(),
        samples: Seq::empty(),
        reached_end: false,
        outcome: None,
    }
}

/// The progress sample after `copied` bytes: the count, held at the size
/// found at the start should the source have grown since.
pub open spec fn sample_for(copied: int, total: u64) -> u64 {
    if copied < total {
        copied as u64
    } else {
        total
    }
}

/// The cause given when a chunk would carry the byte count past `u64::MAX`.
pub open spec fn overflow_cause() -> Seq<char> {
    "source is larger than the byte counter can hold"@
}

pub open spec fn finished_with(m: EngineModel, o: OutcomeView) -> EngineModel {
    EngineModel { phase: EnginePhase::Finished, outcome: Some(o), ..m }
}

/// The next state on an event. A finished transfer never changes, and an
/// event that does not belong to the phase changes nothing.
pub open spec fn engine_next(m: EngineModel, ev: EventView) -> EngineModel {
    if m.phase == EnginePhase::Finished {
        m
    } else {
        match ev {
            EventView::CancelObserved => finished_with(m, OutcomeView::Cancelled),
            EventView::SourceOpened => if m.phase == EnginePhase::OpeningSource {
                EngineModel { phase: EnginePhase::ReadingMetadata, ..m }
            } else {
                m
            },
            EventView::SourceOpenFailed(c) => if m.phase == EnginePhase::OpeningSource {
                finished_with(m, OutcomeView::Failed(ErrorKind::SourceOpen, c))
            } else {
                m
            },
            EventView::SizeKnown(t) => if m.phase == EnginePhase::ReadingMetadata {
                EngineModel { phase: EnginePhase::OpeningDestination, total: t, ..m }
            } else {
                m
            },
            EventView::MetadataFailed(c) => if m.phase == EnginePhase::ReadingMetadata {
                finished_with(m, OutcomeView::Failed(ErrorKind::Metadata, c))
            } else {
                m
            },
            EventView::DestinationOpened => if m.phase == EnginePhase::OpeningDestination {
                EngineModel { phase: EnginePhase::Reading, ..m }
            } else {
                m
            },
            EventView::DestinationOpenFailed(c) => if m.phase == EnginePhase::OpeningDestination {
                finished_with(m, OutcomeView::Failed(ErrorKind::DestinationOpen, c))
            } else {
                m
            },
            EventView::ChunkRead(b) => if m.phase == EnginePhase::Reading {
                if b.len() == 0 {
                    EngineModel { reached_end: true, ..finished_with(m, OutcomeView::Success) }
                } else if m.written.len() + b.len() > u64::MAX {
                    finished_with(m, OutcomeView::Failed(ErrorKind::Read, overflow_cause()))
                } else {
                    EngineModel { phase: EnginePhase::Writing, received: m.received + b, ..m }
                }
            } else {
                m
            },
            EventView::ReadFailed(c) => if m.phase == EnginePhase::Reading {
                finished_with(m, OutcomeView::Failed(ErrorKind::Read, c))
            } else {
                m
            },
            EventView::ChunkWritten => if m.phase == EnginePhase::Writing {
                EngineModel {
                    phase: EnginePhase::Reading,
                    written: m.received,
                    samples: m.samples.push(sample_for(m.received.len() as int, m.total)),
                    ..m
                }
            } else {
                m
            },
            EventView::WriteFailed(c) => if m.phase == EnginePhase::Writing {
                finished_with(m, OutcomeView::Failed(ErrorKind::Write, c))
            } else {
                m
            },
        }
    }
}

/// The action that follows an event: what the next state asks for.
pub open spec fn engine_action(m: EngineModel, ev: EventView) -> ActionView {
    let n = engine_next(m, ev);
    if n == m {
        ActionView::Ignore
    } else {
        match n.phase {
            EnginePhase::Finished => ActionView::Finish(n.outcome.unwrap()),
            EnginePhase::ReadingMetadata => ActionView::QueryMetadata,
            EnginePhase::OpeningDestination => ActionView::OpenDestination,
            EnginePhase::Writing => ActionView::WriteChunk(n.received.skip(m.written.len() as int)),
            EnginePhase::Reading => if m.phase == EnginePhase::Writing {
                ActionView::ReportAndRead(n.samples.last())
            } else {
                ActionView::ReadChunk
            },
            EnginePhase::OpeningSource => ActionView::OpenSource,
        }
    }
}

/// The state reached from `m` through the events in order.
pub open spec fn engine_run(m: EngineModel, evs: Seq<EventView>) -> EngineModel
    decreases evs.len(),
{
    if evs.len() == 0 {
        m
    } else {
        engine_run(engine_next(m, evs[0]), evs.drop_first())
    }
}

pub open spec fn samples_ordered(samples: Seq<u64>, total: u64) -> bool {
    &&& forall|i: int, j: int|
        0 <= i <= j < samples.len() ==> #[trigger] samples[i] <= #[trigger] samples[j]
    &&& forall|i: int| 0 <= i < samples.len() ==> #[trigger] samples[i] <= total
}

pub open spec fn before_reading(p: EnginePhase) -> bool {
    p == EnginePhase::OpeningSource || p == EnginePhase::ReadingMetadata || p
        == EnginePhase::OpeningDestination
}

impl EngineModel {
    /// What holds in every state that a transfer can reach.
    pub open spec fn inv(self) -> bool {
        &&& (self.phase == EnginePhase::Finished) == self.outcome.is_some()
        &&& before_reading(self.phase) ==> self.received.len() == 0 && self.samples.len() == 0
        &&& self.written.len() <= self.received.len()
        &&& self.received.len() <= u64::MAX
        &&& self.written =~= self.received.take(self.written.len() as int)
        &&& self.phase == EnginePhase::Reading ==> self.written =~= self.received
        &&& self.phase == EnginePhase::Writing ==> self.written.len() < self.received.len()
        &&& self.reached_end == (self.outcome == Some(OutcomeView::Success))
        &&& self.reached_end ==> self.written =~= self.received
        &&& samples_ordered(self.samples, self.total)
        &&& (self.samples.len() > 0) == (self.written.len() > 0)
        &&& self.samples.len() > 0 ==> self.samples.last() == sample_for(
            self.written.len() as int,
            self.total,
        )
    }
}

pub proof fn lemma_next_inv(m: EngineModel, ev: EventView)
    requires
        m.inv(),
    ensures
        engine_next(m, ev).inv(),
        m.samples.is_prefix_of(engine_next(m, ev).samples),
        m.written.is_prefix_of(engine_next(m, ev).written),
{
    let n = engine_next(m, ev);
    if m.phase == EnginePhase::Writing && ev == EventView::ChunkWritten {
        let s = sample_for(m.received.len() as int, m.total);
        if m.written.len() > 0 {
            assert(m.samples.last() <= s);
        }
        assert forall|i: int, j: int| 0 <= i <= j < n.samples.len() implies
            #[trigger] n.samples[i] <= #[trigger] n.samples[j] by {
            if j == n.samples.len() - 1 && i < j {
                assert(n.samples[i] == m.samples[i]);
                assert(m.samples[i] <= m.samples[m.samples.len() - 1]);
            } else if j < n.samples.len() - 1 {
                assert(n.samples[i] == m.samples[i]);
                assert(n.samples[j] == m.samples[j]);
            }
        }
        assert(n.written =~= n.received.take(n.written.len() as int));
    }
    if let EventView::ChunkRead(b) = ev {
        if m.phase == EnginePhase::Reading && b.len() > 0 && m.written.len() + b.len() <= u64::MAX {
            assert(n.written =~= n.received.take(n.written.len() as int));
        }
    }
}


proof fn lemma_run_append(m: EngineModel, a: Seq<EventView>, b: Seq<EventView>)
    ensures
        engine_run(m, a + b) == engine_run(engine_run(m, a), b),
    decreases a.len(),
{
    if a.len() > 0 {
        assert((a + b).drop_first() =~= a.drop_first() + b);
        lemma_run_append(engine_next(m, a[0]), a.drop_first(), b);
    } else {
        assert(a + b =~= b);
    }
}

proof fn lemma_run_push(m: EngineModel, evs: Seq<EventView>, ev: EventView)
    ensures
        engine_run(m, evs.push(ev)) == engine_next(engine_run(m, evs), ev),
{
    let one = seq![ev];
    lemma_run_append(m, evs, one);
    assert(evs + one =~= evs.push(ev));
    assert(one.drop_first() =~= Seq::<EventView>::empty());
    assert(engine_run(engine_next(engine_run(m, evs), one[0]), one.drop_first()) == engine_next(
        engine_run(m, evs),
        ev,
    ));
}

/// Every state reached through any events keeps the invariant, and samples
/// and written bytes are only ever appended to.
pub proof fn lemma_run_inv(m: EngineModel, evs: Seq<EventView>)
    requires
        m.inv(),
    ensures
        engine_run(m, evs).inv(),
        m.samples.is_prefix_of(engine_run(m, evs).samples),
        m.written.is_prefix_of(engine_run(m, evs).written),
    decreases evs.len(),
{
    if evs.len() > 0 {
        lemma_next_inv(m, evs[0]);
        lemma_run_inv(engine_next(m, evs[0]), evs.drop_first());
    }
}

/// Once a transfer has finished, no event changes it: nothing more is
/// written, no sample follows, and the outcome stays as it was.
pub proof fn lemma_finished_is_final(m: EngineModel, evs: Seq<EventView>)
    requires
        m.phase == EnginePhase::Finished,
    ensures
        engine_run(m, evs) == m,
    decreases evs.len(),
{
    if evs.len() > 0 {
        lemma_finished_is_final(engine_next(m, evs[0]), evs.drop_first());
    }
}

/// Over any transfer, the progress samples never decrease and never exceed
/// the size found at the start.
pub proof fn lemma_progress_ordered(evs: Seq<EventView>)
    ensures
        samples_ordered(engine_run(initial_model(), evs).samples, engine_run(initial_model(), evs).total),
{
    lemma_run_inv(initial_model(), evs);
}

/// A transfer that ends in success has written exactly the bytes it read, in
/// order, up to the end of the source; when those are as many as the size
/// found at the start, the last sample reports that size in full.
pub proof fn lemma_success_copies_every_byte(evs: Seq<EventView>)
    ensures
        ({
            let r = engine_run(initial_model(), evs);
            r.outcome == Some(OutcomeView::Success) ==> {
                &&& r.written == r.received
                &&& r.reached_end
                &&& r.received.len() == r.total && r.total > 0 ==> r.samples.last() == r.total
            }
        }),
{
    lemma_run_inv(initial_model(), evs);
}

/// A cancellation observed before any chunk was read ends the transfer as
/// cancelled with nothing written, whatever events come after it.
pub proof fn lemma_cancel_before_first_chunk(before: Seq<EventView>, after: Seq<EventView>)
    requires
        engine_run(initial_model(), before).phase != EnginePhase::Finished,
        engine_run(initial_model(), before).received.len() == 0,
    ensures
        ({
            let r = engine_run(initial_model(), before + seq![EventView::CancelObserved] + after);
            r.outcome == Some(OutcomeView::Cancelled) && r.written.len() == 0
        }),
{
    let m = engine_run(initial_model(), before);
    lemma_run_inv(initial_model(), before);
    lemma_run_append(initial_model(), before, seq![EventView::CancelObserved]);
    lemma_run_append(initial_model(), before + seq![EventView::CancelObserved], after);
    let one = seq![EventView::CancelObserved];
    assert(one.len() == 1 && one[0] == EventView::CancelObserved);
    assert(one.drop_first() =~= Seq::<EventView>::empty());
    assert(engine_run(engine_next(m, one[0]), one.drop_first()) == engine_next(m, one[0]));
    let c = engine_run(m, one);
    lemma_finished_is_final(c, after);
}

/// The engine asks to finish exactly on the step that ends the transfer, and
/// a finished engine answers every event with `Ignore`: one outcome per
/// transfer, handed out once.
pub proof fn lemma_outcome_once(m: EngineModel, ev: EventView)
    requires
        m.inv(),
    ensures
        (engine_action(m, ev) is Finish) == (m.phase != EnginePhase::Finished
            && engine_next(m, ev).phase == EnginePhase::Finished),
        engine_action(m, ev) is Finish ==> engine_action(m, ev) == ActionView::Finish(
            engine_next(m, ev).outcome.unwrap(),
        ),
        m.phase == EnginePhase::Finished ==> engine_action(m, ev) == ActionView::Ignore,
{
}

/// Once cancellation is observed, the outcome is `Cancelled`, never
/// `Success`, and no further bytes reach the destination.
pub proof fn lemma_no_writes_after_cancel(m: EngineModel, after: Seq<EventView>)
    requires
        m.phase != EnginePhase::Finished,
    ensures
        engine_run(engine_next(m, EventView::CancelObserved), after).outcome == Some(OutcomeView::Cancelled),
        engine_run(engine_next(m, EventView::CancelObserved), after).written == m.written,
{
    lemma_finished_is_final(engine_next(m, EventView::CancelObserved), after);
}

/// The copy engine: it decides, on each event reported by whoever performs
/// the I/O, what to do next, and keeps the count of bytes written.
pub struct CopyEngine {
    phase: EnginePhase,
    total: u64,
    copied: u64,
    pending: u64,
    received: Ghost<Seq<u8>>,
    written: Ghost<Seq<u8>>,
    samples: Ghost<Seq<u64>>,
    reached_end: Ghost<bool>,
    outcome: Ghost<Option<OutcomeView>>,
    history: Ghost<Seq<EventView>>,
}

impl View for CopyEngine {
    type V = EngineModel;

    closed spec fn view(&self) -> EngineModel {
        EngineModel {
            phase: self.phase,
            total: self.total,
            received: self.received@,
            written: self.written@,
            samples: self.samples@,
            reached_end: self.reached_end@,
            outcome: self.outcome@,
        }
    }
}

/// A live engine is in the state its events lead to from the start, and
/// that state keeps the invariant.
pub proof fn lemma_live_engine_inv(e: &CopyEngine)
    requires
        e.wf(),
    ensures
        e@.inv(),
        e@ == engine_run(initial_model(), e.history()),
{
}

/// On a live engine, the progress samples reported so far never decrease
/// and never exceed the size found at the start.
pub proof fn lemma_live_progress_ordered(e: &CopyEngine)
    requires
        e.wf(),
    ensures
        samples_ordered(e@.samples, e@.total),
{
    lemma_progress_ordered(e.history());
}

/// A live engine that finished in success has written exactly the bytes it
/// read, in order, up to the end of the source; when those are as many as
/// the size found at the start, its last sample reports that size in full.
pub proof fn lemma_live_success_copies_every_byte(e: &CopyEngine)
    requires
        e.wf(),
        e@.outcome == Some(OutcomeView::Success),
    ensures
        e@.written == e@.received,
        e@.reached_end,
        e@.received.len() == e@.total && e@.total > 0 ==> e@.samples.last() == e@.total,
{
    lemma_success_copies_every_byte(e.history());
}

impl CopyEngine {
    /// The events taken so far, in order.
    pub closed spec fn history(&self) -> Seq<EventView> {
        self.history@
    }

    /// A live engine: its state is the one its events lead to from the start.
    pub closed spec fn wf(&self) -> bool {
        &&& self.wf_state()
        &&& self@ == engine_run(initial_model(), self.history@)
    }

    closed spec fn wf_state(&self) -> bool {
        &&& self@.inv()
        &&& self.copied == self.written@.len()
        &&& self.phase == EnginePhase::Writing ==> self.copied + self.pending
            == self.received@.len()
    }

    /// A transfer that has not begun; its first action is `OpenSource`.
    pub fn new() -> (r: CopyEngine)
        ensures
            r.wf(),
            r@ == initial_model(),
            r.history() == Seq::<EventView>::empty(),
    {
        CopyEngine {
            phase: EnginePhase::OpeningSource,
            total: 0,
            copied: 0,
            pending: 0,
            received: Ghost(Seq::empty()),
            written: Ghost(Seq::empty()),
            samples: Ghost(Seq::empty()),
            reached_end: Ghost(false),
            outcome: Ghost(None),
            history: Ghost(Seq::empty()),
        }
    }

    pub fn phase(&self) -> (r: EnginePhase)
        ensures
            r == self@.phase,
    {
        self.phase
    }

    pub fn total(&self) -> (r: u64)
        ensures
            r == self@.total,
    {
        self.total
    }

    /// Bytes written to the destination so far.
    pub fn copied(&self) -> (r: u64)
        requires
            self.wf(),
        ensures
            r == self@.written.len(),
    {
        self.copied
    }

    fn finish(&mut self, outcome: TransferOutcome) -> (r: EngineAction)
        requires
            old(self).wf_state(),
            old(self).phase != EnginePhase::Finished,
            outcome@ != OutcomeView::Success,
        ensures
            final(self).wf_state(),
            final(self).history == old(self).history,
            final(self)@ == finished_with(old(self)@, outcome@),
            r@ == ActionView::Finish(outcome@),
    {
        proof {
            // Finishing with any outcome but success keeps the invariant just
            // as a cancellation does.
            lemma_next_inv(self@, EventView::CancelObserved);
        }
        self.phase = EnginePhase::Finished;
        self.outcome = Ghost(Some(outcome@));
        EngineAction::Finish(outcome)
    }

    fn fail(&mut self, kind: ErrorKind, cause: String) -> (r: EngineAction)
        requires
            old(self).wf_state(),
            old(self).phase != EnginePhase::Finished,
        ensures
            final(self).wf_state(),
            final(self).history == old(self).history,
            final(self)@ == finished_with(old(self)@, OutcomeView::Failed(kind, cause@)),
            r@ == ActionView::Finish(OutcomeView::Failed(kind, cause@)),
    {
        self.finish(TransferOutcome::Failed(TransferError::new(kind, cause)))
    }

    /// Takes one event and returns the action that follows it.
    pub fn step(&mut self, event: EngineEvent) -> (r: EngineAction)
        requires
            old(self).wf(),
        ensures
            final(self).wf(),
            final(self)@ == engine_next(old(self)@, event@),
            r@ == engine_action(old(self)@, event@),
            final(self).history() == old(self).history().push(event@),
    {
        proof {
            lemma_next_inv(self@, event@);
            lemma_run_push(initial_model(), self.history@, event@);
        }
        self.history = Ghost(self.history@.push(event@));
        if self.phase == EnginePhase::Finished {
            return EngineAction::Ignore;
        }
        match event {
            EngineEvent::CancelObserved => self.finish(TransferOutcome::Cancelled),
            EngineEvent::SourceOpened => {
                if self.phase != EnginePhase::OpeningSource {
                    return EngineAction::Ignore;
                }
                self.phase = EnginePhase::ReadingMetadata;
                EngineAction::QueryMetadata
            },
            EngineEvent::SourceOpenFailed(c) => {
                if self.phase != EnginePhase::OpeningSource {
                    return EngineAction::Ignore;
                }
                self.fail(ErrorKind::SourceOpen, c)
            },
            EngineEvent::SizeKnown(t) => {
                if self.phase != EnginePhase::ReadingMetadata {
                    return EngineAction::Ignore;
                }
                self.phase = EnginePhase::OpeningDestination;
                self.total = t;
                EngineAction::OpenDestination
            },
            EngineEvent::MetadataFailed(c) => {
                if self.phase != EnginePhase::ReadingMetadata {
                    return EngineAction::Ignore;
                }
                self.fail(ErrorKind::Metadata, c)
            },
            EngineEvent::DestinationOpened => {
                if self.phase != EnginePhase::OpeningDestination {
                    return EngineAction::Ignore;
                }
                self.phase = EnginePhase::Reading;
                EngineAction::ReadChunk
            },
            EngineEvent::DestinationOpenFailed(c) => {
                if self.phase != EnginePhase::OpeningDestination {
                    return EngineAction::Ignore;
                }
                self.fail(ErrorKind::DestinationOpen, c)
            },
            EngineEvent::ChunkRead(bytes) => {
                if self.phase != EnginePhase::Reading {
                    return EngineAction::Ignore;
                }
                if bytes.len() == 0 {
                    self.phase = EnginePhase::Finished;
                    self.reached_end = Ghost(true);
                    self.outcome = Ghost(Some(OutcomeView::Success));
                    return EngineAction::Finish(TransferOutcome::Success);
                }
                let room: u64 = u64::MAX - self.copied;
                if bytes.len() as u128 > room as u128 {
                    let cause = "source is larger than the byte counter can hold".to_owned();
                    return self.fail(ErrorKind::Read, cause);
                }
                self.phase = EnginePhase::Writing;
                self.pending = bytes.len() as u64;
                self.received = Ghost(self.received@ + bytes@);
                proof {
                    assert(self.received@.skip(self.written@.len() as int) =~= bytes@);
                }
                EngineAction::WriteChunk(bytes)
            },
            EngineEvent::ReadFailed(c) => {
                if self.phase != EnginePhase::Reading {
                    return EngineAction::Ignore;
                }
                self.fail(ErrorKind::Read, c)
            },
            EngineEvent::ChunkWritten => {
                if self.phase != EnginePhase::Writing {
                    return EngineAction::Ignore;
                }
                self.copied = self.copied + self.pending;
                self.pending = 0;
                let sample: u64 = if self.copied < self.total {
                    self.copied
                } else {
                    self.total
                };
                self.phase = EnginePhase::Reading;
                self.written = Ghost(self.received@);
                self.samples = Ghost(self.samples@.push(sample));
                EngineAction::ReportAndRead(sample)
            },
            EngineEvent::WriteFailed(c) => {
                if self.phase != EnginePhase::Writing {
                    return EngineAction::Ignore;
                }
                self.fail(ErrorKind::Write, c)
            },
        }
    }
}

} // verus!
