//! The handshake reader: the order in which the shared-memory object is
//! opened, mapped, measured, read and released.
//!
//! The reader touches no memory itself. It names the next action, the
//! driver performs it and reports what happened, and the reader decides
//! what follows. A read is asked for only after the region's size, as the
//! operating system reported it, has passed the bound; whatever was acquired
//! is released again, the view before the handle, before the reader
//! finishes.

use crate::error::MonitorError;
use crate::payload::{decode_payload, payload_text};
use vstd::prelude::*;

verus! {

/// Where the reader stands. Each phase but the first and the last waits for
/// the outcome of one action.
#[derive(Clone, Copy, Debug, PartialEq, Eq, Structural)]
pub enum ReaderPhase {
    /// Nothing has been asked for yet.
    Idle,
    /// Waiting for the object to be opened.
    Opening,
    /// The handle is held; waiting for the view to be mapped.
    Mapping,
    /// Handle and view are held; waiting for the region's size.
    Querying,
    /// Handle and view are held, the size is accepted; waiting for the bytes.
    Reading,
    /// The outcome is settled; waiting for the view to be released.
    ReleasingView,
    /// The outcome is settled; waiting for the handle to be released.
    ReleasingHandle,
    /// Nothing is held any more.
    Finished,
}

/// What the reader asks its driver to do next.
#[derive(Clone, Copy, Debug, PartialEq, Eq, Structural)]
pub enum ReaderAction {
    /// Open the named object for reading.
    OpenMapping,
    /// Map a read-only view of the whole object.
    MapView,
    /// Ask the operating system for the size of the mapped region.
    QuerySize,
    /// Read `len` bytes from the start of the view.
    ReadBytes { len: usize },
    /// Unmap the view.
    ReleaseView,
    /// Close the handle.
    ReleaseHandle,
    /// Nothing is left to do: take the outcome.
    Finish,
}

/// What the driver reports back.
pub enum ReaderEvent {
    /// The read is to begin.
    Start,
    /// The object was opened and its handle is held.
    Opened,
    /// The object could not be opened; no handle is held.
    OpenFailed,
    /// The view was mapped and is held.
    Mapped,
    /// No view could be mapped; none is held.
    MapFailed,
    /// The operating system reported the region's size.
    Queried { region_size: usize },
    /// The query itself failed.
    QueryFailed,
    /// The bytes that were read from the view.
    Contents(Vec<u8>),
    /// The release that was asked for has been attempted.
    Released,
}

/// The reader as contracts see it.
pub struct ReaderModel {
    pub max_region_size: usize,
    pub expected_contents_size: usize,
    pub phase: ReaderPhase,
    pub outcome: Option<Result<Seq<char>, MonitorError>>,
}

/// Whether the handle is held in `phase`.
pub open spec fn holds_handle(phase: ReaderPhase) -> bool {
    phase is Mapping || phase is Querying || phase is Reading || phase is ReleasingView
        || phase is ReleasingHandle
}

/// Whether the view is held in `phase`.
pub open spec fn holds_view(phase: ReaderPhase) -> bool {
    phase is Querying || phase is Reading || phase is ReleasingView
}

/// Whether the outcome of the read is settled in `phase`.
pub open spec fn settled(phase: ReaderPhase) -> bool {
    phase is ReleasingView || phase is ReleasingHandle || phase is Finished
}

/// Whether a region of `reported_size` bytes may be read from.
pub open spec fn size_accepted(reported_size: usize, max_region_size: usize) -> bool {
    1 <= reported_size <= max_region_size
}

/// What the bytes that were read amount to: the payload's text where they
/// have the length that was asked for and are a payload.
pub open spec fn contents_outcome(expected_contents_size: usize, bytes: Seq<u8>) -> Result<
    Seq<char>,
    MonitorError,
> {
    if bytes.len() == expected_contents_size + 1 && payload_text(bytes) is Some {
        Ok(payload_text(bytes)->Some_0)
    } else {
        Err(MonitorError::HandshakeDecodeError)
    }
}

impl ReaderModel {
    /// What holds of every reader: the length to read fits, and the outcome
    /// is there exactly once the releases have begun.
    pub open spec fn wf(self) -> bool {
        &&& self.expected_contents_size < usize::MAX
        &&& self.outcome is Some <==> settled(self.phase)
    }

    /// The same reader in another phase.
    pub open spec fn at(self, phase: ReaderPhase) -> ReaderModel {
        ReaderModel { phase, ..self }
    }

    /// The same reader in another phase, with its outcome settled.
    pub open spec fn ended(
        self,
        phase: ReaderPhase,
        outcome: Result<Seq<char>, MonitorError>,
    ) -> ReaderModel {
        ReaderModel { phase, outcome: Some(outcome), ..self }
    }
}

/// The reader's rule: the state and the action that follow when `event`
/// arrives in state `m`, or `None` where `event` answers nothing that the
/// reader has asked for.
pub open spec fn next(m: ReaderModel, event: ReaderEvent) -> Option<(ReaderModel, ReaderAction)> {
    match (m.phase, event) {
        (ReaderPhase::Idle, ReaderEvent::Start) => Some(
            (m.at(ReaderPhase::Opening), ReaderAction::OpenMapping),
        ),
        (ReaderPhase::Opening, ReaderEvent::Opened) => Some(
            (m.at(ReaderPhase::Mapping), ReaderAction::MapView),
        ),
        (ReaderPhase::Opening, ReaderEvent::OpenFailed) => Some(
            (
                m.ended(ReaderPhase::Finished, Err(MonitorError::HandshakeOpenError)),
                ReaderAction::Finish,
            ),
        ),
        (ReaderPhase::Mapping, ReaderEvent::Mapped) => Some(
            (m.at(ReaderPhase::Querying), ReaderAction::QuerySize),
        ),
        (ReaderPhase::Mapping, ReaderEvent::MapFailed) => Some(
            (
                m.ended(ReaderPhase::ReleasingHandle, Err(MonitorError::HandshakeMapError)),
                ReaderAction::ReleaseHandle,
            ),
        ),
        (ReaderPhase::Querying, ReaderEvent::Queried { region_size }) => if size_accepted(
            region_size,
            m.max_region_size,
        ) {
            Some(
                (
                    m.at(ReaderPhase::Reading),
                    ReaderAction::ReadBytes { len: (m.expected_contents_size + 1) as usize },
                ),
            )
        } else {
            Some(
                (
                    m.ended(
                        ReaderPhase::ReleasingView,
                        Err(
                            MonitorError::HandshakeSizeError {
                                reported_size: region_size,
                                max_region_size: m.max_region_size,
                            },
                        ),
                    ),
                    ReaderAction::ReleaseView,
                ),
            )
        },
        (ReaderPhase::Querying, ReaderEvent::QueryFailed) => Some(
            (
                m.ended(ReaderPhase::ReleasingView, Err(MonitorError::HandshakeQueryError)),
                ReaderAction::ReleaseView,
            ),
        ),
        (ReaderPhase::Reading, ReaderEvent::Contents(bytes)) => Some(
            (
                m.ended(
                    ReaderPhase::ReleasingView,
                    contents_outcome(m.expected_contents_size, bytes@),
                ),
                ReaderAction::ReleaseView,
            ),
        ),
        (ReaderPhase::ReleasingView, ReaderEvent::Released) => Some(
            (m.at(ReaderPhase::ReleasingHandle), ReaderAction::ReleaseHandle),
        ),
        (ReaderPhase::ReleasingHandle, ReaderEvent::Released) => Some(
            (m.at(ReaderPhase::Finished), ReaderAction::Finish),
        ),
        _ => None,
    }
}

/// Checks the size that the operating system reported for the mapped region
/// against the bound. Fails with `HandshakeSizeError` exactly where the size
/// is zero or above the bound.
pub fn validate_region_size(reported_size: usize, max_region_size: usize) -> (r: Result<
    (),
    MonitorError,
>)
    ensures
        r is Ok <==> size_accepted(reported_size, max_region_size),
        r is Err ==> r->Err_0 == (MonitorError::HandshakeSizeError {
            reported_size,
            max_region_size,
        }),
{
    if 1 <= reported_size && reported_size <= max_region_size {
        Ok(())
    } else {
        Err(MonitorError::HandshakeSizeError { reported_size, max_region_size })
    }
}

/// One read of the handshake, from the first action to the outcome.
pub struct HandshakeReader {
    max_region_size: usize,
    expected_contents_size: usize,
    phase: ReaderPhase,
    outcome: Option<Result<String, MonitorError>>,
}

impl View for HandshakeReader {
    type V = ReaderModel;

    closed spec fn view(&self) -> ReaderModel {
        ReaderModel {
            max_region_size: self.max_region_size,
            expected_contents_size: self.expected_contents_size,
            phase: self.phase,
            outcome: match self.outcome {
                None => None,
                Some(Ok(text)) => Some(Ok(text@)),
                Some(Err(e)) => Some(Err(e)),
            },
        }
    }
}

impl HandshakeReader {
    #[verifier::type_invariant]
    spec fn inv(self) -> bool {
        self@.wf()
    }

    /// A reader that has asked for nothing yet. It will accept a region of
    /// 1 to `max_region_size` bytes and read `expected_contents_size + 1`
    /// bytes from it.
    pub fn new(max_region_size: usize, expected_contents_size: usize) -> (r: HandshakeReader)
        requires
            expected_contents_size < usize::MAX,
        ensures
            r@ == (ReaderModel {
                max_region_size,
                expected_contents_size,
                phase: ReaderPhase::Idle,
                outcome: None,
            }),
            r@.wf(),
    {
        HandshakeReader {
            max_region_size,
            expected_contents_size,
            phase: ReaderPhase::Idle,
            outcome: None,
        }
    }

    fn moved(self, phase: ReaderPhase) -> (r: HandshakeReader)
        requires
            settled(phase) == settled(self@.phase),
        ensures
            r@ == self@.at(phase),
    {
        proof {
            use_type_invariant(&self);
        }
        HandshakeReader {
            max_region_size: self.max_region_size,
            expected_contents_size: self.expected_contents_size,
            phase,
            outcome: self.outcome,
        }
    }

    fn settle(self, phase: ReaderPhase, outcome: Result<String, MonitorError>) -> (r:
        HandshakeReader)
        requires
            settled(phase),
        ensures
            r@ == self@.ended(
                phase,
                match outcome {
                    Ok(text) => Ok(text@),
                    Err(e) => Err(e),
                },
            ),
    {
        proof {
            use_type_invariant(&self);
        }
        HandshakeReader {
            max_region_size: self.max_region_size,
            expected_contents_size: self.expected_contents_size,
            phase,
            outcome: Some(outcome),
        }
    }

    /// Where the reader stands.
    pub fn phase(&self) -> (r: ReaderPhase)
        ensures
            r == self@.phase,
    {
        self.phase
    }

    /// Takes the driver's report and names the next action. A report that
    /// answers nothing the reader has asked for changes nothing and yields
    /// no action.
    pub fn step(self, event: ReaderEvent) -> (r: (HandshakeReader, Option<ReaderAction>))
        ensures
            r.0@.wf(),
            match next(self@, event) {
                Some((m, action)) => r.0@ == m && r.1 == Some(action),
                None => r.0@ == self@ && r.1 is None,
            },
    {
        proof {
            use_type_invariant(&self);
        }
        match (self.phase, event) {
            (ReaderPhase::Idle, ReaderEvent::Start) => (
                self.moved(ReaderPhase::Opening),
                Some(ReaderAction::OpenMapping),
            ),
            (ReaderPhase::Opening, ReaderEvent::Opened) => (
                self.moved(ReaderPhase::Mapping),
                Some(ReaderAction::MapView),
            ),
            (ReaderPhase::Opening, ReaderEvent::OpenFailed) => (
                self.settle(ReaderPhase::Finished, Err(MonitorError::HandshakeOpenError)),
                Some(ReaderAction::Finish),
            ),
            (ReaderPhase::Mapping, ReaderEvent::Mapped) => (
                self.moved(ReaderPhase::Querying),
                Some(ReaderAction::QuerySize),
            ),
            (ReaderPhase::Mapping, ReaderEvent::MapFailed) => (
                self.settle(ReaderPhase::ReleasingHandle, Err(MonitorError::HandshakeMapError)),
                Some(ReaderAction::ReleaseHandle),
            ),
            (ReaderPhase::Querying, ReaderEvent::Queried { region_size }) => {
                match validate_region_size(region_size, self.max_region_size) {
                    Ok(()) => {
                        let len: usize = self.expected_contents_size + 1;
                        (self.moved(ReaderPhase::Reading), Some(ReaderAction::ReadBytes { len }))
                    },
                    Err(e) => (
                        self.settle(ReaderPhase::ReleasingView, Err(e)),
                        Some(ReaderAction::ReleaseView),
                    ),
                }
            },
            (ReaderPhase::Querying, ReaderEvent::QueryFailed) => (
                self.settle(ReaderPhase::ReleasingView, Err(MonitorError::HandshakeQueryError)),
                Some(ReaderAction::ReleaseView),
            ),
            (ReaderPhase::Reading, ReaderEvent::Contents(bytes)) => {
                let outcome = if bytes.len() == self.expected_contents_size + 1 {
                    decode_payload(bytes.as_slice())
                } else {
                    Err(MonitorError::HandshakeDecodeError)
                };
                (self.settle(ReaderPhase::ReleasingView, outcome), Some(ReaderAction::ReleaseView))
            },
            (ReaderPhase::ReleasingView, ReaderEvent::Released) => (
                self.moved(ReaderPhase::ReleasingHandle),
                Some(ReaderAction::ReleaseHandle),
            ),
            (ReaderPhase::ReleasingHandle, ReaderEvent::Released) => (
                self.moved(ReaderPhase::Finished),
                Some(ReaderAction::Finish),
            ),
            _ => (self, None),
        }
    }

    /// The outcome of the read, once the reader has finished: the payload's
    /// text or the failure. `None` while anything is still to be done.
    pub fn into_outcome(self) -> (r: Option<Result<String, MonitorError>>)
        ensures
            match r {
                Some(Ok(text)) => self@.phase is Finished && self@.outcome == Some(
                    Ok::<Seq<char>, MonitorError>(text@),
                ),
                Some(Err(e)) => self@.phase is Finished && self@.outcome == Some(
                    Err::<Seq<char>, MonitorError>(e),
                ),
                None => !(self@.phase is Finished),
            },
    {
        proof {
            use_type_invariant(&self);
        }
        match self.phase {
            ReaderPhase::Finished => self.outcome,
            _ => None,
        }
    }
}

/// The state that is reached when `events` arrive one after another, and
/// the actions that are asked for on the way.
pub open spec fn run(m: ReaderModel, events: Seq<ReaderEvent>) -> (ReaderModel, Seq<ReaderAction>)
    decreases events.len(),
{
    if events.len() == 0 {
        (m, Seq::empty())
    } else {
        match next(m, events[0]) {
            Some((after, action)) => {
                let rest = run(after, events.drop_first());
                (rest.0, seq![action] + rest.1)
            },
            None => run(m, events.drop_first()),
        }
    }
}

/// Whether `trace` is one of the ways in which a reader that stands in
/// `phase` can come to its end, `len` being the length that it reads.
pub open spec fn completes(phase: ReaderPhase, len: usize, trace: Seq<ReaderAction>) -> bool {
    let read = ReaderAction::ReadBytes { len };
    let unmap = ReaderAction::ReleaseView;
    let close = ReaderAction::ReleaseHandle;
    let finish = ReaderAction::Finish;
    match phase {
        ReaderPhase::Finished => trace =~= seq![],
        ReaderPhase::ReleasingHandle => trace =~= seq![finish],
        ReaderPhase::ReleasingView => trace =~= seq![close, finish],
        ReaderPhase::Reading => trace =~= seq![unmap, close, finish],
        ReaderPhase::Querying => {
            ||| trace =~= seq![read, unmap, close, finish]
            ||| trace =~= seq![unmap, close, finish]
        },
        ReaderPhase::Mapping => {
            ||| trace =~= seq![ReaderAction::QuerySize, read, unmap, close, finish]
            ||| trace =~= seq![ReaderAction::QuerySize, unmap, close, finish]
            ||| trace =~= seq![close, finish]
        },
        ReaderPhase::Opening => {
            ||| trace =~= seq![
                ReaderAction::MapView,
                ReaderAction::QuerySize,
                read,
                unmap,
                close,
                finish,
            ]
            ||| trace =~= seq![ReaderAction::MapView, ReaderAction::QuerySize, unmap, close, finish]
            ||| trace =~= seq![ReaderAction::MapView, close, finish]
            ||| trace =~= seq![finish]
        },
        ReaderPhase::Idle => {
            ||| trace =~= seq![
                ReaderAction::OpenMapping,
                ReaderAction::MapView,
                ReaderAction::QuerySize,
                read,
                unmap,
                close,
                finish,
            ]
            ||| trace =~= seq![
                ReaderAction::OpenMapping,
                ReaderAction::MapView,
                ReaderAction::QuerySize,
                unmap,
                close,
                finish,
            ]
            ||| trace =~= seq![ReaderAction::OpenMapping, ReaderAction::MapView, close, finish]
            ||| trace =~= seq![ReaderAction::OpenMapping, finish]
        },
    }
}

/// Every step keeps the reader well formed.
pub proof fn lemma_next_wf(m: ReaderModel, event: ReaderEvent)
    requires
        m.wf(),
    ensures
        next(m, event) is Some ==> next(m, event)->Some_0.0.wf(),
{
}

/// What each step does to the two resources. The handle comes with the
/// report that the object was opened and the view with the report that it
/// was mapped, and each goes with the report of its release. The object is
/// opened only while no handle is held, the view is mapped only under the
/// handle, and the view is held only together with the handle. The view's
/// release, the handle's release and the end are what is asked for on entry
/// to the phase of that name, and a read only for a region of accepted
/// size.
pub proof fn lemma_step_discipline(m: ReaderModel, event: ReaderEvent)
    requires
        m.wf(),
        next(m, event) is Some,
    ensures
        ({
            let after = next(m, event)->Some_0.0;
            let action = next(m, event)->Some_0.1;
            &&& holds_view(after.phase) ==> holds_handle(after.phase)
            &&& (holds_handle(after.phase) && !holds_handle(m.phase)) <==> (m.phase is Opening
                && event is Opened)
            &&& (holds_view(after.phase) && !holds_view(m.phase)) <==> (m.phase is Mapping
                && event is Mapped)
            &&& (holds_view(m.phase) && !holds_view(after.phase)) <==> (m.phase is ReleasingView
                && event is Released)
            &&& (holds_handle(m.phase) && !holds_handle(after.phase)) <==> (m.phase
                is ReleasingHandle && event is Released)
            &&& action is OpenMapping ==> !holds_handle(after.phase)
            &&& action is MapView ==> holds_handle(after.phase) && !holds_view(after.phase)
            &&& action is ReleaseView <==> after.phase is ReleasingView
            &&& action is ReleaseHandle <==> after.phase is ReleasingHandle
            &&& action is Finish <==> after.phase is Finished
            &&& action is ReadBytes ==> m.phase is Querying && event is Queried && size_accepted(
                event->region_size,
                m.max_region_size,
            ) && action->len == m.expected_contents_size + 1
        }),
{
}

/// Whether `event` reports the outcome of what the reader has asked for in
/// `phase`.
pub open spec fn answers(phase: ReaderPhase, event: ReaderEvent) -> bool {
    match phase {
        ReaderPhase::Idle => event is Start,
        ReaderPhase::Opening => event is Opened || event is OpenFailed,
        ReaderPhase::Mapping => event is Mapped || event is MapFailed,
        ReaderPhase::Querying => event is Queried || event is QueryFailed,
        ReaderPhase::Reading => event is Contents,
        ReaderPhase::ReleasingView => event is Released,
        ReaderPhase::ReleasingHandle => event is Released,
        ReaderPhase::Finished => false,
    }
}

/// How many actions a reader in `phase` can still ask for at most.
pub open spec fn steps_left(phase: ReaderPhase) -> nat {
    match phase {
        ReaderPhase::Idle => 7,
        ReaderPhase::Opening => 6,
        ReaderPhase::Mapping => 5,
        ReaderPhase::Querying => 4,
        ReaderPhase::Reading => 3,
        ReaderPhase::ReleasingView => 2,
        ReaderPhase::ReleasingHandle => 1,
        ReaderPhase::Finished => 0,
    }
}

/// The reader takes exactly the reports that answer what it has asked for,
/// and each of them brings it nearer to its end: a driver that answers
/// every action reaches the end, with everything released, after seven
/// actions at most.
pub proof fn lemma_every_answer_leads_on(m: ReaderModel, event: ReaderEvent)
    requires
        m.wf(),
    ensures
        next(m, event) is Some <==> answers(m.phase, event),
        next(m, event) is Some ==> steps_left(next(m, event)->Some_0.0.phase) < steps_left(
            m.phase,
        ),
        steps_left(m.phase) == 0 <==> m.phase is Finished,
{
}

/// Once the outcome is settled it stays as it is, and no read is asked for
/// any more.
pub proof fn lemma_settled_run(m: ReaderModel, events: Seq<ReaderEvent>)
    requires
        m.wf(),
        settled(m.phase),
    ensures
        run(m, events).0.outcome == m.outcome,
        settled(run(m, events).0.phase),
        forall|i: int| 0 <= i < run(m, events).1.len() ==> !(#[trigger] run(m, events).1[i]
            is ReadBytes),
    decreases events.len(),
{
    if events.len() > 0 {
        match next(m, events[0]) {
            Some((after, action)) => {
                lemma_settled_run(after, events.drop_first());
            },
            None => {
                lemma_settled_run(m, events.drop_first());
            },
        }
    }
}

/// A region whose reported size is zero or above the bound is never read:
/// the outcome is `HandshakeSizeError` with both sizes, the view's release is
/// what is asked for next, and whatever is reported afterwards, no read
/// follows and the outcome stands.
pub proof fn lemma_rejected_size_is_never_read(
    m: ReaderModel,
    region_size: usize,
    events: Seq<ReaderEvent>,
)
    requires
        m.wf(),
        m.phase is Querying,
        !size_accepted(region_size, m.max_region_size),
    ensures
        ({
            let failure = MonitorError::HandshakeSizeError {
                reported_size: region_size,
                max_region_size: m.max_region_size,
            };
            let step = next(m, ReaderEvent::Queried { region_size });
            &&& step is Some
            &&& step->Some_0.1 == ReaderAction::ReleaseView
            &&& step->Some_0.0.outcome == Some(Err::<Seq<char>, MonitorError>(failure))
            &&& run(step->Some_0.0, events).0.outcome == Some(
                Err::<Seq<char>, MonitorError>(failure),
            )
            &&& forall|i: int|
                0 <= i < run(step->Some_0.0, events).1.len() ==> !(#[trigger] run(
                    step->Some_0.0,
                    events,
                ).1[i] is ReadBytes)
        }),
{
    let step = next(m, ReaderEvent::Queried { region_size });
    lemma_settled_run(step->Some_0.0, events);
}

/// Every run that reaches the end has asked for exactly the actions of one
/// of the complete courses: each resource that was acquired is released
/// once, the view before the handle, and nothing else is done in between.
pub proof fn lemma_finished_run(m: ReaderModel, events: Seq<ReaderEvent>)
    requires
        m.wf(),
        run(m, events).0.phase is Finished,
    ensures
        completes(m.phase, (m.expected_contents_size + 1) as usize, run(m, events).1),
    decreases events.len(),
{
    if events.len() > 0 {
        match next(m, events[0]) {
            Some((after, action)) => {
                lemma_finished_run(after, events.drop_first());
            },
            None => {
                lemma_finished_run(m, events.drop_first());
            },
        }
    }
}

/// In a run from the start to the end, the view is released exactly where
/// it was mapped and the handle exactly where the object was opened, each
/// once, and the view's release comes first.
pub proof fn lemma_release_order(m: ReaderModel, events: Seq<ReaderEvent>)
    requires
        m.wf(),
        m.phase is Idle,
        run(m, events).0.phase is Finished,
    ensures
        ({
            let trace = run(m, events).1;
            &&& trace.contains(ReaderAction::ReleaseView) <==> trace.contains(
                ReaderAction::QuerySize,
            )
            &&& trace.contains(ReaderAction::ReleaseHandle) <==> trace.contains(
                ReaderAction::MapView,
            )
            &&& forall|i: int, j: int|
                0 <= i < trace.len() && 0 <= j < trace.len() && trace[i] == trace[j] && (trace[i]
                    is ReleaseView || trace[i] is ReleaseHandle) ==> i == j
            &&& forall|i: int, j: int|
                0 <= i < trace.len() && 0 <= j < trace.len() && trace[i] is ReleaseView
                    && trace[j] is ReleaseHandle ==> i < j
            &&& trace.len() > 0 && trace.last() is Finish
        }),
{
    lemma_finished_run(m, events);
    let trace = run(m, events).1;
    let len = (m.expected_contents_size + 1) as usize;
    let read = ReaderAction::ReadBytes { len };
    if trace.len() == 7 {
        assert(trace[2] == ReaderAction::QuerySize);
        assert(trace[1] == ReaderAction::MapView);
        assert(trace[4] == ReaderAction::ReleaseView);
        assert(trace[5] == ReaderAction::ReleaseHandle);
    } else if trace.len() == 6 {
        assert(trace[2] == ReaderAction::QuerySize);
        assert(trace[1] == ReaderAction::MapView);
        assert(trace[3] == ReaderAction::ReleaseView);
        assert(trace[4] == ReaderAction::ReleaseHandle);
    } else if trace.len() == 4 {
        assert(trace[1] == ReaderAction::MapView);
        assert(trace[2] == ReaderAction::ReleaseHandle);
    } else {
        assert(trace.len() == 2);
    }
}

} // verus!
