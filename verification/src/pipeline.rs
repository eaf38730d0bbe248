//! The course of a run: which request follows which reply, and how the run
//! ends.
//!
//! The caller performs each request that the run asks for and hands the reply
//! back as an event. The run never asks for more than one key and one
//! observation, and ends with text to print, with the notice that the service
//! had nothing to report, or with a failure.

use vstd::prelude::*;
use crate::failure::{Failure, FailureKind, FailureView};
use crate::options::Options;
use crate::record::{render, rendering};
use crate::unit::Unit;

verus! {

/// What a run is waiting for.
#[derive(Clone, Copy, Debug, PartialEq, Eq, Structural)]
pub enum Stage {
    /// The access key has been asked for.
    AwaitingKey,
    /// The observation has been asked for.
    AwaitingObservation,
    /// The run is over.
    Finished,
}

/// A reply of the outside world to a request of the run.
#[derive(Debug, PartialEq, Eq)]
pub enum Event {
    /// The access key was obtained.
    KeyResolved(String),
    /// No access key could be obtained; the text says why.
    KeyUnavailable(String),
    /// The service answered with a payload, given here as JSON text.
    ObservationReceived(String),
    /// The service answered that it has no current observation.
    ObservationAbsent,
    /// The observation request failed; the text says why.
    FetchFailed(String),
}

/// What the run asks of its caller.
#[derive(Debug, PartialEq, Eq)]
pub enum Action {
    /// Obtain an access key.
    FetchApiKey,
    /// Ask the service for the current observation of the station.
    FetchObservation { api_key: String, station_id: String, unit: Unit },
    /// Write the text to standard output; the run is over.
    Print(String),
    /// Tell the user that the service had nothing to report; the run is over.
    ReportAbsent,
    /// Report the failure; the run is over.
    Fail(Failure),
    /// Nothing: the run was over before the event came.
    Halt,
}

/// An event as contracts speak of it.
pub enum EventView {
    KeyResolved(Seq<char>),
    KeyUnavailable(Seq<char>),
    ObservationReceived(Seq<char>),
    ObservationAbsent,
    FetchFailed(Seq<char>),
}

/// An action as contracts speak of it.
pub enum ActionView {
    FetchApiKey,
    FetchObservation { api_key: Seq<char>, station_id: Seq<char>, unit: Unit },
    Print(Seq<char>),
    ReportAbsent,
    Fail(FailureView),
    Halt,
}

/// A run as contracts speak of it.
pub struct RunView {
    pub stage: Stage,
    pub station_id: Seq<char>,
    pub unit: Unit,
}

impl View for Event {
    type V = EventView;

    open spec fn view(&self) -> EventView {
        match self {
            Event::KeyResolved(key) => EventView::KeyResolved(key@),
            Event::KeyUnavailable(detail) => EventView::KeyUnavailable(detail@),
            Event::ObservationReceived(payload) => EventView::ObservationReceived(payload@),
            Event::ObservationAbsent => EventView::ObservationAbsent,
            Event::FetchFailed(detail) => EventView::FetchFailed(detail@),
        }
    }
}

impl View for Action {
    type V = ActionView;

    open spec fn view(&self) -> ActionView {
        match self {
            Action::FetchApiKey => ActionView::FetchApiKey,
            Action::FetchObservation { api_key, station_id, unit } => ActionView::FetchObservation {
                api_key: api_key@,
                station_id: station_id@,
                unit: *unit,
            },
            Action::Print(text) => ActionView::Print(text@),
            Action::ReportAbsent => ActionView::ReportAbsent,
            Action::Fail(failure) => ActionView::Fail(failure@),
            Action::Halt => ActionView::Halt,
        }
    }
}

/// The detail of the failure that rejects an empty access key.
pub open spec fn empty_key_detail() -> Seq<char> {
    "the key is empty"@
}

/// The detail of the failure that rejects an event which does not answer the
/// pending request.
pub open spec fn unexpected_detail() -> Seq<char> {
    "unexpected reply"@
}

impl RunView {
    /// The run after an event. Only a key that is not empty leads on to the
    /// observation request; every other event ends the run.
    pub open spec fn advance(self, event: EventView) -> RunView {
        let stage = match (self.stage, event) {
            (Stage::AwaitingKey, EventView::KeyResolved(key)) => if key.len() > 0 {
                Stage::AwaitingObservation
            } else {
                Stage::Finished
            },
            _ => Stage::Finished,
        };
        RunView { stage, ..self }
    }

    /// The action is the run's answer to the event.
    ///
    /// The answer is determined by the run and the event, but for the detail of
    /// a failure to convert or to render a payload.
    pub open spec fn answers(self, event: EventView, action: ActionView) -> bool {
        match self.stage {
            Stage::AwaitingKey => match event {
                EventView::KeyResolved(key) => if key.len() > 0 {
                    action == (ActionView::FetchObservation {
                        api_key: key,
                        station_id: self.station_id,
                        unit: self.unit,
                    })
                } else {
                    action == ActionView::Fail(
                        FailureView {
                            kind: FailureKind::CredentialUnavailable,
                            detail: empty_key_detail(),
                        },
                    )
                },
                EventView::KeyUnavailable(detail) => action == ActionView::Fail(
                    FailureView { kind: FailureKind::CredentialUnavailable, detail },
                ),
                _ => action == ActionView::Fail(
                    FailureView {
                        kind: FailureKind::CredentialUnavailable,
                        detail: unexpected_detail(),
                    },
                ),
            },
            Stage::AwaitingObservation => match event {
                EventView::ObservationReceived(payload) => concludes(
                    rendering(payload, self.unit),
                    action,
                ),
                EventView::ObservationAbsent => action == ActionView::ReportAbsent,
                EventView::FetchFailed(detail) => action == ActionView::Fail(
                    FailureView { kind: FailureKind::FetchFailed, detail },
                ),
                _ => action == ActionView::Fail(
                    FailureView { kind: FailureKind::FetchFailed, detail: unexpected_detail() },
                ),
            },
            Stage::Finished => action == ActionView::Halt,
        }
    }

    /// The run after a sequence of events.
    pub open spec fn after(self, events: Seq<EventView>) -> RunView
        decreases events.len(),
    {
        if events.len() == 0 {
            self
        } else {
            self.after(events.drop_last()).advance(events.last())
        }
    }

    /// The actions are the run's answers to the events, one by one.
    pub open spec fn conducts(self, events: Seq<EventView>, actions: Seq<ActionView>) -> bool {
        &&& actions.len() == events.len()
        &&& forall|i: int|
            0 <= i < events.len() ==> self.after(events.take(i)).answers(
                events[i],
                #[trigger] actions[i],
            )
    }
}

/// The action ends a run whose payload rendered as `rendered`: it prints the
/// text, or reports a failure of the kind.
pub open spec fn concludes(rendered: Result<Seq<char>, FailureKind>, action: ActionView) -> bool {
    match rendered {
        Ok(text) => action == ActionView::Print(text),
        Err(kind) => action matches ActionView::Fail(failure) && failure.kind == kind,
    }
}

/// The action that ends a run, given how rendering the payload went.
pub fn conclude(rendered: Result<String, Failure>) -> (action: Action)
    ensures
        action@ == match rendered {
            Ok(text) => ActionView::Print(text@),
            Err(failure) => ActionView::Fail(failure@),
        },
{
    match rendered {
        Ok(text) => Action::Print(text),
        Err(failure) => Action::Fail(failure),
    }
}

/// The notice that tells the user that the service had nothing to report.
pub fn absence_notice() -> (text: &'static str)
    ensures
        text@ == "no result..."@,
{
    "no result..."
}

/// One run of the pipeline, for one station and one unit system.
#[derive(Debug)]
pub struct Run {
    stage: Stage,
    station_id: String,
    unit: Unit,
}

impl View for Run {
    type V = RunView;

    closed spec fn view(&self) -> RunView {
        RunView { stage: self.stage, station_id: self.station_id@, unit: self.unit }
    }
}

impl Run {
    /// Begins a run: the first thing to do is to obtain an access key.
    pub fn start(options: Options) -> (started: (Run, Action))
        ensures
            started.0@ == (RunView {
                stage: Stage::AwaitingKey,
                station_id: options.station_id@,
                unit: options.unit,
            }),
            started.1@ == ActionView::FetchApiKey,
    {
        let run = Run {
            stage: Stage::AwaitingKey,
            station_id: options.station_id,
            unit: options.unit,
        };
        (run, Action::FetchApiKey)
    }

    /// What the run is waiting for.
    pub fn stage(&self) -> (stage: Stage)
        ensures
            stage == self@.stage,
    {
        self.stage
    }

    /// The unit system of the run.
    pub fn unit(&self) -> (unit: Unit)
        ensures
            unit == self@.unit,
    {
        self.unit
    }

    /// The station of the run.
    pub fn station_id(&self) -> (station_id: &str)
        ensures
            station_id@ == self@.station_id,
    {
        self.station_id.as_str()
    }

    /// Takes the reply to the pending request and says what to do next.
    ///
    /// While the key is awaited, a key that is not empty leads to the
    /// observation request, and every other event is a failure to obtain the
    /// key. While the observation is awaited, a payload is converted and
    /// rendered, the absence of an observation is reported as such, and every
    /// other event is a failure to fetch. Once the run is over, nothing is
    /// done.
    pub fn step(&mut self, event: Event) -> (action: Action)
        ensures
            final(self)@ == old(self)@.advance(event@),
            old(self)@.answers(event@, action@),
    {
        match self.stage {
            Stage::AwaitingKey => match event {
                Event::KeyResolved(key) => {
                    if key.as_str().unicode_len() > 0 {
                        self.stage = Stage::AwaitingObservation;
                        Action::FetchObservation {
                            api_key: key,
                            station_id: self.station_id.clone(),
                            unit: self.unit,
                        }
                    } else {
                        self.stage = Stage::Finished;
                        Action::Fail(
                            Failure::with_detail(
                                FailureKind::CredentialUnavailable,
                                "the key is empty",
                            ),
                        )
                    }
                },
                Event::KeyUnavailable(detail) => {
                    self.stage = Stage::Finished;
                    Action::Fail(Failure { kind: FailureKind::CredentialUnavailable, detail })
                },
                _ => {
                    self.stage = Stage::Finished;
                    Action::Fail(
                        Failure::with_detail(
                            FailureKind::CredentialUnavailable,
                            "unexpected reply",
                        ),
                    )
                },
            },
            Stage::AwaitingObservation => {
                self.stage = Stage::Finished;
                match event {
                    Event::ObservationReceived(payload) => conclude(
                        render(payload.as_str(), self.unit),
                    ),
                    Event::ObservationAbsent => Action::ReportAbsent,
                    Event::FetchFailed(detail) => Action::Fail(
                        Failure { kind: FailureKind::FetchFailed, detail },
                    ),
                    _ => Action::Fail(
                        Failure::with_detail(FailureKind::FetchFailed, "unexpected reply"),
                    ),
                }
            },
            Stage::Finished => Action::Halt,
        }
    }
}

/// A run that is over stays as it is, whatever comes.
pub proof fn lemma_finished_is_final(run: RunView, events: Seq<EventView>)
    requires
        run.stage == Stage::Finished,
    ensures
        run.after(events) == run,
    decreases events.len(),
{
    if events.len() > 0 {
        lemma_finished_is_final(run, events.drop_last());
    }
}

/// Events change neither the station nor the unit of a run; after the first
/// event the key is no longer awaited, and after the second the run is over.
pub proof fn lemma_run_is_short(run: RunView, events: Seq<EventView>)
    ensures
        run.after(events).station_id == run.station_id,
        run.after(events).unit == run.unit,
        events.len() >= 1 ==> run.after(events).stage != Stage::AwaitingKey,
        events.len() >= 2 ==> run.after(events).stage == Stage::Finished,
    decreases events.len(),
{
    if events.len() > 0 {
        lemma_run_is_short(run, events.drop_last());
    }
}

/// The service's answer that it has nothing to report ends the run with the
/// notice of absence: nothing is converted and nothing fails.
pub proof fn lemma_absence_is_reported(run: RunView, action: ActionView)
    requires
        run.stage == Stage::AwaitingObservation,
        run.answers(EventView::ObservationAbsent, action),
    ensures
        action == ActionView::ReportAbsent,
        run.advance(EventView::ObservationAbsent).stage == Stage::Finished,
{
}

/// An observation is asked for only in answer to the first event of a run that
/// awaited its key, and only when that event brought a key that is not empty;
/// the request then carries that very key, and the station and the unit of the
/// run.
pub proof fn lemma_observation_request_needs_key(
    run: RunView,
    events: Seq<EventView>,
    actions: Seq<ActionView>,
    i: int,
)
    requires
        run.conducts(events, actions),
        0 <= i < actions.len(),
        actions[i] is FetchObservation,
    ensures
        i == 0,
        run.stage == Stage::AwaitingKey,
        events[0] matches EventView::KeyResolved(key) && key.len() > 0 && actions[0] == (
        ActionView::FetchObservation { api_key: key, station_id: run.station_id, unit: run.unit }),
{
    lemma_run_is_short(run, events.take(i));
    assert(run.after(events.take(i)).answers(events[i], actions[i]));
    assert(run.after(events.take(i)).stage == Stage::AwaitingKey);
    assert(events.take(0).len() == 0);
}

/// Where the first event brings no usable key, the run fails for want of a
/// credential, never asks for an observation, and does nothing from then on.
pub proof fn lemma_failed_key_ends_run(
    run: RunView,
    events: Seq<EventView>,
    actions: Seq<ActionView>,
)
    requires
        run.stage == Stage::AwaitingKey,
        run.conducts(events, actions),
        events.len() > 0,
        !(events[0] matches EventView::KeyResolved(key) && key.len() > 0),
    ensures
        actions[0] matches ActionView::Fail(failure) && failure.kind
            == FailureKind::CredentialUnavailable,
        forall|i: int| 0 <= i < actions.len() ==> !(#[trigger] actions[i] is FetchObservation),
        forall|i: int| 1 <= i < actions.len() ==> #[trigger] actions[i] == ActionView::Halt,
{
    assert(events.take(0).len() == 0);
    assert(run.after(events.take(0)).answers(events[0], actions[0]));
    assert forall|i: int| 0 <= i < actions.len() implies !(#[trigger] actions[i]
        is FetchObservation) by {
        if actions[i] is FetchObservation {
            lemma_observation_request_needs_key(run, events, actions, i);
        }
    }
    assert forall|i: int| 1 <= i < actions.len() implies #[trigger] actions[i]
        == ActionView::Halt by {
        let first = events.take(1);
        assert(first.drop_last().len() == 0);
        assert(first.last() == events[0]);
        assert(run.after(first).stage == Stage::Finished);
        lemma_after_later(run, events, 1, i);
        assert(run.after(events.take(i)).answers(events[i], actions[i]));
    }
}

/// A run that is over after the first `i` events is over after the first `j`,
/// for every later `j`.
proof fn lemma_after_later(run: RunView, events: Seq<EventView>, i: int, j: int)
    requires
        0 <= i <= j <= events.len(),
        run.after(events.take(i)).stage == Stage::Finished,
    ensures
        run.after(events.take(j)).stage == Stage::Finished,
    decreases j - i,
{
    if i < j {
        lemma_after_later(run, events, i, j - 1);
        assert(events.take(j).drop_last() =~= events.take(j - 1));
    }
}

} // verus!
