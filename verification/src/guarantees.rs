//! What holds of the exporter over whole runs, proved from its single steps.
//!
//! A run is a sequence of events fed to [`RunView::step`] one after the
//! other. The serving loop is described request by request: a [`Sample`] says
//! how the one sample attempt of a request ended, and [`Sample::events`] is
//! the run of events that such a request consists of.

use crate::failure::FailureView;
use crate::protocol::{ActionView, EventView};
use crate::run::{counter_after, PhaseView, RunView};
use crate::sensor::{Channel, Reading};
use vstd::prelude::*;

verus! {

impl RunView {
    /// The exporter after all of `events`, in order.
    pub open spec fn run_all(self, events: Seq<EventView>) -> RunView
        decreases events.len(),
    {
        if events.len() == 0 {
            self
        } else {
            self.run_all(events.drop_last()).step(events.last())
        }
    }

    /// What [`crate::run::Run::run`] answers to each of `events` in turn: the
    /// next action, or `None` where the event was not accepted.
    pub open spec fn answers(self, events: Seq<EventView>) -> Seq<Option<ActionView>>
        decreases events.len(),
    {
        if events.len() == 0 {
            Seq::empty()
        } else {
            let before = self.run_all(events.drop_last());
            self.answers(events.drop_last()).push(
                if before.accepts(events.last()) {
                    Some(before.step(events.last()).pending())
                } else {
                    None
                },
            )
        }
    }

    /// The exporter after one whole request whose sample ended as `sample`.
    pub open spec fn serve(self, sample: Sample) -> RunView {
        self.run_all(sample.events())
    }

    /// The exporter after one whole request for each of `samples`, in order.
    pub open spec fn serve_all(self, samples: Seq<Sample>) -> RunView
        decreases samples.len(),
    {
        if samples.len() == 0 {
            self
        } else {
            self.serve_all(samples.drop_last()).serve(samples.last())
        }
    }
}

/// How the sample attempt of one request ended.
pub enum Sample {
    /// Both bus transactions returned a value.
    Read { reading: Reading },
    /// The white transaction failed; the lux channel was not read.
    WhiteFailed { detail: Seq<char> },
    /// The white transaction returned `white`, then the lux transaction failed.
    LuxFailed { white: u64, detail: Seq<char> },
}

impl Sample {
    /// The complete reading, if the sample produced one.
    pub open spec fn reading(self) -> Option<Reading> {
        match self {
            Sample::Read { reading } => Some(reading),
            _ => None,
        }
    }

    /// The events of one request, from its arrival to its release.
    pub open spec fn events(self) -> Seq<EventView> {
        match self {
            Sample::Read { reading } => seq![
                EventView::RequestArrived,
                EventView::Completed,
                EventView::Read { bits: reading.white },
                EventView::Read { bits: reading.lux },
                EventView::Completed,
                EventView::Completed,
            ],
            Sample::WhiteFailed { detail } => seq![
                EventView::RequestArrived,
                EventView::Completed,
                EventView::Failed { detail },
                EventView::Completed,
                EventView::Completed,
            ],
            Sample::LuxFailed { white, detail } => seq![
                EventView::RequestArrived,
                EventView::Completed,
                EventView::Read { bits: white },
                EventView::Failed { detail },
                EventView::Completed,
                EventView::Completed,
            ],
        }
    }

    /// The actions that a request with this sample is made of, each one the
    /// answer to the event before it, for the request numbered `request_id`.
    pub open spec fn actions(self, request_id: usize) -> Seq<Option<ActionView>> {
        match self {
            Sample::Read { reading } => seq![
                Some(ActionView::Tag { request_id }),
                Some(ActionView::ReadChannel { channel: Channel::White }),
                Some(ActionView::ReadChannel { channel: Channel::Lux }),
                Some(ActionView::Publish { reading }),
                Some(ActionView::Release { request_id }),
                Some(ActionView::AwaitRequest),
            ],
            Sample::WhiteFailed { .. } => seq![
                Some(ActionView::Tag { request_id }),
                Some(ActionView::ReadChannel { channel: Channel::White }),
                Some(
                    ActionView::ReportFailure {
                        request_id,
                        failure: FailureView::SensorRead { channel: Channel::White },
                    },
                ),
                Some(ActionView::Release { request_id }),
                Some(ActionView::AwaitRequest),
            ],
            Sample::LuxFailed { .. } => seq![
                Some(ActionView::Tag { request_id }),
                Some(ActionView::ReadChannel { channel: Channel::White }),
                Some(ActionView::ReadChannel { channel: Channel::Lux }),
                Some(
                    ActionView::ReportFailure {
                        request_id,
                        failure: FailureView::SensorRead { channel: Channel::Lux },
                    },
                ),
                Some(ActionView::Release { request_id }),
                Some(ActionView::AwaitRequest),
            ],
        }
    }
}

/// The reading of the last sample in `samples` that produced one, or
/// `initial` if none did.
pub open spec fn latest_reading(initial: Option<Reading>, samples: Seq<Sample>) -> Option<
    Reading,
>
    decreases samples.len(),
{
    if samples.len() == 0 {
        initial
    } else {
        match samples.last() {
            Sample::Read { reading } => Some(reading),
            _ => latest_reading(initial, samples.drop_last()),
        }
    }
}

/// Feeding one more event is one more step, and one more answer.
pub proof fn lemma_run_push(state: RunView, events: Seq<EventView>, event: EventView)
    ensures
        state.run_all(events.push(event)) == state.run_all(events).step(event),
        state.answers(events.push(event)) == state.answers(events).push(
            if state.run_all(events).accepts(event) {
                Some(state.run_all(events).step(event).pending())
            } else {
                None
            },
        ),
{
    assert(events.push(event).drop_last() =~= events);
}

/// A run in two parts is the second part run from where the first one ended.
pub proof fn lemma_run_concat(state: RunView, first: Seq<EventView>, second: Seq<EventView>)
    ensures
        state.run_all(first + second) == state.run_all(first).run_all(second),
        state.answers(first + second) == state.answers(first) + state.run_all(first).answers(
            second,
        ),
    decreases second.len(),
{
    if second.len() == 0 {
        assert(first + second =~= first);
        assert(state.answers(first) + Seq::<Option<ActionView>>::empty() =~= state.answers(first));
    } else {
        let body = second.drop_last();
        lemma_run_concat(state, first, body);
        assert((first + second).drop_last() =~= first + body);
        assert((first + second).last() == second.last());
        let middle = state.run_all(first);
        let before = middle.run_all(body);
        let answer = if before.accepts(second.last()) {
            Some(before.step(second.last()).pending())
        } else {
            None
        };
        assert(state.answers(first + second) == (state.answers(first) + middle.answers(body)).push(
            answer,
        ));
        assert((state.answers(first) + middle.answers(body)).push(answer) =~= state.answers(first)
            + middle.answers(body).push(answer));
    }
}

/// One request, whatever comes of its sample: it is tagged with the counter's
/// value, sampled once, published only if both channels were read, and
/// released in every case; then the exporter waits again.
///
/// The gauges afterwards hold the new reading if there is one and what they
/// held before if there is none.
pub proof fn law_one_request(state: RunView, sample: Sample)
    requires
        state.phase is WaitForRequest,
    ensures
        state.answers(sample.events()) == sample.actions(state.request_counter),
        state.serve(sample).phase is WaitForRequest,
        state.serve(sample).config == state.config,
        state.serve(sample).request_counter == counter_after(state.request_counter),
        state.serve(sample).published == match sample.reading() {
            Some(reading) => Some(reading),
            None => state.published,
        },
{
    let id = state.request_counter;
    let none = Seq::<EventView>::empty();
    let e1 = EventView::RequestArrived;
    let e2 = EventView::Completed;
    lemma_run_push(state, none, e1);
    lemma_run_push(state, none.push(e1), e2);
    let two = none.push(e1).push(e2);
    assert(state.run_all(two).phase == PhaseView::SampleWhite { request_id: id });
    match sample {
        Sample::Read { reading } => {
            let e3 = EventView::Read { bits: reading.white };
            let e4 = EventView::Read { bits: reading.lux };
            lemma_run_push(state, two, e3);
            lemma_run_push(state, two.push(e3), e4);
            lemma_run_push(state, two.push(e3).push(e4), e2);
            lemma_run_push(state, two.push(e3).push(e4).push(e2), e2);
            assert(sample.events() =~= two.push(e3).push(e4).push(e2).push(e2));
            assert(state.answers(sample.events()) =~= sample.actions(id));
        },
        Sample::WhiteFailed { detail } => {
            let e3 = EventView::Failed { detail };
            lemma_run_push(state, two, e3);
            lemma_run_push(state, two.push(e3), e2);
            lemma_run_push(state, two.push(e3).push(e2), e2);
            assert(sample.events() =~= two.push(e3).push(e2).push(e2));
            assert(state.answers(sample.events()) =~= sample.actions(id));
        },
        Sample::LuxFailed { white, detail } => {
            let e3 = EventView::Read { bits: white };
            let e4 = EventView::Failed { detail };
            lemma_run_push(state, two, e3);
            lemma_run_push(state, two.push(e3), e4);
            lemma_run_push(state, two.push(e3).push(e4), e2);
            lemma_run_push(state, two.push(e3).push(e4).push(e2), e2);
            assert(sample.events() =~= two.push(e3).push(e4).push(e2).push(e2));
            assert(state.answers(sample.events()) =~= sample.actions(id));
        },
    }
}

/// The gauges hold the most recent reading: after any number of requests,
/// that of the last sample that produced one, and what they held at the
/// outset if none did. A failed sample leaves them as they were.
pub proof fn law_gauges_hold_latest_reading(state: RunView, samples: Seq<Sample>)
    requires
        state.phase is WaitForRequest,
    ensures
        state.serve_all(samples).phase is WaitForRequest,
        state.serve_all(samples).config == state.config,
        state.serve_all(samples).published == latest_reading(state.published, samples),
    decreases samples.len(),
{
    if samples.len() > 0 {
        law_gauges_hold_latest_reading(state, samples.drop_last());
        law_one_request(state.serve_all(samples.drop_last()), samples.last());
    }
}

/// After a request whose sample produced a reading the gauges hold exactly
/// that reading, whatever came of the requests before it.
pub proof fn law_gauges_equal_each_reading(state: RunView, samples: Seq<Sample>, i: int)
    requires
        state.phase is WaitForRequest,
        0 <= i < samples.len(),
        samples[i] is Read,
    ensures
        state.serve_all(samples.take(i + 1)).published == Some(samples[i]->reading),
{
    law_gauges_hold_latest_reading(state, samples.take(i + 1));
    assert(samples.take(i + 1).last() == samples[i]);
}

/// After a request whose sample failed the gauges hold what they held before
/// it, which is the reading of the most recent success or, if there was none,
/// what they held at the outset. The request is released all the same, and
/// the exporter waits for the next one.
pub proof fn law_failed_sample_keeps_gauges(state: RunView, samples: Seq<Sample>, i: int)
    requires
        state.phase is WaitForRequest,
        0 <= i < samples.len(),
        !(samples[i] is Read),
    ensures
        state.serve_all(samples.take(i + 1)).published == state.serve_all(
            samples.take(i),
        ).published,
        state.serve_all(samples.take(i + 1)).published == latest_reading(
            state.published,
            samples.take(i),
        ),
        state.serve_all(samples.take(i)).answers(samples[i].events()).contains(
            Some(
                ActionView::Release { request_id: state.serve_all(samples.take(i)).request_counter },
            ),
        ),
        state.serve_all(samples.take(i + 1)).phase is WaitForRequest,
{
    let before = state.serve_all(samples.take(i));
    let answers = before.answers(samples[i].events());
    assert(samples.take(i + 1).last() == samples[i]);
    assert(samples.take(i + 1).drop_last() =~= samples.take(i));
    law_gauges_hold_latest_reading(state, samples.take(i));
    law_gauges_hold_latest_reading(state, samples.take(i + 1));
    law_one_request(before, samples[i]);
    let release = Some(ActionView::Release { request_id: before.request_counter });
    assert(answers[answers.len() - 2] == release);
}

/// The counter after `requests` more requests.
pub open spec fn counter_plus(counter: usize, requests: nat) -> usize
    decreases requests,
{
    if requests == 0 {
        counter
    } else {
        counter_after(counter_plus(counter, (requests - 1) as nat))
    }
}

/// Short of the end of its range the counter is plain addition.
pub proof fn lemma_counter_plus(counter: usize, requests: nat)
    requires
        counter + requests <= usize::MAX,
    ensures
        counter_plus(counter, requests) == counter + requests,
    decreases requests,
{
    if requests > 0 {
        lemma_counter_plus(counter, (requests - 1) as nat);
    }
}

/// Only the arrival of a request moves the counter, and it moves it by one.
pub proof fn law_counter_moves_on_arrival_only(state: RunView, event: EventView)
    ensures
        state.step(event).request_counter == if state.phase is WaitForRequest
            && event is RequestArrived {
            counter_after(state.request_counter)
        } else {
            state.request_counter
        },
        state.request_counter < usize::MAX ==> counter_after(state.request_counter)
            == state.request_counter + 1,
{
}

/// Every request counts once: after any number of requests the counter has
/// moved by one for each, and request `i` was tagged with the value the
/// counter had after the `i` requests before it. Until the counter reaches
/// the end of its range the ids are `counter`, `counter + 1`, and so on, with
/// no value twice and none left out.
pub proof fn law_request_ids_count_up(state: RunView, samples: Seq<Sample>, i: int)
    requires
        state.phase is WaitForRequest,
        0 <= i < samples.len(),
    ensures
        state.serve_all(samples).request_counter == counter_plus(
            state.request_counter,
            samples.len(),
        ),
        state.serve_all(samples.take(i)).answers(samples[i].events())[0] == Some(
            ActionView::Tag { request_id: counter_plus(state.request_counter, i as nat) },
        ),
        state.request_counter + samples.len() <= usize::MAX ==> {
            &&& state.serve_all(samples).request_counter == state.request_counter + samples.len()
            &&& counter_plus(state.request_counter, i as nat) == state.request_counter + i
        },
{
    lemma_count(state, samples);
    lemma_count(state, samples.take(i));
    law_gauges_hold_latest_reading(state, samples.take(i));
    law_one_request(state.serve_all(samples.take(i)), samples[i]);
    if state.request_counter + samples.len() <= usize::MAX {
        lemma_counter_plus(state.request_counter, samples.len());
        lemma_counter_plus(state.request_counter, i as nat);
    }
}

proof fn lemma_count(state: RunView, samples: Seq<Sample>)
    requires
        state.phase is WaitForRequest,
    ensures
        state.serve_all(samples).request_counter == counter_plus(
            state.request_counter,
            samples.len(),
        ),
    decreases samples.len(),
{
    if samples.len() > 0 {
        lemma_count(state, samples.drop_last());
        law_gauges_hold_latest_reading(state, samples.drop_last());
        law_one_request(state.serve_all(samples.drop_last()), samples.last());
    }
}

/// The events of one request after the other, for each of `samples`.
pub open spec fn events_of(samples: Seq<Sample>) -> Seq<EventView>
    decreases samples.len(),
{
    if samples.len() == 0 {
        Seq::empty()
    } else {
        events_of(samples.drop_last()) + samples.last().events()
    }
}

/// The actions of one request after the other, for each of `samples`, the
/// first of them numbered `first_id`.
pub open spec fn actions_of(samples: Seq<Sample>, first_id: usize) -> Seq<Option<ActionView>>
    decreases samples.len(),
{
    if samples.len() == 0 {
        Seq::empty()
    } else {
        actions_of(samples.drop_last(), first_id) + samples.last().actions(
            counter_plus(first_id, (samples.len() - 1) as nat),
        )
    }
}

/// Requests are served one at a time, in the order of their arrival: the
/// actions of a run of requests are those of the first request, its release
/// included, then those of the second, and so on. No bus transaction of one
/// request falls between two actions of another.
pub proof fn law_requests_follow_one_another(state: RunView, samples: Seq<Sample>)
    requires
        state.phase is WaitForRequest,
    ensures
        state.run_all(events_of(samples)) == state.serve_all(samples),
        state.answers(events_of(samples)) == actions_of(samples, state.request_counter),
    decreases samples.len(),
{
    if samples.len() > 0 {
        let earlier = samples.drop_last();
        law_requests_follow_one_another(state, earlier);
        lemma_run_concat(state, events_of(earlier), samples.last().events());
        law_gauges_hold_latest_reading(state, earlier);
        lemma_count(state, earlier);
        law_one_request(state.serve_all(earlier), samples.last());
    }
}

/// At most one request is in flight, in every state and whatever event
/// comes. A request that arrives while another is being served is not taken
/// up: the arrival is accepted only while the exporter waits. The bus is
/// touched only for the request in flight, and the request in flight gives
/// way only by being released.
pub proof fn law_one_request_in_flight(state: RunView, event: EventView)
    ensures
        state.accepts(EventView::RequestArrived) <==> state.phase is WaitForRequest,
        state.phase.in_flight() is Some ==> state.step(EventView::RequestArrived) == state,
        state.pending().touches_bus() ==> state.phase.in_flight() is Some,
        state.phase.in_flight() is Some ==> {
            ||| state.step(event).phase.in_flight() == state.phase.in_flight()
            ||| state.pending() is Release && state.step(event).phase is WaitForRequest
        },
        state.phase.in_flight() is None && state.step(event).phase.in_flight() is Some ==> {
            &&& state.phase is WaitForRequest
            &&& event is RequestArrived
            &&& state.step(event).phase.in_flight() == Some(state.request_counter)
        },
{
}

/// The failure that ends startup when the operation after `completed`
/// successful ones fails with `detail`.
pub open spec fn startup_failure(
    config: crate::config::ConfigView,
    completed: nat,
    detail: Seq<char>,
) -> FailureView {
    if completed < 2 {
        FailureView::GaugeRegistration { detail }
    } else if completed == 2 {
        FailureView::BusOpen { device: config.i2c_device, detail }
    } else if completed == 3 {
        FailureView::SensorEnable
    } else {
        FailureView::Trigger { detail }
    }
}

/// The actions of a startup in which everything succeeds, each one the
/// answer to the completion of the one before it.
pub open spec fn startup_actions(config: crate::config::ConfigView) -> Seq<Option<ActionView>> {
    seq![
        Some(ActionView::RegisterGauge { channel: Channel::Lux }),
        Some(ActionView::OpenBus { device: config.i2c_device }),
        Some(ActionView::EnableSensor),
        Some(ActionView::StartExporter { listen: config.exporter_listen }),
        Some(ActionView::AwaitRequest),
    ]
}

/// `count` completions in a row.
pub open spec fn completions(count: nat) -> Seq<EventView> {
    Seq::new(count, |i: int| EventView::Completed)
}

/// Once startup has failed nothing happens any more: no event is accepted,
/// and the one thing asked for is to give up with the failure.
pub proof fn law_failure_is_final(state: RunView, later: Seq<EventView>)
    requires
        state.phase is Failed,
    ensures
        state.run_all(later) == state,
        state.pending() == (ActionView::Abort { failure: state.phase->failure }),
        forall|k: int| 0 <= k < later.len() ==> state.answers(later)[k] is None,
        state.answers(later).len() == later.len(),
    decreases later.len(),
{
    if later.len() > 0 {
        law_failure_is_final(state, later.drop_last());
    }
}

/// Startup is five operations in a fixed order: the white gauge, the lux
/// gauge, the bus, the sensor, the listener. If all succeed the exporter
/// waits for its first request, with the counter at zero and the gauges
/// unset.
pub proof fn law_startup_succeeds(config: crate::config::ConfigView)
    ensures
        RunView::initial(config).pending() == (ActionView::RegisterGauge {
            channel: Channel::White,
        }),
        RunView::initial(config).answers(completions(5)) == startup_actions(config),
        RunView::initial(config).run_all(completions(5)) == (RunView {
            phase: PhaseView::WaitForRequest,
            ..RunView::initial(config)
        }),
{
    let start = RunView::initial(config);
    let done = EventView::Completed;
    let none = Seq::<EventView>::empty();
    lemma_run_push(start, none, done);
    lemma_run_push(start, none.push(done), done);
    lemma_run_push(start, none.push(done).push(done), done);
    lemma_run_push(start, none.push(done).push(done).push(done), done);
    lemma_run_push(start, none.push(done).push(done).push(done).push(done), done);
    assert(completions(5) =~= none.push(done).push(done).push(done).push(done).push(done));
    assert(start.answers(completions(5)) =~= startup_actions(config));
}

/// If a startup operation fails, startup fails, at once and for good: the
/// exporter is left with the failure that names the operation, the counter
/// at zero and the gauges unset, and whatever comes later changes nothing.
/// It never waits for a request and never touches the bus again.
pub proof fn law_failed_startup_starts_nothing(
    config: crate::config::ConfigView,
    completed: nat,
    detail: Seq<char>,
    later: Seq<EventView>,
)
    requires
        completed < 5,
    ensures
        ({
            let failed = RunView::initial(config).run_all(
                completions(completed).push(EventView::Failed { detail }),
            );
            &&& failed == (RunView {
                phase: PhaseView::Failed { failure: startup_failure(config, completed, detail) },
                ..RunView::initial(config)
            })
            &&& failed.run_all(later) == failed
            &&& failed.run_all(later).pending() == (ActionView::Abort {
                failure: startup_failure(config, completed, detail),
            })
            &&& forall|k: int| 0 <= k < later.len() ==> failed.answers(later)[k] is None
        }),
{
    let start = RunView::initial(config);
    let done = EventView::Completed;
    let none = Seq::<EventView>::empty();
    let fail = EventView::Failed { detail };
    lemma_run_push(start, none, done);
    lemma_run_push(start, none.push(done), done);
    lemma_run_push(start, none.push(done).push(done), done);
    lemma_run_push(start, none.push(done).push(done).push(done), done);
    assert(completions(0) =~= none);
    assert(completions(1) =~= none.push(done));
    assert(completions(2) =~= none.push(done).push(done));
    assert(completions(3) =~= none.push(done).push(done).push(done));
    assert(completions(4) =~= none.push(done).push(done).push(done).push(done));
    lemma_run_push(start, completions(completed), fail);
    let failed = start.run_all(completions(completed).push(fail));
    law_failure_is_final(failed, later);
}

/// However the events fall: if any startup operation fails, the exporter
/// ends up failed, and so never serves a request.
pub proof fn law_any_startup_failure_is_fatal(state: RunView, events: Seq<EventView>, k: int)
    requires
        0 <= k < events.len(),
        state.run_all(events.take(k)).phase.is_startup(),
        events[k] is Failed,
    ensures
        state.run_all(events).phase is Failed,
        !state.run_all(events).phase.is_serving(),
        state.run_all(events) == state.run_all(events.take(k + 1)),
{
    let head = events.take(k + 1);
    let tail = events.skip(k + 1);
    assert(head.drop_last() =~= events.take(k));
    assert(head.last() == events[k]);
    assert(head + tail =~= events);
    lemma_run_concat(state, head, tail);
    law_failure_is_final(state.run_all(head), tail);
}

impl RunView {
    /// Those of `events` that the exporter accepted, in order.
    pub open spec fn accepted(self, events: Seq<EventView>) -> Seq<EventView>
        decreases events.len(),
    {
        if events.len() == 0 {
            Seq::empty()
        } else if self.run_all(events.drop_last()).accepts(events.last()) {
            self.accepted(events.drop_last()).push(events.last())
        } else {
            self.accepted(events.drop_last())
        }
    }
}

/// How many startup operations have succeeded when the exporter stands in
/// `phase`; five once it serves.
pub open spec fn startup_rank(phase: PhaseView) -> nat {
    match phase {
        PhaseView::RegisterGauge { channel: Channel::White } => 0,
        PhaseView::RegisterGauge { channel: Channel::Lux } => 1,
        PhaseView::OpenBus => 2,
        PhaseView::EnableSensor => 3,
        PhaseView::StartExporter => 4,
        _ => 5,
    }
}

/// No request is served, and the sensor is never read, unless all of startup
/// has succeeded: whatever events are fed to a new exporter, if it ends up
/// serving then the first five outcomes it accepted were the completions of
/// the two registrations, of opening the bus, of enabling the sensor and of
/// starting the listener. While it is still starting up it has accepted
/// nothing but the completions so far.
pub proof fn law_serving_follows_complete_startup(
    config: crate::config::ConfigView,
    events: Seq<EventView>,
)
    ensures
        ({
            let start = RunView::initial(config);
            let state = start.run_all(events);
            let accepted = start.accepted(events);
            &&& state.config == config
            &&& state.phase.is_startup() ==> accepted == completions(startup_rank(state.phase))
            &&& state.phase.is_serving() ==> accepted.len() >= 5 && accepted.take(5)
                == completions(5)
            &&& state.pending().touches_bus() ==> state.phase.is_serving()
            &&& state.pending() is AwaitRequest ==> state.phase.is_serving()
        }),
    decreases events.len(),
{
    let start = RunView::initial(config);
    if events.len() == 0 {
        assert(start.accepted(events) =~= completions(0));
    } else {
        let earlier = events.drop_last();
        let event = events.last();
        law_serving_follows_complete_startup(config, earlier);
        let before = start.run_all(earlier);
        let seen = start.accepted(earlier);
        let state = start.run_all(events);
        let accepted = start.accepted(events);
        if before.accepts(event) {
            assert(accepted == seen.push(event));
            if before.phase.is_startup() {
                let rank = startup_rank(before.phase);
                if event is Completed {
                    assert(completions(rank).push(event) =~= completions(rank + 1));
                    if state.phase.is_serving() {
                        assert(accepted.take(5) =~= accepted);
                    }
                }
            } else {
                assert(seen.push(event).take(5) =~= seen.take(5));
            }
        }
    }
}

} // verus!
