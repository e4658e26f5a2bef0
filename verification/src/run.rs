//! The exporter: startup, then one sample per scrape request, for as long as
//! the process lives.
//!
//! [`Run`] decides; it performs nothing itself. At every moment it waits for
//! the outcome of exactly one [`Action`]. [`RunView`] is its mathematical
//! value, and the functions on it say what the exporter does.

use crate::config::{Config, ConfigView};
use crate::failure::{Failure, FailureView};
use crate::protocol::{Action, ActionView, Event, EventView};
use crate::sensor::{Channel, Reading};
use vstd::prelude::*;

verus! {

/// Where the exporter stands. Each phase waits for the outcome of one action.
#[derive(Clone, Debug, PartialEq, Eq)]
pub enum Phase {
    /// Registering the gauge of one channel.
    RegisterGauge { channel: Channel },
    /// Opening the bus device.
    OpenBus,
    /// Activating the sensor.
    EnableSensor,
    /// Binding the listen address.
    StartExporter,
    /// Blocked until a scrape request arrives.
    WaitForRequest,
    /// Entering the logging context of the request that just arrived.
    Tag { request_id: usize },
    /// Reading the white channel.
    SampleWhite { request_id: usize },
    /// Reading the lux channel; the white channel has been read.
    SampleLux { request_id: usize, white: u64 },
    /// Setting the gauges from a complete sample.
    Publish { request_id: usize, reading: Reading },
    /// Logging that the sample failed at one channel.
    ReportFailure { request_id: usize, channel: Channel },
    /// Letting the held scrape response go.
    Release { request_id: usize },
    /// Startup failed; nothing more will happen.
    Failed { failure: Failure },
}

/// Mathematical value of a [`Phase`].
pub enum PhaseView {
    RegisterGauge { channel: Channel },
    OpenBus,
    EnableSensor,
    StartExporter,
    WaitForRequest,
    Tag { request_id: usize },
    SampleWhite { request_id: usize },
    SampleLux { request_id: usize, white: u64 },
    Publish { request_id: usize, reading: Reading },
    ReportFailure { request_id: usize, channel: Channel },
    Release { request_id: usize },
    Failed { failure: FailureView },
}

impl View for Phase {
    type V = PhaseView;

    open spec fn view(&self) -> PhaseView {
        match self {
            Phase::RegisterGauge { channel } => PhaseView::RegisterGauge { channel: *channel },
            Phase::OpenBus => PhaseView::OpenBus,
            Phase::EnableSensor => PhaseView::EnableSensor,
            Phase::StartExporter => PhaseView::StartExporter,
            Phase::WaitForRequest => PhaseView::WaitForRequest,
            Phase::Tag { request_id } => PhaseView::Tag { request_id: *request_id },
            Phase::SampleWhite { request_id } => PhaseView::SampleWhite {
                request_id: *request_id,
            },
            Phase::SampleLux { request_id, white } => PhaseView::SampleLux {
                request_id: *request_id,
                white: *white,
            },
            Phase::Publish { request_id, reading } => PhaseView::Publish {
                request_id: *request_id,
                reading: *reading,
            },
            Phase::ReportFailure { request_id, channel } => PhaseView::ReportFailure {
                request_id: *request_id,
                channel: *channel,
            },
            Phase::Release { request_id } => PhaseView::Release { request_id: *request_id },
            Phase::Failed { failure } => PhaseView::Failed { failure: failure@ },
        }
    }
}

impl PhaseView {
    /// Startup is still under way.
    pub open spec fn is_startup(self) -> bool {
        self is RegisterGauge || self is OpenBus || self is EnableSensor || self is StartExporter
    }

    /// The request that is being served, if one is.
    pub open spec fn in_flight(self) -> Option<usize> {
        match self {
            PhaseView::Tag { request_id } => Some(request_id),
            PhaseView::SampleWhite { request_id } => Some(request_id),
            PhaseView::SampleLux { request_id, .. } => Some(request_id),
            PhaseView::Publish { request_id, .. } => Some(request_id),
            PhaseView::ReportFailure { request_id, .. } => Some(request_id),
            PhaseView::Release { request_id } => Some(request_id),
            _ => None,
        }
    }

    /// Startup is over and the exporter serves requests.
    pub open spec fn is_serving(self) -> bool {
        self is WaitForRequest || self.in_flight() is Some
    }
}

/// The request counter after one more request. It wraps at the end of its
/// range, as the atomic counter of `std` does.
pub open spec fn counter_after(counter: usize) -> usize {
    if counter == usize::MAX {
        0
    } else {
        (counter + 1) as usize
    }
}

/// Mathematical value of a [`Run`].
pub struct RunView {
    /// The settings the exporter was made with.
    pub config: ConfigView,
    /// How many requests have arrived so far; the next one gets this id.
    pub request_counter: usize,
    /// Where the exporter stands.
    pub phase: PhaseView,
    /// What the gauges hold: the last sample that was published, if any was.
    pub published: Option<Reading>,
}

impl RunView {
    /// The exporter before anything has been done.
    pub open spec fn initial(config: ConfigView) -> RunView {
        RunView {
            config,
            request_counter: 0,
            phase: PhaseView::RegisterGauge { channel: Channel::White },
            published: None,
        }
    }

    /// The action whose outcome the exporter waits for.
    pub open spec fn pending(self) -> ActionView {
        match self.phase {
            PhaseView::RegisterGauge { channel } => ActionView::RegisterGauge { channel },
            PhaseView::OpenBus => ActionView::OpenBus { device: self.config.i2c_device },
            PhaseView::EnableSensor => ActionView::EnableSensor,
            PhaseView::StartExporter => ActionView::StartExporter {
                listen: self.config.exporter_listen,
            },
            PhaseView::WaitForRequest => ActionView::AwaitRequest,
            PhaseView::Tag { request_id } => ActionView::Tag { request_id },
            PhaseView::SampleWhite { .. } => ActionView::ReadChannel { channel: Channel::White },
            PhaseView::SampleLux { .. } => ActionView::ReadChannel { channel: Channel::Lux },
            PhaseView::Publish { reading, .. } => ActionView::Publish { reading },
            PhaseView::ReportFailure { request_id, channel } => ActionView::ReportFailure {
                request_id,
                failure: FailureView::SensorRead { channel },
            },
            PhaseView::Release { request_id } => ActionView::Release { request_id },
            PhaseView::Failed { failure } => ActionView::Abort { failure },
        }
    }

    /// Whether the event can be the outcome of the pending action.
    pub open spec fn accepts(self, event: EventView) -> bool {
        match self.phase {
            PhaseView::RegisterGauge { .. }
            | PhaseView::OpenBus
            | PhaseView::EnableSensor
            | PhaseView::StartExporter => event is Completed || event is Failed,
            PhaseView::WaitForRequest => event is RequestArrived,
            PhaseView::SampleWhite { .. } | PhaseView::SampleLux { .. } => event is Read
                || event is Failed,
            PhaseView::Tag { .. }
            | PhaseView::Publish { .. }
            | PhaseView::ReportFailure { .. }
            | PhaseView::Release { .. } => event is Completed,
            PhaseView::Failed { .. } => false,
        }
    }

    /// The phase that follows when the pending action ends in `event`.
    pub open spec fn next_phase(self, event: EventView) -> PhaseView {
        match (self.phase, event) {
            (PhaseView::RegisterGauge { channel: Channel::White }, EventView::Completed) => {
                PhaseView::RegisterGauge { channel: Channel::Lux }
            },
            (PhaseView::RegisterGauge { channel: Channel::Lux }, EventView::Completed) => {
                PhaseView::OpenBus
            },
            (PhaseView::RegisterGauge { .. }, EventView::Failed { detail }) => PhaseView::Failed {
                failure: FailureView::GaugeRegistration { detail },
            },
            (PhaseView::OpenBus, EventView::Completed) => PhaseView::EnableSensor,
            (PhaseView::OpenBus, EventView::Failed { detail }) => PhaseView::Failed {
                failure: FailureView::BusOpen { device: self.config.i2c_device, detail },
            },
            (PhaseView::EnableSensor, EventView::Completed) => PhaseView::StartExporter,
            (PhaseView::EnableSensor, EventView::Failed { .. }) => PhaseView::Failed {
                failure: FailureView::SensorEnable,
            },
            (PhaseView::StartExporter, EventView::Completed) => PhaseView::WaitForRequest,
            (PhaseView::StartExporter, EventView::Failed { detail }) => PhaseView::Failed {
                failure: FailureView::Trigger { detail },
            },
            (PhaseView::WaitForRequest, EventView::RequestArrived) => PhaseView::Tag {
                request_id: self.request_counter,
            },
            (PhaseView::Tag { request_id }, EventView::Completed) => PhaseView::SampleWhite {
                request_id,
            },
            (PhaseView::SampleWhite { request_id }, EventView::Read { bits }) => {
                PhaseView::SampleLux { request_id, white: bits }
            },
            (PhaseView::SampleWhite { request_id }, EventView::Failed { .. }) => {
                PhaseView::ReportFailure { request_id, channel: Channel::White }
            },
            (PhaseView::SampleLux { request_id, white }, EventView::Read { bits }) => {
                PhaseView::Publish { request_id, reading: Reading { white, lux: bits } }
            },
            (PhaseView::SampleLux { request_id, .. }, EventView::Failed { .. }) => {
                PhaseView::ReportFailure { request_id, channel: Channel::Lux }
            },
            (PhaseView::Publish { request_id, .. }, EventView::Completed) => PhaseView::Release {
                request_id,
            },
            (PhaseView::ReportFailure { request_id, .. }, EventView::Completed) => {
                PhaseView::Release { request_id }
            },
            (PhaseView::Release { .. }, EventView::Completed) => PhaseView::WaitForRequest,
            _ => self.phase,
        }
    }

    /// The exporter after `event`. An event that the pending action cannot
    /// have ended in changes nothing.
    pub open spec fn step(self, event: EventView) -> RunView {
        if !self.accepts(event) {
            self
        } else {
            RunView {
                config: self.config,
                request_counter: if self.phase is WaitForRequest {
                    counter_after(self.request_counter)
                } else {
                    self.request_counter
                },
                phase: self.next_phase(event),
                published: match self.phase {
                    PhaseView::Publish { reading, .. } => Some(reading),
                    _ => self.published,
                },
            }
        }
    }
}

/// The exporter's decisions, from startup through every scrape request.
#[derive(Debug)]
pub struct Run {
    config: Config,
    request_counter: usize,
    phase: Phase,
    published: Option<Reading>,
}

impl View for Run {
    type V = RunView;

    closed spec fn view(&self) -> RunView {
        RunView {
            config: self.config@,
            request_counter: self.request_counter,
            phase: self.phase@,
            published: self.published,
        }
    }
}

impl Run {
    /// An exporter that has done nothing yet. Its first action is to register
    /// the white gauge.
    pub fn new(config: Config) -> (run: Run)
        ensures
            run@ == RunView::initial(config@),
    {
        Run {
            config,
            request_counter: 0,
            phase: Phase::RegisterGauge { channel: Channel::White },
            published: None,
        }
    }

    /// The settings the exporter was made with.
    pub fn config(&self) -> (config: &Config)
        ensures
            config@ == self@.config,
    {
        &self.config
    }

    /// How many requests have arrived so far.
    pub fn request_counter(&self) -> (counter: usize)
        ensures
            counter == self@.request_counter,
    {
        self.request_counter
    }

    /// Where the exporter stands.
    pub fn phase(&self) -> (phase: &Phase)
        ensures
            phase@ == self@.phase,
    {
        &self.phase
    }

    /// What the gauges hold: the last sample that was published, or `None`
    /// while none has been.
    pub fn published(&self) -> (published: Option<Reading>)
        ensures
            published == self@.published,
    {
        self.published
    }

    /// The action whose outcome the exporter waits for.
    pub fn action(&self) -> (action: Action)
        ensures
            action@ == self@.pending(),
    {
        match &self.phase {
            Phase::RegisterGauge { channel } => Action::RegisterGauge { channel: *channel },
            Phase::OpenBus => Action::OpenBus { device: self.config.i2c_device.clone() },
            Phase::EnableSensor => Action::EnableSensor,
            Phase::StartExporter => Action::StartExporter { listen: self.config.exporter_listen },
            Phase::WaitForRequest => Action::AwaitRequest,
            Phase::Tag { request_id } => Action::Tag { request_id: *request_id },
            Phase::SampleWhite { .. } => Action::ReadChannel { channel: Channel::White },
            Phase::SampleLux { .. } => Action::ReadChannel { channel: Channel::Lux },
            Phase::Publish { reading, .. } => Action::Publish { reading: *reading },
            Phase::ReportFailure { request_id, channel } => Action::ReportFailure {
                request_id: *request_id,
                failure: Failure::SensorRead { channel: *channel },
            },
            Phase::Release { request_id } => Action::Release { request_id: *request_id },
            Phase::Failed { failure } => Action::Abort { failure: failure.duplicate() },
        }
    }

    /// Takes the outcome of a startup action: on to the next one, or to
    /// `Failed` with the failure that names what went wrong.
    fn start_up(&mut self, event: Event) -> (accepted: bool)
        requires
            old(self)@.phase.is_startup(),
        ensures
            accepted == old(self)@.accepts(event@),
            final(self)@ == old(self)@.step(event@),
    {
        match event {
            Event::Completed => {
                let next = match self.phase {
                    Phase::RegisterGauge { channel: Channel::White } => Phase::RegisterGauge {
                        channel: Channel::Lux,
                    },
                    Phase::RegisterGauge { channel: Channel::Lux } => Phase::OpenBus,
                    Phase::OpenBus => Phase::EnableSensor,
                    Phase::EnableSensor => Phase::StartExporter,
                    _ => Phase::WaitForRequest,
                };
                self.phase = next;
                true
            },
            Event::Failed { detail } => {
                let failure = match self.phase {
                    Phase::RegisterGauge { .. } => Failure::GaugeRegistration { detail },
                    Phase::OpenBus => Failure::BusOpen {
                        device: self.config.i2c_device.clone(),
                        detail,
                    },
                    Phase::EnableSensor => Failure::SensorEnable,
                    _ => Failure::Trigger { detail },
                };
                self.phase = Phase::Failed { failure };
                true
            },
            _ => false,
        }
    }

    /// Takes the outcome of an action of the serving loop: wait, tag, sample
    /// both channels, publish or report, release.
    fn process_request(&mut self, event: Event) -> (accepted: bool)
        requires
            old(self)@.phase.is_serving(),
        ensures
            accepted == old(self)@.accepts(event@),
            final(self)@ == old(self)@.step(event@),
    {
        match self.phase {
            Phase::WaitForRequest => match event {
                Event::RequestArrived => {
                    let request_id = self.request_counter;
                    self.request_counter = request_id.wrapping_add(1);
                    self.phase = Phase::Tag { request_id };
                    true
                },
                _ => false,
            },
            Phase::Tag { request_id } => match event {
                Event::Completed => {
                    self.phase = Phase::SampleWhite { request_id };
                    true
                },
                _ => false,
            },
            Phase::SampleWhite { request_id } => match event {
                Event::Read { bits } => {
                    self.phase = Phase::SampleLux { request_id, white: bits };
                    true
                },
                Event::Failed { .. } => {
                    self.phase = Phase::ReportFailure { request_id, channel: Channel::White };
                    true
                },
                _ => false,
            },
            Phase::SampleLux { request_id, white } => match event {
                Event::Read { bits } => {
                    self.phase = Phase::Publish {
                        request_id,
                        reading: Reading { white, lux: bits },
                    };
                    true
                },
                Event::Failed { .. } => {
                    self.phase = Phase::ReportFailure { request_id, channel: Channel::Lux };
                    true
                },
                _ => false,
            },
            Phase::Publish { request_id, reading } => match event {
                Event::Completed => {
                    self.published = Some(reading);
                    self.phase = Phase::Release { request_id };
                    true
                },
                _ => false,
            },
            Phase::ReportFailure { request_id, .. } => match event {
                Event::Completed => {
                    self.phase = Phase::Release { request_id };
                    true
                },
                _ => false,
            },
            Phase::Release { .. } => match event {
                Event::Completed => {
                    self.phase = Phase::WaitForRequest;
                    true
                },
                _ => false,
            },
            _ => false,
        }
    }

    /// Takes the outcome of the pending action and names the next one.
    ///
    /// Returns `None`, and changes nothing, when `event` cannot be the outcome
    /// of the pending action; after a failed startup that is every event.
    pub fn run(&mut self, event: Event) -> (next: Option<Action>)
        ensures
            final(self)@ == old(self)@.step(event@),
            match next {
                Some(action) => old(self)@.accepts(event@) && action@ == final(self)@.pending(),
                None => !old(self)@.accepts(event@),
            },
    {
        let accepted = match self.phase {
            Phase::RegisterGauge { .. }
            | Phase::OpenBus
            | Phase::EnableSensor
            | Phase::StartExporter => self.start_up(event),
            Phase::Failed { .. } => false,
            _ => self.process_request(event),
        };
        if accepted {
            Some(self.action())
        } else {
            None
        }
    }
}

} // verus!
