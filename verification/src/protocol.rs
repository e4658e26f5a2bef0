//! The exchange between the decision logic and whoever touches the outside
//! world for it.
//!
//! The logic names one [`Action`] at a time. The caller performs it and
//! reports what came of it as an [`Event`]; the logic then names the next.

use crate::config::ListenAddress;
use crate::failure::{Failure, FailureView};
use crate::sensor::{Channel, Reading};
use vstd::prelude::*;

verus! {

/// What came of the action that was pending.
#[derive(Clone, Debug, PartialEq, Eq)]
pub enum Event {
    /// The action was carried out and has no result to report.
    Completed,
    /// The action could not be carried out; `detail` is the report of
    /// whatever refused.
    Failed { detail: String },
    /// A scrape request has arrived and its response is being held back.
    RequestArrived,
    /// A bus transaction returned the channel's value.
    Read { bits: u64 },
}

/// Mathematical value of an [`Event`].
pub enum EventView {
    Completed,
    Failed { detail: Seq<char> },
    RequestArrived,
    Read { bits: u64 },
}

impl View for Event {
    type V = EventView;

    open spec fn view(&self) -> EventView {
        match self {
            Event::Completed => EventView::Completed,
            Event::Failed { detail } => EventView::Failed { detail: detail@ },
            Event::RequestArrived => EventView::RequestArrived,
            Event::Read { bits } => EventView::Read { bits: *bits },
        }
    }
}

/// What the caller is to do next.
#[derive(Clone, Debug, PartialEq, Eq)]
pub enum Action {
    /// Register the gauge of one channel with the metric registry.
    RegisterGauge { channel: Channel },
    /// Open the bus device at this path.
    OpenBus { device: String },
    /// Activate the sensor.
    EnableSensor,
    /// Bind the listen address and start serving scrapes.
    StartExporter { listen: ListenAddress },
    /// Block until a scrape request arrives; hold its response back.
    AwaitRequest,
    /// Enter the logging context of this request.
    Tag { request_id: usize },
    /// Make one bus transaction reading this channel.
    ReadChannel { channel: Channel },
    /// Set both gauges from the reading.
    Publish { reading: Reading },
    /// Log the failure of this request's sample, at error severity.
    ReportFailure { request_id: usize, failure: Failure },
    /// Leave the request's logging context and let the held response go.
    Release { request_id: usize },
    /// Print the reading for the operator.
    Print { reading: Reading },
    /// Nothing is left to do; end with success.
    Finish,
    /// Give up and report the failure; nothing else will be asked for.
    Abort { failure: Failure },
}

/// Mathematical value of an [`Action`].
pub enum ActionView {
    RegisterGauge { channel: Channel },
    OpenBus { device: Seq<char> },
    EnableSensor,
    StartExporter { listen: ListenAddress },
    AwaitRequest,
    Tag { request_id: usize },
    ReadChannel { channel: Channel },
    Publish { reading: Reading },
    ReportFailure { request_id: usize, failure: FailureView },
    Release { request_id: usize },
    Print { reading: Reading },
    Finish,
    Abort { failure: FailureView },
}

impl ActionView {
    /// Whether the action is a transaction on the sensor's bus.
    pub open spec fn touches_bus(self) -> bool {
        self is ReadChannel
    }
}

impl View for Action {
    type V = ActionView;

    open spec fn view(&self) -> ActionView {
        match self {
            Action::RegisterGauge { channel } => ActionView::RegisterGauge { channel: *channel },
            Action::OpenBus { device } => ActionView::OpenBus { device: device@ },
            Action::EnableSensor => ActionView::EnableSensor,
            Action::StartExporter { listen } => ActionView::StartExporter { listen: *listen },
            Action::AwaitRequest => ActionView::AwaitRequest,
            Action::Tag { request_id } => ActionView::Tag { request_id: *request_id },
            Action::ReadChannel { channel } => ActionView::ReadChannel { channel: *channel },
            Action::Publish { reading } => ActionView::Publish { reading: *reading },
            Action::ReportFailure { request_id, failure } => ActionView::ReportFailure {
                request_id: *request_id,
                failure: failure@,
            },
            Action::Release { request_id } => ActionView::Release { request_id: *request_id },
            Action::Print { reading } => ActionView::Print { reading: *reading },
            Action::Finish => ActionView::Finish,
            Action::Abort { failure } => ActionView::Abort { failure: failure@ },
        }
    }
}

} // verus!
