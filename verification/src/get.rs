//! The one-shot probe: bring the sensor up, sample it once, print the
//! reading.
//!
//! [`Get`] decides and performs nothing itself, as [`crate::run::Run`] does,
//! and speaks the same [`Action`]s and [`Event`]s. Here every failure is
//! final: the first operation that fails ends the probe.

use crate::config::{Config, ConfigView};
use crate::failure::{Failure, FailureView};
use crate::protocol::{Action, ActionView, Event, EventView};
use crate::sensor::{Channel, Reading};
use vstd::prelude::*;

verus! {

/// Where the probe stands. Each stage waits for the outcome of one action.
#[derive(Clone, Debug, PartialEq, Eq)]
pub enum Stage {
    /// Opening the bus device.
    OpenBus,
    /// Activating the sensor.
    EnableSensor,
    /// Reading the white channel.
    SampleWhite,
    /// Reading the lux channel; the white channel has been read.
    SampleLux { white: u64 },
    /// Printing the reading.
    Print { reading: Reading },
    /// The reading has been printed.
    Done,
    /// An operation failed; nothing more will happen.
    Failed { failure: Failure },
}

/// Mathematical value of a [`Stage`].
pub enum StageView {
    OpenBus,
    EnableSensor,
    SampleWhite,
    SampleLux { white: u64 },
    Print { reading: Reading },
    Done,
    Failed { failure: FailureView },
}

impl View for Stage {
    type V = StageView;

    open spec fn view(&self) -> StageView {
        match self {
            Stage::OpenBus => StageView::OpenBus,
            Stage::EnableSensor => StageView::EnableSensor,
            Stage::SampleWhite => StageView::SampleWhite,
            Stage::SampleLux { white } => StageView::SampleLux { white: *white },
            Stage::Print { reading } => StageView::Print { reading: *reading },
            Stage::Done => StageView::Done,
            Stage::Failed { failure } => StageView::Failed { failure: failure@ },
        }
    }
}

/// Mathematical value of a [`Get`].
pub struct GetView {
    /// The settings the probe was made with.
    pub config: ConfigView,
    /// Where the probe stands.
    pub stage: StageView,
}

impl GetView {
    /// The probe before anything has been done.
    pub open spec fn initial(config: ConfigView) -> GetView {
        GetView { config, stage: StageView::OpenBus }
    }

    /// The action whose outcome the probe waits for.
    pub open spec fn pending(self) -> ActionView {
        match self.stage {
            StageView::OpenBus => ActionView::OpenBus { device: self.config.i2c_device },
            StageView::EnableSensor => ActionView::EnableSensor,
            StageView::SampleWhite => ActionView::ReadChannel { channel: Channel::White },
            StageView::SampleLux { .. } => ActionView::ReadChannel { channel: Channel::Lux },
            StageView::Print { reading } => ActionView::Print { reading },
            StageView::Done => ActionView::Finish,
            StageView::Failed { failure } => ActionView::Abort { failure },
        }
    }

    /// Whether the event can be the outcome of the pending action.
    pub open spec fn accepts(self, event: EventView) -> bool {
        match self.stage {
            StageView::OpenBus | StageView::EnableSensor => event is Completed || event is Failed,
            StageView::SampleWhite | StageView::SampleLux { .. } => event is Read
                || event is Failed,
            StageView::Print { .. } => event is Completed,
            StageView::Done | StageView::Failed { .. } => false,
        }
    }

    /// The failure that ends the probe when the pending action fails with
    /// `detail`.
    pub open spec fn failure(self, detail: Seq<char>) -> FailureView {
        match self.stage {
            StageView::OpenBus => FailureView::BusOpen { device: self.config.i2c_device, detail },
            StageView::EnableSensor => FailureView::SensorEnable,
            StageView::SampleWhite => FailureView::SensorRead { channel: Channel::White },
            _ => FailureView::SensorRead { channel: Channel::Lux },
        }
    }

    /// The probe after `event`. An event that the pending action cannot have
    /// ended in changes nothing.
    pub open spec fn step(self, event: EventView) -> GetView {
        if !self.accepts(event) {
            self
        } else {
            GetView {
                config: self.config,
                stage: match (self.stage, event) {
                    (_, EventView::Failed { detail }) => StageView::Failed {
                        failure: self.failure(detail),
                    },
                    (StageView::OpenBus, _) => StageView::EnableSensor,
                    (StageView::EnableSensor, _) => StageView::SampleWhite,
                    (StageView::SampleWhite, EventView::Read { bits }) => StageView::SampleLux {
                        white: bits,
                    },
                    (StageView::SampleLux { white }, EventView::Read { bits }) => StageView::Print {
                        reading: Reading { white, lux: bits },
                    },
                    _ => StageView::Done,
                },
            }
        }
    }

    /// The probe after all of `events`, in order.
    pub open spec fn get_all(self, events: Seq<EventView>) -> GetView
        decreases events.len(),
    {
        if events.len() == 0 {
            self
        } else {
            self.get_all(events.drop_last()).step(events.last())
        }
    }
}

/// The probe's decisions.
#[derive(Debug)]
pub struct Get {
    config: Config,
    stage: Stage,
}

impl View for Get {
    type V = GetView;

    closed spec fn view(&self) -> GetView {
        GetView { config: self.config@, stage: self.stage@ }
    }
}

impl Get {
    /// A probe that has done nothing yet. Its first action is to open the bus.
    pub fn new(config: Config) -> (get: Get)
        ensures
            get@ == GetView::initial(config@),
    {
        Get { config, stage: Stage::OpenBus }
    }

    /// Where the probe stands.
    pub fn stage(&self) -> (stage: &Stage)
        ensures
            stage@ == self@.stage,
    {
        &self.stage
    }

    /// The action whose outcome the probe waits for.
    pub fn action(&self) -> (action: Action)
        ensures
            action@ == self@.pending(),
    {
        match &self.stage {
            Stage::OpenBus => Action::OpenBus { device: self.config.i2c_device.clone() },
            Stage::EnableSensor => Action::EnableSensor,
            Stage::SampleWhite => Action::ReadChannel { channel: Channel::White },
            Stage::SampleLux { .. } => Action::ReadChannel { channel: Channel::Lux },
            Stage::Print { reading } => Action::Print { reading: *reading },
            Stage::Done => Action::Finish,
            Stage::Failed { failure } => Action::Abort { failure: failure.duplicate() },
        }
    }

    /// Takes the outcome of the pending action and names the next one.
    ///
    /// Returns `None`, and changes nothing, when `event` cannot be the outcome
    /// of the pending action; once the probe is done or has failed that is
    /// every event.
    pub fn get(&mut self, event: Event) -> (next: Option<Action>)
        ensures
            final(self)@ == old(self)@.step(event@),
            match next {
                Some(action) => old(self)@.accepts(event@) && action@ == final(self)@.pending(),
                None => !old(self)@.accepts(event@),
            },
    {
        let next = match self.stage {
            Stage::OpenBus => match event {
                Event::Completed => Some(Stage::EnableSensor),
                Event::Failed { detail } => Some(
                    Stage::Failed {
                        failure: Failure::BusOpen {
                            device: self.config.i2c_device.clone(),
                            detail,
                        },
                    },
                ),
                _ => None,
            },
            Stage::EnableSensor => match event {
                Event::Completed => Some(Stage::SampleWhite),
                Event::Failed { .. } => Some(Stage::Failed { failure: Failure::SensorEnable }),
                _ => None,
            },
            Stage::SampleWhite => match event {
                Event::Read { bits } => Some(Stage::SampleLux { white: bits }),
                Event::Failed { .. } => Some(
                    Stage::Failed { failure: Failure::SensorRead { channel: Channel::White } },
                ),
                _ => None,
            },
            Stage::SampleLux { white } => match event {
                Event::Read { bits } => Some(
                    Stage::Print { reading: Reading { white, lux: bits } },
                ),
                Event::Failed { .. } => Some(
                    Stage::Failed { failure: Failure::SensorRead { channel: Channel::Lux } },
                ),
                _ => None,
            },
            Stage::Print { .. } => match event {
                Event::Completed => Some(Stage::Done),
                _ => None,
            },
            _ => None,
        };
        match next {
            Some(stage) => {
                self.stage = stage;
                Some(self.action())
            },
            None => None,
        }
    }
}

/// When all four operations succeed the probe prints exactly what it read,
/// white first, and is done.
pub proof fn law_probe_prints_what_it_read(config: ConfigView, reading: Reading)
    ensures
        ({
            let read = GetView::initial(config).get_all(
                seq![
                    EventView::Completed,
                    EventView::Completed,
                    EventView::Read { bits: reading.white },
                    EventView::Read { bits: reading.lux },
                ],
            );
            &&& read.pending() == (ActionView::Print { reading })
            &&& read.step(EventView::Completed).pending() == ActionView::Finish
        }),
{
    let start = GetView::initial(config);
    let events = seq![
        EventView::Completed,
        EventView::Completed,
        EventView::Read { bits: reading.white },
        EventView::Read { bits: reading.lux },
    ];
    assert(events.drop_last().drop_last().drop_last().drop_last() =~= Seq::empty());
    reveal_with_fuel(GetView::get_all, 5);
}

/// The first operation that fails ends the probe, and nothing is printed:
/// from then on, whatever comes, the one thing asked for is to give up with
/// the failure that names the operation.
pub proof fn law_probe_stops_at_first_failure(
    probe: GetView,
    detail: Seq<char>,
    later: Seq<EventView>,
)
    requires
        probe.accepts(EventView::Failed { detail }),
    ensures
        probe.step(EventView::Failed { detail }).get_all(later).pending() == (ActionView::Abort {
            failure: probe.failure(detail),
        }),
    decreases later.len(),
{
    if later.len() > 0 {
        law_probe_stops_at_first_failure(probe, detail, later.drop_last());
    }
}

} // verus!
