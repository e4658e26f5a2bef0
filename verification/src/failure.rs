//! What can go wrong, and the text an operator reads about it.

use crate::sensor::Channel;
use vstd::prelude::*;

verus! {

/// How `std` renders a path with `{:?}`: quoted, with its escapes.
pub uninterp spec fn path_debug(device: Seq<char>) -> Seq<char>;

/// Calls the `Debug` implementation of `std::path::Path` through `format!`.
/// The contract only gives its text a name; nothing is claimed about which
/// characters are escaped.
#[verifier::external_body]
fn quote_path(device: &str) -> (quoted: String)
    ensures
        quoted@ == path_debug(device@),
{
    format!("{:?}", std::path::Path::new(device))
}

/// A failure of startup or of one sample.
#[derive(Clone, Debug, PartialEq, Eq)]
pub enum Failure {
    /// A gauge could not be registered; `detail` is the registry's report.
    GaugeRegistration { detail: String },
    /// The bus device could not be opened; `detail` is the system's report.
    BusOpen { device: String, detail: String },
    /// The sensor did not accept activation.
    SensorEnable,
    /// A bus transaction for one channel failed.
    SensorRead { channel: Channel },
    /// The scrape-serving side could not bind or listen; `detail` is its report.
    Trigger { detail: String },
}

/// Mathematical value of a [`Failure`].
pub enum FailureView {
    GaugeRegistration { detail: Seq<char> },
    BusOpen { device: Seq<char>, detail: Seq<char> },
    SensorEnable,
    SensorRead { channel: Channel },
    Trigger { detail: Seq<char> },
}

impl FailureView {
    /// The text shown to the operator.
    pub open spec fn message(self) -> Seq<char> {
        match self {
            FailureView::GaugeRegistration { detail } => detail,
            FailureView::BusOpen { device, detail } => "Cannot initialize i2c device "@
                + path_debug(device) + ": "@ + detail,
            FailureView::SensorEnable => "Cannot enable sensor"@,
            FailureView::SensorRead { channel: Channel::White } => "Cannot read white from sensor"@,
            FailureView::SensorRead { channel: Channel::Lux } => "Cannot read LUX from sensor"@,
            FailureView::Trigger { detail } => detail,
        }
    }
}

impl View for Failure {
    type V = FailureView;

    open spec fn view(&self) -> FailureView {
        match self {
            Failure::GaugeRegistration { detail } => FailureView::GaugeRegistration {
                detail: detail@,
            },
            Failure::BusOpen { device, detail } => FailureView::BusOpen {
                device: device@,
                detail: detail@,
            },
            Failure::SensorEnable => FailureView::SensorEnable,
            Failure::SensorRead { channel } => FailureView::SensorRead { channel: *channel },
            Failure::Trigger { detail } => FailureView::Trigger { detail: detail@ },
        }
    }
}

impl Failure {
    /// The text shown to the operator.
    pub fn message(&self) -> (text: String)
        ensures
            text@ == self@.message(),
    {
        match self {
            Failure::GaugeRegistration { detail } => detail.clone(),
            Failure::BusOpen { device, detail } => {
                let quoted = quote_path(device.as_str());
                let mut text = String::from_str("Cannot initialize i2c device ");
                text.append(quoted.as_str());
                text.append(": ");
                text.append(detail.as_str());
                text
            },
            Failure::SensorEnable => String::from_str("Cannot enable sensor"),
            Failure::SensorRead { channel: Channel::White } => String::from_str(
                "Cannot read white from sensor",
            ),
            Failure::SensorRead { channel: Channel::Lux } => String::from_str(
                "Cannot read LUX from sensor",
            ),
            Failure::Trigger { detail } => detail.clone(),
        }
    }

    /// A second value equal to this one.
    pub fn duplicate(&self) -> (copy: Failure)
        ensures
            copy@ == self@,
    {
        match self {
            Failure::GaugeRegistration { detail } => Failure::GaugeRegistration {
                detail: detail.clone(),
            },
            Failure::BusOpen { device, detail } => Failure::BusOpen {
                device: device.clone(),
                detail: detail.clone(),
            },
            Failure::SensorEnable => Failure::SensorEnable,
            Failure::SensorRead { channel } => Failure::SensorRead { channel: *channel },
            Failure::Trigger { detail } => Failure::Trigger { detail: detail.clone() },
        }
    }
}

} // verus!
