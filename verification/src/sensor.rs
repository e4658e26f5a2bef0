//! What the light sensor measures, and the gauges that carry it.

use vstd::prelude::*;

verus! {

/// One of the two measurement channels of the sensor.
#[derive(Clone, Copy, Debug, PartialEq, Eq, Structural)]
pub enum Channel {
    White,
    Lux,
}

impl Channel {
    /// Name under which the channel's gauge is registered.
    pub open spec fn spec_gauge_name(self) -> Seq<char> {
        match self {
            Channel::White => "veml7700_white"@,
            Channel::Lux => "veml7700_lux"@,
        }
    }

    /// Help text registered with the channel's gauge.
    pub open spec fn spec_gauge_help(self) -> Seq<char> {
        match self {
            Channel::White => "VEML7700 abient light white"@,
            Channel::Lux => "VEML7700 abient light LUX"@,
        }
    }

    /// Name under which the channel's gauge is registered.
    pub fn gauge_name(self) -> (name: &'static str)
        ensures
            name@ == self.spec_gauge_name(),
    {
        match self {
            Channel::White => "veml7700_white",
            Channel::Lux => "veml7700_lux",
        }
    }

    /// Help text registered with the channel's gauge.
    pub fn gauge_help(self) -> (help: &'static str)
        ensures
            help@ == self.spec_gauge_help(),
    {
        match self {
            Channel::White => "VEML7700 abient light white",
            Channel::Lux => "VEML7700 abient light LUX",
        }
    }
}

/// One complete sample: both channels, read in the same request.
///
/// Each value is the IEEE 754 binary64 bit pattern of the number that the gauge
/// is set to. The library carries the patterns and never looks inside them.
#[derive(Clone, Copy, Debug, PartialEq, Eq, Structural)]
pub struct Reading {
    pub white: u64,
    pub lux: u64,
}

impl Reading {
    /// The value of one channel.
    pub open spec fn spec_channel(self, channel: Channel) -> u64 {
        match channel {
            Channel::White => self.white,
            Channel::Lux => self.lux,
        }
    }

    /// The value of one channel.
    pub fn channel(&self, channel: Channel) -> (bits: u64)
        ensures
            bits == self.spec_channel(channel),
    {
        match channel {
            Channel::White => self.white,
            Channel::Lux => self.lux,
        }
    }
}

} // verus!
