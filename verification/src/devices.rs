//! The device model: a smart socket, a smart thermometer, and the closed
//! sum of the two used wherever a room's contents are enumerated.

use vstd::prelude::*;

use crate::text::{tenths_seq, tenths_string};

verus! {

/// The fixed power draw a socket reports after an `on` command.
pub const SOCKET_ON_POWER: u64 = 100;

#[derive(Clone, Copy, PartialEq, Eq, Structural, Debug)]
pub enum SocketState {
    On,
    Off,
}

/// A temperature in tenths of a degree, the resolution this library
/// stores and renders readings at.
#[derive(Clone, Copy, PartialEq, Eq, Structural, Debug)]
pub struct Celsius {
    pub tenths: i64,
}

#[derive(Clone, Copy, PartialEq, Eq, Structural, Debug)]
pub enum ThermometerState {
    Off,
    Temperature(Celsius),
}

#[derive(Clone, Debug)]
pub struct SmartSocket {
    pub name: String,
    pub state: SocketState,
    pub power_consumption: u64,
}

impl Default for SmartSocket {
    fn default() -> (s: Self)
        ensures
            s.name@ == "TestSocket"@,
            s.state == SocketState::Off,
            s.power_consumption == 0,
    {
        SmartSocket {
            name: "TestSocket".to_owned(),
            state: SocketState::Off,
            power_consumption: 0,
        }
    }
}

#[derive(Clone, Debug)]
pub struct SmartThermometer {
    pub name: String,
    pub state: ThermometerState,
}

/// A closed sum over the device kinds; matching on it is exhaustive, so a
/// new kind cannot be skipped silently where devices are enumerated.
#[derive(Clone, Debug)]
pub enum Device {
    SmartSocket(SmartSocket),
    SmartThermometer(SmartThermometer),
}

impl Device {
    /// The display name of the wrapped device.
    pub open spec fn name_spec(&self) -> Seq<char> {
        match self {
            Device::SmartSocket(s) => s.name@,
            Device::SmartThermometer(t) => t.name@,
        }
    }

    pub fn name(&self) -> (n: &String)
        ensures
            n@ == self.name_spec(),
    {
        match self {
            Device::SmartSocket(s) => &s.name,
            Device::SmartThermometer(t) => &t.name,
        }
    }
}

/// The tag a socket state is rendered as.
pub open spec fn socket_state_seq(st: SocketState) -> Seq<char> {
    match st {
        SocketState::On => "On"@,
        SocketState::Off => "Off"@,
    }
}

pub fn socket_state_label(st: &SocketState) -> (s: &'static str)
    ensures
        s@ == socket_state_seq(*st),
{
    match st {
        SocketState::On => "On",
        SocketState::Off => "Off",
    }
}

/// The tag a thermometer state is rendered as: `Off`, or
/// `Temperature(v)` with the reading to one decimal place.
pub open spec fn thermometer_state_seq(st: ThermometerState) -> Seq<char> {
    match st {
        ThermometerState::Off => "Off"@,
        ThermometerState::Temperature(c) => "Temperature("@ + tenths_seq(c.tenths as int)
            + ")"@,
    }
}

pub fn thermometer_state_label(st: &ThermometerState) -> (s: String)
    ensures
        s@ == thermometer_state_seq(*st),
{
    match st {
        ThermometerState::Off => "Off".to_owned(),
        ThermometerState::Temperature(c) => {
            let mut s = "Temperature(".to_owned();
            let reading = tenths_string(c.tenths);
            s.append(reading.as_str());
            s.append(")");
            proof {
                assert(s@ =~= thermometer_state_seq(*st));
            }
            s
        },
    }
}

} // verus!
