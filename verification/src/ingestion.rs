//! The pure logic of the sensor ingestion path: a datagram's payload is
//! validated before it may be decoded, and a decoded sample replaces the
//! thermometer's state. The UDP loop around it receives a payload,
//! checks [`datagram_well_formed`], decodes only then, and commits the
//! sample with [`record_sample`]; anything else is dropped silently.

use vstd::prelude::*;

use crate::devices::{Celsius, SmartThermometer, ThermometerState};

verus! {

/// The one payload length the sensor protocol accepts: a single
/// big-endian IEEE-754 single-precision value.
pub const SAMPLE_PAYLOAD_LEN: usize = 4;

/// Whether a payload may be decoded at all. A truncated (or oversized)
/// payload is a protocol violation and must never be force-decoded.
pub fn datagram_well_formed(payload: &[u8]) -> (b: bool)
    ensures
        b == (payload@.len() == SAMPLE_PAYLOAD_LEN),
{
    payload.len() == SAMPLE_PAYLOAD_LEN
}

/// Commits a decoded sample: the reading replaces whatever state was
/// present, including `Off`; the thermometer's identity is untouched.
pub fn record_sample(thermo: &mut SmartThermometer, value: Celsius)
    ensures
        final(thermo).name == old(thermo).name,
        final(thermo).state == ThermometerState::Temperature(value),
{
    thermo.state = ThermometerState::Temperature(value);
}

} // verus!
