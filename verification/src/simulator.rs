//! The sensor simulator's sampling logic: temperature samples drawn
//! from a bounded realistic range. The sending loop around it draws a
//! sample with [`UdpThermometerSimulator::next_sample`], encodes it, and
//! sends it to the configured destination on a fixed period.

use vstd::prelude::*;

use rand::Rng;

use crate::devices::Celsius;

verus! {

/// The lower bound of a simulated sample, in tenths of a degree.
pub const MIN_SAMPLE_TENTHS: i64 = 150;

/// The exclusive upper bound of a simulated sample, in tenths of a degree.
pub const MAX_SAMPLE_TENTHS: i64 = 300;

/// Relies on rand::Rng::gen_range over a half-open integer range, with
/// rand::thread_rng as the generator: the sample lies in [lo, hi).
/// gen_range panics on an empty range, so one is required non-empty.
#[verifier::external_body]
fn random_tenths(lo: i64, hi: i64) -> (r: i64)
    requires
        lo < hi,
    ensures
        lo <= r < hi,
{
    rand::thread_rng().gen_range(lo..hi)
}

/// A periodic emitter of simulated temperature samples, decoupled from
/// the ingestion side: it only knows the destination it sends to.
pub struct UdpThermometerSimulator {
    destination: String,
}

impl UdpThermometerSimulator {
    /// The configured destination address, as the simulator knows it.
    pub closed spec fn destination_spec(&self) -> Seq<char> {
        self.destination@
    }

    pub fn new(destination: &str) -> (s: Self)
        ensures
            s.destination_spec() == destination@,
    {
        UdpThermometerSimulator { destination: destination.to_owned() }
    }

    /// The configured destination address text.
    pub fn destination(&self) -> (d: &str)
        ensures
            d@ == self.destination_spec(),
    {
        self.destination.as_str()
    }

    /// Draws the next sample, always within the simulator's bounded
    /// realistic range.
    pub fn next_sample(&self) -> (c: Celsius)
        ensures
            MIN_SAMPLE_TENTHS <= c.tenths < MAX_SAMPLE_TENTHS,
    {
        Celsius { tenths: random_tenths(MIN_SAMPLE_TENTHS, MAX_SAMPLE_TENTHS) }
    }
}

} // verus!
