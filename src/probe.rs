use vstd::prelude::*;

verus! {

/// Outcome of one echo exchange with the target host.
///
/// A failed exchange (no address, timeout, send or receive error) is always
/// the all-zero value with `success == false`.
#[derive(Clone, Copy, Debug, PartialEq, Eq)]
pub struct ProbeResult {
    /// Round-trip time in microseconds; zero when the exchange failed.
    pub latency_us: u32,
    /// Time-to-live (or hop limit) of the reply; zero when the exchange failed.
    pub ttl: u8,
    pub success: bool,
}

impl ProbeResult {
    /// Well-formed: a failure carries no latency and no TTL.
    pub open spec fn wf(&self) -> bool {
        !self.success ==> self.latency_us == 0 && self.ttl == 0
    }

    /// The outcome of a failed exchange.
    pub fn failed() -> (r: ProbeResult)
        ensures
            !r.success,
            r.latency_us == 0,
            r.ttl == 0,
            r.wf(),
    {
        ProbeResult { latency_us: 0, ttl: 0, success: false }
    }

    /// The outcome of an answered exchange.
    pub fn reply(latency_us: u32, ttl: u8) -> (r: ProbeResult)
        ensures
            r.success,
            r.latency_us == latency_us,
            r.ttl == ttl,
            r.wf(),
    {
        ProbeResult { latency_us, ttl, success: true }
    }

    /// Collapses an optional reply (round trip in microseconds, TTL) into an
    /// outcome; a round trip beyond the `u32` range is held at `u32::MAX`.
    pub fn from_reply(reply: Option<(u128, u8)>) -> (r: ProbeResult)
        ensures
            r.wf(),
            match reply {
                None => r == ProbeResult { latency_us: 0, ttl: 0, success: false },
                Some((us, ttl)) => r.success && r.ttl == ttl && r.latency_us as int == (
                if us > u32::MAX as u128 { u32::MAX as int } else { us as int }),
            },
    {
        match reply {
            None => ProbeResult::failed(),
            Some((us, ttl)) => {
                let lat: u32 = if us > u32::MAX as u128 { u32::MAX } else { us as u32 };
                ProbeResult::reply(lat, ttl)
            },
        }
    }
}

} // verus!
