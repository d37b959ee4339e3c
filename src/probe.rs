//! Socket probes: the record of one timed send or connect attempt.
//!
//! The caller owns the sockets and the clock. It makes the attempt under a
//! bounded wait and hands over what happened; the probe turns that into a
//! timed, flagged outcome. A failed or timed-out attempt is data, never an
//! error that stops the run.

use vstd::prelude::*;

verus! {

/// The size of a UDP header, in bytes.
pub const UDP_HEADER_BYTES: u64 = 8;

/// The size of a TCP header, in bytes.
pub const TCP_HEADER_BYTES: u64 = 20;

/// The session overhead estimated on top of each TCP connection, in bytes.
pub const TCP_SESSION_OVERHEAD_BYTES: u64 = 32;

/// What a socket operation reported.
#[derive(Debug, Clone, Copy, PartialEq, Eq, Structural)]
pub enum IoResult {
    /// The operation completed; for a send, the number of bytes sent.
    Completed(u64),
    /// The operation failed (unreachable destination, refused connection).
    Failed,
    /// The bounded wait ran out before the operation completed.
    TimedOut,
}

/// The timed, flagged outcome of one attempt.
#[derive(Debug, Clone, Copy, PartialEq, Eq, Structural)]
pub struct ProbeOutcome {
    /// Time spent on the attempt, never more than the probe's timeout.
    pub elapsed_us: u64,
    /// Bytes delivered to the socket layer; 0 unless the attempt succeeded.
    pub bytes: u64,
    /// Length of the payload that was attempted.
    pub payload_len: u32,
    /// Whether the attempt completed within the timeout.
    pub success: bool,
    /// Whether the attempt ran into the timeout.
    pub timed_out: bool,
}

/// The outcome of an attempt that reported `result` after `elapsed_us`,
/// under a timeout of `timeout_us`.
pub open spec fn outcome_of(result: IoResult, elapsed_us: u64, timeout_us: u64, payload_len: u32) -> ProbeOutcome {
    let in_time = elapsed_us <= timeout_us;
    let success = in_time && result is Completed;
    ProbeOutcome {
        elapsed_us: if in_time { elapsed_us } else { timeout_us },
        bytes: if success { result->Completed_0 } else { 0 },
        payload_len,
        success,
        timed_out: !in_time || result is TimedOut,
    }
}

/// The per-attempt bookkeeping of short-lived UDP and TCP endpoints.
#[derive(Debug, Clone, Copy, PartialEq, Eq, Structural)]
pub struct SocketProbe {
    /// The bound on each attempt, in microseconds.
    pub timeout_us: u64,
}

impl SocketProbe {
    /// A probe whose attempts are bounded by `timeout_us`.
    pub fn new(timeout_us: u64) -> (r: SocketProbe)
        ensures
            r.timeout_us == timeout_us,
    {
        SocketProbe { timeout_us }
    }

    /// The outcome of sending a `payload_len`-byte datagram that reported
    /// `result` after `elapsed_us`. Anything but a completed send within the
    /// timeout is recorded with `success == false`, and the time recorded is
    /// never more than the timeout.
    pub fn send_udp(&self, payload_len: u32, result: IoResult, elapsed_us: u64) -> (r: ProbeOutcome)
        ensures
            r == outcome_of(result, elapsed_us, self.timeout_us, payload_len),
            r.elapsed_us <= self.timeout_us,
            !(result is Completed) ==> !r.success,
    {
        self.record(payload_len, result, elapsed_us)
    }

    /// The outcome of a TCP connect that reported `result` after
    /// `elapsed_us`, with the same rules as `send_udp`.
    pub fn connect_tcp(&self, result: IoResult, elapsed_us: u64) -> (r: ProbeOutcome)
        ensures
            r == outcome_of(result, elapsed_us, self.timeout_us, 0),
            r.elapsed_us <= self.timeout_us,
            !(result is Completed) ==> !r.success,
    {
        self.record(0, result, elapsed_us)
    }

    fn record(&self, payload_len: u32, result: IoResult, elapsed_us: u64) -> (r: ProbeOutcome)
        ensures
            r == outcome_of(result, elapsed_us, self.timeout_us, payload_len),
    {
        let in_time = elapsed_us <= self.timeout_us;
        let (success, bytes) = match result {
            IoResult::Completed(n) => if in_time { (true, n) } else { (false, 0) },
            _ => (false, 0),
        };
        let timed_out = match result {
            IoResult::TimedOut => true,
            _ => !in_time,
        };
        ProbeOutcome {
            elapsed_us: if in_time { elapsed_us } else { self.timeout_us },
            bytes,
            payload_len,
            success,
            timed_out,
        }
    }
}

/// The bytes a UDP attempt puts on the wire: the header plus the payload.
pub open spec fn udp_overhead(outcome: ProbeOutcome) -> int {
    UDP_HEADER_BYTES + outcome.payload_len
}

/// The UDP overhead of an attempt: header plus payload, in bytes.
pub fn udp_overhead_bytes(outcome: &ProbeOutcome) -> (r: u64)
    ensures
        r == udp_overhead(*outcome),
{
    UDP_HEADER_BYTES + outcome.payload_len as u64
}

} // verus!
