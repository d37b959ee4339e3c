//! Network performance: throughput from a burst of sends, round-trip time
//! from one more send, and the estimates that stand beside them.
//!
//! Sampling alternates outside work (a send, a look at the clock) with
//! decisions. The caller does the work; `ThroughputSampler` takes each
//! result and says whether to send again.

use vstd::prelude::*;

verus! {

/// The highest throughput reported, in kbit/s (100 Mbit/s).
pub const THROUGHPUT_CAP_KBPS: u64 = 100_000;

/// The TCP throughput estimate, in kbit/s (95 Mbit/s). TCP throughput is
/// not measured; this fixed figure stands for it.
pub const TCP_THROUGHPUT_ESTIMATE_KBPS: u64 = 95_000;

/// The packet-loss estimate, in parts per million (0.1%).
pub const PACKET_LOSS_ESTIMATE_PPM: u32 = 1_000;

/// The concurrent-connection capacity estimate.
pub const CONCURRENT_CONNECTIONS_ESTIMATE: u32 = 10;

/// The successful-connection count estimate. Connection statistics are not
/// counted from a run's attempts; these fixed figures stand for them.
pub const SUCCESSFUL_CONNECTIONS_ESTIMATE: u32 = 95;

/// The failed-connection count estimate.
pub const FAILED_CONNECTIONS_ESTIMATE: u32 = 3;

/// The timed-out-connection count estimate.
pub const TIMEOUT_CONNECTIONS_ESTIMATE: u32 = 2;

/// The average handshake time estimate, in microseconds (8.5 ms).
pub const AVERAGE_HANDSHAKE_ESTIMATE_US: u64 = 8_500;

/// A loss rate of 1.0, in parts per million.
pub const MAX_LOSS_PPM: u32 = 1_000_000;

/// The size of each datagram of the throughput burst, in bytes.
pub const THROUGHPUT_PAYLOAD_BYTES: usize = 1024;

/// The time budget of the throughput burst, in microseconds (100 ms).
pub const THROUGHPUT_BUDGET_US: u64 = 100_000;

/// Throughput, round-trip time, loss and connection capacity of one run.
#[derive(Debug, Clone, Copy, PartialEq, Eq, Structural)]
pub struct NetworkPerformance {
    /// Measured UDP throughput, in kbit/s.
    pub udp_throughput_kbps: u64,
    /// Estimated TCP throughput, in kbit/s.
    pub tcp_throughput_kbps: u64,
    /// Estimated packet loss, in parts per million.
    pub packet_loss_ppm: u32,
    /// Measured round-trip time, in microseconds.
    pub round_trip_time_us: u64,
    /// Estimated number of concurrent connections.
    pub concurrent_connections: u32,
}

/// `bytes` sent over `elapsed_us`, in kbit/s, capped at
/// `THROUGHPUT_CAP_KBPS`; an instant burst counts as the cap.
pub open spec fn throughput_kbps_spec(bytes: int, elapsed_us: int) -> int {
    if elapsed_us == 0 {
        THROUGHPUT_CAP_KBPS as int
    } else {
        let rate = bytes * 8000 / elapsed_us;
        if rate < THROUGHPUT_CAP_KBPS { rate } else { THROUGHPUT_CAP_KBPS as int }
    }
}

/// What the sampler asks of the caller next.
#[derive(Debug, Clone, Copy, PartialEq, Eq, Structural)]
pub enum SamplerAction {
    /// Send one more datagram and report the result.
    Send,
    /// The burst is over.
    Stop,
}

/// The running tally of a throughput burst.
#[derive(Debug, Clone, Copy, PartialEq, Eq, Structural)]
pub struct ThroughputSampler {
    /// The time budget of the burst, in microseconds.
    pub budget_us: u64,
    /// Bytes reported sent so far.
    pub bytes_sent: u64,
    /// Sends that completed so far.
    pub packets_sent: u64,
    /// Whether a send failed, which ends the burst.
    pub stopped: bool,
}

impl ThroughputSampler {
    /// A fresh tally for a burst of `budget_us`.
    pub fn new(budget_us: u64) -> (r: ThroughputSampler)
        ensures
            r == (ThroughputSampler { budget_us, bytes_sent: 0, packets_sent: 0, stopped: false }),
    {
        ThroughputSampler { budget_us, bytes_sent: 0, packets_sent: 0, stopped: false }
    }

    /// Whether to send again, `elapsed_us` into the burst: while no send has
    /// failed and the budget has not run out.
    pub fn next_action(&self, elapsed_us: u64) -> (r: SamplerAction)
        ensures
            r == (if !self.stopped && elapsed_us < self.budget_us {
                SamplerAction::Send
            } else {
                SamplerAction::Stop
            }),
    {
        if !self.stopped && elapsed_us < self.budget_us {
            SamplerAction::Send
        } else {
            SamplerAction::Stop
        }
    }

    /// Takes the result of one send: `Some(n)` for `n` bytes sent, `None`
    /// for a failure, which ends the burst. A tally that would overflow ends
    /// the burst too, unchanged.
    pub fn record_send(&mut self, sent: Option<u64>)
        ensures
            final(self).budget_us == old(self).budget_us,
            match sent {
                Some(n) => if old(self).bytes_sent + n <= u64::MAX && old(self).packets_sent < u64::MAX {
                    final(self).bytes_sent == old(self).bytes_sent + n
                        && final(self).packets_sent == old(self).packets_sent + 1
                        && final(self).stopped == old(self).stopped
                } else {
                    final(self).bytes_sent == old(self).bytes_sent
                        && final(self).packets_sent == old(self).packets_sent
                        && final(self).stopped
                },
                None => final(self).bytes_sent == old(self).bytes_sent
                    && final(self).packets_sent == old(self).packets_sent
                    && final(self).stopped,
            },
    {
        match sent {
            Some(n) => {
                if n <= u64::MAX - self.bytes_sent && self.packets_sent < u64::MAX {
                    self.bytes_sent = self.bytes_sent + n;
                    self.packets_sent = self.packets_sent + 1;
                } else {
                    self.stopped = true;
                }
            },
            None => {
                self.stopped = true;
            },
        }
    }

    /// The throughput of the burst after `elapsed_us`, in kbit/s:
    /// `bits / elapsed`, capped at `THROUGHPUT_CAP_KBPS`.
    pub fn throughput_kbps(&self, elapsed_us: u64) -> (r: u64)
        ensures
            r == throughput_kbps_spec(self.bytes_sent as int, elapsed_us as int),
            r <= THROUGHPUT_CAP_KBPS,
    {
        if elapsed_us == 0 {
            THROUGHPUT_CAP_KBPS
        } else {
            let rate: u128 = (self.bytes_sent as u128) * 8000 / (elapsed_us as u128);
            if rate < THROUGHPUT_CAP_KBPS as u128 {
                rate as u64
            } else {
                THROUGHPUT_CAP_KBPS
            }
        }
    }
}

impl NetworkPerformance {
    /// The loss rate lies in `[0, 1]`.
    pub open spec fn valid(&self) -> bool {
        self.packet_loss_ppm <= MAX_LOSS_PPM
    }

    /// Whether the loss rate lies in `[0, 1]`.
    pub fn is_valid(&self) -> (r: bool)
        ensures
            r == self.valid(),
    {
        self.packet_loss_ppm <= MAX_LOSS_PPM
    }

    /// The performance record of a run whose UDP burst reached
    /// `udp_throughput_kbps` and whose round-trip send took `rtt_us`; TCP
    /// throughput, loss and capacity are the fixed estimates.
    pub fn from_measurements(udp_throughput_kbps: u64, rtt_us: u64) -> (r: NetworkPerformance)
        ensures
            r == (NetworkPerformance {
                udp_throughput_kbps,
                tcp_throughput_kbps: TCP_THROUGHPUT_ESTIMATE_KBPS,
                packet_loss_ppm: PACKET_LOSS_ESTIMATE_PPM,
                round_trip_time_us: rtt_us,
                concurrent_connections: CONCURRENT_CONNECTIONS_ESTIMATE,
            }),
            r.valid(),
    {
        NetworkPerformance {
            udp_throughput_kbps,
            tcp_throughput_kbps: TCP_THROUGHPUT_ESTIMATE_KBPS,
            packet_loss_ppm: PACKET_LOSS_ESTIMATE_PPM,
            round_trip_time_us: rtt_us,
            concurrent_connections: CONCURRENT_CONNECTIONS_ESTIMATE,
        }
    }
}

} // verus!
