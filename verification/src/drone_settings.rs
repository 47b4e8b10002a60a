//! The rules a node follows besides routing.

use vstd::prelude::*;

verus! {

/// A span of time: whole seconds and the nanoseconds beyond them.
#[derive(Clone, Copy, Debug, PartialEq, Eq, Structural)]
pub struct SleepDuration {
    pub secs: u64,
    pub nanos: u32,
}

impl SleepDuration {
    /// No time at all.
    pub open spec fn is_zero_spec(self) -> bool {
        self.secs == 0 && self.nanos == 0
    }

    /// The span of no time.
    pub fn zero() -> (span: SleepDuration)
        ensures
            span == (SleepDuration { secs: 0, nanos: 0 }),
    {
        SleepDuration { secs: 0, nanos: 0 }
    }

    /// Whether the span is no time at all.
    pub fn is_zero(&self) -> (zero: bool)
        ensures
            zero == self.is_zero_spec(),
    {
        self.secs == 0 && self.nanos == 0
    }
}

/// Set of rules the node follows.
///
/// - `log_to_stdout`: report every sent, received or dropped packet (default: false).
/// - `sleep_duration`: how long the node waits before it sends a packet (default: zero).
/// - `await_queued_packets_on_crash`: on a crash, serve the packets already
///   received before stopping (default: true).
/// - `filter_packets`: filter fragments according to the current filter (default: true).
/// - `send_nack_on_filtered_packet`: answer a filtered fragment with a nack;
///   this can make nacks travel in circles (default: false).
/// - `quack`: overwrite the data of forwarded fragments (default: false).
#[derive(Clone, Copy, Debug, PartialEq, Eq, Structural)]
pub struct DroneSettings {
    pub log_to_stdout: bool,
    pub sleep_duration: SleepDuration,
    pub await_queued_packets_on_crash: bool,
    pub filter_packets: bool,
    pub send_nack_on_filtered_packet: bool,
    pub quack: bool,
}

impl Default for DroneSettings {
    fn default() -> (settings: DroneSettings)
        ensures
            settings == (DroneSettings {
                log_to_stdout: false,
                sleep_duration: SleepDuration { secs: 0, nanos: 0 },
                await_queued_packets_on_crash: true,
                filter_packets: true,
                send_nack_on_filtered_packet: false,
                quack: false,
            }),
    {
        DroneSettings {
            log_to_stdout: false,
            sleep_duration: SleepDuration::zero(),
            await_queued_packets_on_crash: true,
            filter_packets: true,
            send_nack_on_filtered_packet: false,
            quack: false,
        }
    }
}

} // verus!
