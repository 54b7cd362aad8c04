//! What a port reads from, and writes to, protocol messages.

use crate::time::{Duration, Instant, UNITS_PER_NANO};
use vstd::prelude::*;

verus! {

/// The identity of a port: the clock it belongs to and its number there.
#[derive(Clone, Copy, PartialEq, Eq, Structural, Debug)]
pub struct PortIdentity {
    /// The eight octets of the clock identity, most significant first.
    pub clock_identity: u64,
    pub port_number: u16,
}

/// A point in time as messages carry it.
#[derive(Clone, Copy, PartialEq, Eq, Structural, Debug)]
pub struct Timestamp {
    pub seconds: u64,
    pub nanos: u32,
}

/// A span of time as messages carry it: a count of 2^-16 ns.
#[derive(Clone, Copy, PartialEq, Eq, Structural, Debug)]
pub struct TimeInterval {
    pub scaled_nanos: i64,
}

/// The header fields that a port acts on.
#[derive(Clone, Copy, PartialEq, Eq, Structural, Debug)]
pub struct Header {
    pub source_port_identity: PortIdentity,
    pub two_step_flag: bool,
    pub sequence_id: u16,
    pub correction_field: TimeInterval,
    pub log_message_interval: i8,
}

#[derive(Clone, Copy, PartialEq, Eq, Structural, Debug)]
pub struct SyncMessage {
    pub header: Header,
    pub origin_timestamp: Timestamp,
}

#[derive(Clone, Copy, PartialEq, Eq, Structural, Debug)]
pub struct FollowUpMessage {
    pub header: Header,
    pub precise_origin_timestamp: Timestamp,
}

#[derive(Clone, Copy, PartialEq, Eq, Structural, Debug)]
pub struct DelayRespMessage {
    pub header: Header,
    pub receive_timestamp: Timestamp,
}

/// The fields of a delay request that its sender sets.
#[derive(Clone, Copy, PartialEq, Eq, Structural, Debug)]
pub struct DelayReqMessage {
    pub source_port_identity: PortIdentity,
    pub sequence_id: u16,
    pub log_message_interval: i8,
    pub origin_timestamp: Timestamp,
}

/// A received message.
#[derive(Clone, Copy, PartialEq, Eq, Structural, Debug)]
pub enum Message {
    Sync(SyncMessage),
    FollowUp(FollowUpMessage),
    DelayResp(DelayRespMessage),
    /// A message of any other kind.
    Other(Header),
}

/// The units from the epoch to a timestamp.
pub open spec fn timestamp_units(t: Timestamp) -> int {
    (t.seconds * 1_000_000_000 + t.nanos) * UNITS_PER_NANO
}

/// The units of a time interval.
pub open spec fn interval_units(i: TimeInterval) -> int {
    i.scaled_nanos * 0x1_0000
}

impl Timestamp {
    /// The instant that this timestamp denotes.
    pub fn to_instant(self) -> (instant: Instant)
        ensures
            instant@ == timestamp_units(self),
    {
        Instant {
            units: (self.seconds as i128 * 1_000_000_000 + self.nanos as i128) * UNITS_PER_NANO,
        }
    }
}

impl Default for Timestamp {
    fn default() -> (zero: Timestamp)
        ensures
            zero == (Timestamp { seconds: 0, nanos: 0 }),
    {
        Timestamp { seconds: 0, nanos: 0 }
    }
}

impl TimeInterval {
    /// The span that this interval denotes.
    pub fn to_duration(self) -> (span: Duration)
        ensures
            span@ == interval_units(self),
    {
        Duration { units: self.scaled_nanos as i128 * 0x1_0000 }
    }
}

impl Message {
    /// The header, whatever the kind of the message.
    pub open spec fn spec_header(self) -> Header {
        match self {
            Message::Sync(message) => message.header,
            Message::FollowUp(message) => message.header,
            Message::DelayResp(message) => message.header,
            Message::Other(header) => header,
        }
    }

    /// The header, whatever the kind of the message.
    pub fn header(&self) -> (header: Header)
        ensures
            header == self.spec_header(),
    {
        match self {
            Message::Sync(message) => message.header,
            Message::FollowUp(message) => message.header,
            Message::DelayResp(message) => message.header,
            Message::Other(header) => *header,
        }
    }
}

/// A timestamp denotes its seconds, of 10^9 ns each, and its nanoseconds, of 2^32
/// units each; an interval its count of 2^-16 ns.
pub proof fn law_wire_times(t: Timestamp, i: TimeInterval)
    ensures
        timestamp_units(t) == t.seconds * 4_294_967_296_000_000_000 + t.nanos * 4_294_967_296,
        interval_units(i) == i.scaled_nanos * 65_536,
{
}

/// Every message has the header that it was given.
pub proof fn law_headers(
    sync: SyncMessage,
    follow_up: FollowUpMessage,
    resp: DelayRespMessage,
    other: Header,
)
    ensures
        Message::Sync(sync).spec_header() == sync.header,
        Message::FollowUp(follow_up).spec_header() == follow_up.header,
        Message::DelayResp(resp).spec_header() == resp.header,
        Message::Other(other).spec_header() == other,
{
}

} // verus!
