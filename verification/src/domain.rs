//! The packets and values that the agent and the proxy exchange.
use vstd::prelude::*;

verus! {

/// How the payload of a data packet is protected.
#[derive(Debug, Clone)]
pub enum Encryption {
    /// Sent as it is.
    Plain,
    /// Encrypted with AES under this key.
    Aes(Vec<u8>),
}

impl Default for Encryption {
    fn default() -> (e: Self)
        ensures
            e is Plain,
    {
        Encryption::Plain
    }
}

/// The kind of tunnel the agent asks the proxy to open.
#[derive(Debug, Clone, Copy, PartialEq, Eq, Structural)]
pub enum TunnelType {
    /// A TCP tunnel, kept alive or not.
    Tcp { keepalive: bool },
    /// A UDP tunnel.
    Udp,
}

/// A destination: a host name with a port, or an IP socket address.
#[derive(Debug, Clone)]
pub enum UnifiedAddress {
    /// A host name and a port.
    Domain { host: String, port: u16 },
    /// An IPv4 address and a port.
    Ipv4 { ip: [u8; 4], port: u16 },
    /// An IPv6 address and a port.
    Ipv6 { ip: [u8; 16], port: u16 },
}

/// The agent's request to open a tunnel to `dst_address`.
#[derive(Debug, Clone)]
pub struct TunnelInitRequest {
    pub agent_encryption: Encryption,
    pub auth_token: String,
    pub dst_address: UnifiedAddress,
    pub tunnel_type: TunnelType,
}

/// The proxy's answer to a tunnel request.
#[derive(Debug, Clone)]
pub struct TunnelInitResponse {
    pub proxy_encryption: Encryption,
}

/// A point in time in UTC: whole seconds since the Unix epoch and the
/// nanoseconds within that second.
#[derive(Debug, Clone, Copy, PartialEq, Eq, Structural)]
pub struct Timestamp {
    pub secs: i64,
    pub nanos: u32,
}

/// The bound on the seconds of a timestamp: no date that `chrono` can
/// represent lies further than this from the epoch.
pub const TIMESTAMP_SECS_BOUND: i64 = 10000000000000;

/// One second in nanoseconds.
pub const NANOS_PER_SEC: u32 = 1000000000;

impl Timestamp {
    /// A timestamp within the representable range, with fewer nanoseconds
    /// than make a second.
    pub open spec fn wf(self) -> bool {
        &&& -TIMESTAMP_SECS_BOUND <= self.secs <= TIMESTAMP_SECS_BOUND
        &&& self.nanos < NANOS_PER_SEC
    }

    /// The timestamp in nanoseconds since the epoch.
    pub open spec fn total_nanos(self) -> int {
        self.secs * 1000000000 + self.nanos
    }

    /// The whole seconds from `earlier` to `self`, truncated toward zero
    /// (negative when `earlier` is later).
    pub open spec fn spec_whole_seconds_since(self, earlier: Timestamp) -> int {
        let d = self.total_nanos() - earlier.total_nanos();
        if d >= 0 {
            d / 1000000000
        } else {
            -((-d) / 1000000000)
        }
    }

    /// The whole seconds from `earlier` to `self`, truncated toward zero, as
    /// `(self - earlier).num_seconds()` gives it for `chrono` date-times.
    pub fn whole_seconds_since(&self, earlier: &Timestamp) -> (s: i64)
        requires
            self.wf(),
            earlier.wf(),
        ensures
            s == self.spec_whole_seconds_since(*earlier),
    {
        let ds: i64 = self.secs - earlier.secs;
        if self.nanos >= earlier.nanos {
            if ds < 0 && self.nanos > earlier.nanos {
                ds + 1
            } else {
                ds
            }
        } else {
            if ds > 0 {
                ds - 1
            } else {
                ds
            }
        }
    }

    /// Whether `self` is earlier than `other`.
    pub open spec fn spec_lt(self, other: Timestamp) -> bool {
        self.secs < other.secs || (self.secs == other.secs && self.nanos < other.nanos)
    }

    /// Whether `self` is not later than `other`.
    pub open spec fn spec_le(self, other: Timestamp) -> bool {
        !other.spec_lt(self)
    }

    /// Whether `self` is not later than `other`.
    pub fn le(&self, other: &Timestamp) -> (b: bool)
        ensures
            b == self.spec_le(*other),
    {
        self.secs < other.secs || (self.secs == other.secs && self.nanos <= other.nanos)
    }
}

/// Swapping the two times negates the whole seconds between them, and a
/// later time is never fewer whole seconds after a given time than an earlier
/// one.
pub proof fn lemma_whole_seconds_laws(a: Timestamp, b: Timestamp, later: Timestamp)
    ensures
        a.spec_whole_seconds_since(b) == -b.spec_whole_seconds_since(a),
        a.total_nanos() <= later.total_nanos() ==> a.spec_whole_seconds_since(b)
            <= later.spec_whole_seconds_since(b),
{
    let d = a.total_nanos() - b.total_nanos();
    let e = later.total_nanos() - b.total_nanos();
    if d >= 0 && e >= 0 {
        if d <= e {
            vstd::arithmetic::div_mod::lemma_div_is_ordered(d, e, 1000000000);
        }
    } else if d < 0 && e < 0 {
        if d <= e {
            vstd::arithmetic::div_mod::lemma_div_is_ordered(-e, -d, 1000000000);
        }
    }
}

/// `chrono::Utc::now`, taken apart into seconds and nanoseconds. The clock
/// decides the value; every outcome lies at or after the epoch and within
/// `chrono`'s range, with fewer nanoseconds than make a second.
#[verifier::external_body]
pub(crate) fn utc_now() -> (t: Timestamp)
    ensures
        t.wf(),
        t.secs >= 0,
{
    let now = chrono::Utc::now();
    Timestamp { secs: now.timestamp(), nanos: now.timestamp_subsec_nanos() }
}

/// A heartbeat sent by the agent.
#[derive(Debug, Clone, Copy)]
pub struct HeartbeatPing {
    pub heartbeat_time: Timestamp,
}

impl Default for HeartbeatPing {
    /// A heartbeat stamped with the current time.
    fn default() -> (p: Self)
        ensures
            p.heartbeat_time.wf(),
    {
        HeartbeatPing { heartbeat_time: utc_now() }
    }
}

/// A heartbeat answered by the proxy.
#[derive(Debug, Clone, Copy)]
pub struct HeartbeatPong {
    pub heartbeat_time: Timestamp,
}

impl Default for HeartbeatPong {
    /// A heartbeat stamped with the current time.
    fn default() -> (p: Self)
        ensures
            p.heartbeat_time.wf(),
    {
        HeartbeatPong { heartbeat_time: utc_now() }
    }
}

/// A control packet sent by the agent.
#[derive(Debug, Clone)]
pub enum AgentControlPacket {
    TunnelInit(TunnelInitRequest),
    Heartbeat(HeartbeatPing),
}

/// A control packet sent by the proxy; a tunnel answer carries the user's
/// auth token.
#[derive(Debug)]
pub enum ProxyControlPacket {
    TunnelInit((String, TunnelInitResponse)),
    Heartbeat(HeartbeatPong),
}

/// A data packet sent by the agent.
#[derive(Debug, Clone)]
pub enum AgentDataPacket {
    Tcp(Vec<u8>),
    Udp { destination_address: UnifiedAddress, payload: Vec<u8> },
}

/// A data packet sent by the proxy.
#[derive(Debug, Clone)]
pub enum ProxyDataPacket {
    Tcp(Vec<u8>),
    Udp { destination_address: UnifiedAddress, payload: Vec<u8> },
}

} // verus!
