//! Instants in time: a normalized UTC instant, and an instant as read on a
//! clock at a fixed offset from UTC.
use vstd::prelude::*;

verus! {

/// Largest magnitude, in seconds, of an offset from UTC (exclusive): less
/// than a full day either way.
pub const MAX_OFFSET_SECS: i32 = 86_400;

/// An instant in UTC: whole seconds since the Unix epoch and the nanoseconds
/// past them. A leap second is written as a second whose nanoseconds reach
/// past 999,999,999.
#[derive(Clone, Copy, Debug, PartialEq, Eq, Structural)]
pub struct Timestamp {
    /// Whole seconds since 1970-01-01T00:00:00Z.
    pub secs: i64,
    /// Nanoseconds past `secs`.
    pub nanos: u32,
}

impl Timestamp {
    /// `self` comes strictly before `other`: seconds first, then nanoseconds.
    pub open spec fn spec_before(self, other: Timestamp) -> bool {
        self.secs < other.secs || (self.secs == other.secs && self.nanos < other.nanos)
    }

    /// Whether `self` comes strictly before `other`.
    pub fn before(&self, other: &Timestamp) -> (r: bool)
        ensures
            r == self.spec_before(*other),
    {
        self.secs < other.secs || (self.secs == other.secs && self.nanos < other.nanos)
    }
}

/// The UTC instant of a clock reading `local` taken at `offset` seconds east
/// of UTC.
pub open spec fn normalized(local: Timestamp, offset: int) -> Timestamp {
    Timestamp { secs: (local.secs - offset) as i64, nanos: local.nanos }
}

/// An offset and a clock reading that together name an instant that a
/// [`Timestamp`] can hold.
pub open spec fn zoned_in_range(local: Timestamp, offset: int) -> bool {
    &&& -MAX_OFFSET_SECS < offset < MAX_OFFSET_SECS
    &&& i64::MIN <= local.secs - offset <= i64::MAX
}

/// An instant as read on a clock at a fixed offset from UTC.
#[derive(Clone, Copy, Debug)]
pub struct ZonedTimestamp {
    local: Timestamp,
    offset_secs: i32,
}

impl ZonedTimestamp {
    #[verifier::type_invariant]
    spec fn in_range(self) -> bool {
        zoned_in_range(self.local, self.offset_secs as int)
    }

    /// The clock reading.
    pub closed spec fn spec_local(self) -> Timestamp {
        self.local
    }

    /// Seconds east of UTC at which the clock was read.
    pub closed spec fn spec_offset(self) -> int {
        self.offset_secs as int
    }

    /// The instant that reads `local` on a clock `offset_secs` seconds east
    /// of UTC. `None` when the offset is a day or more either way, or when
    /// the UTC instant falls outside what a [`Timestamp`] holds.
    pub fn new(local: Timestamp, offset_secs: i32) -> (r: Option<ZonedTimestamp>)
        ensures
            r is Some <==> zoned_in_range(local, offset_secs as int),
            r matches Some(z) ==> z.spec_local() == local && z.spec_offset() == offset_secs,
    {
        if offset_secs <= -MAX_OFFSET_SECS || offset_secs >= MAX_OFFSET_SECS {
            return None;
        }
        if offset_secs > 0 && local.secs < i64::MIN + offset_secs as i64 {
            return None;
        }
        if offset_secs < 0 && local.secs > i64::MAX + offset_secs as i64 {
            return None;
        }
        Some(ZonedTimestamp { local, offset_secs })
    }

    /// A UTC instant seen as a clock reading at offset zero.
    pub fn from_utc(t: Timestamp) -> (r: ZonedTimestamp)
        ensures
            r.spec_local() == t,
            r.spec_offset() == 0,
    {
        ZonedTimestamp { local: t, offset_secs: 0 }
    }

    /// The clock reading.
    pub fn local(&self) -> (r: Timestamp)
        ensures
            r == self.spec_local(),
    {
        self.local
    }

    /// Seconds east of UTC.
    pub fn offset_secs(&self) -> (r: i32)
        ensures
            r as int == self.spec_offset(),
    {
        self.offset_secs
    }

    /// The same instant in UTC: the clock reading less the offset.
    pub fn to_utc(&self) -> (r: Timestamp)
        ensures
            zoned_in_range(self.spec_local(), self.spec_offset()),
            r == normalized(self.spec_local(), self.spec_offset()),
    {
        proof {
            use_type_invariant(self);
        }
        Timestamp { secs: self.local.secs - self.offset_secs as i64, nanos: self.local.nanos }
    }
}

/// Normalizing an instant that is already in UTC leaves it as it is, so
/// normalizing twice gives what normalizing once gave.
pub proof fn lemma_normalize_idempotent(local: Timestamp, offset: int)
    requires
        zoned_in_range(local, offset),
    ensures
        zoned_in_range(normalized(local, offset), 0),
        normalized(normalized(local, offset), 0) == normalized(local, offset),
{
}

/// Relies on chrono's `Utc::now`: the current time, read back through
/// `timestamp` (whole seconds since the epoch) and `timestamp_subsec_nanos`.
/// `Utc::now` refuses a clock before the epoch and builds the instant from a
/// `Duration`, whose nanoseconds stay below one second.
#[verifier::external_body]
pub(crate) fn utc_now() -> (r: Timestamp)
    ensures
        r.secs >= 0,
        r.nanos < 1_000_000_000,
{
    let now = chrono::Utc::now();
    Timestamp { secs: now.timestamp(), nanos: now.timestamp_subsec_nanos() }
}

} // verus!
