//! Wall-clock instants as integers.
//!
//! The rules of a room compare and store times but never measure them, so an
//! instant is held as a signed count of nanoseconds relative to the Unix epoch.
//! Reading the system clock is the only step that leaves verified code.

use std::time::SystemTime;
use vstd::prelude::*;

verus! {

/// Nanoseconds in one second.
pub const NANOS_PER_SEC: i128 = 1_000_000_000;

/// Why a time could not be used.
#[derive(Clone, Copy, PartialEq, Eq, Debug, Structural)]
pub enum ClockError {
    /// The clock reads earlier than the Unix epoch, so no timestamp can be given.
    BeforeEpoch,
    /// The clock reads earlier than an instant recorded before.
    WentBackwards,
}

/// A point on the wall clock: nanoseconds since the Unix epoch, negative before it.
#[derive(Clone, Copy, PartialEq, Eq, Debug, Structural)]
pub struct Instant {
    pub nanos: i128,
}

/// How far a clock reading lies from the Unix epoch, and on which side.
#[derive(Clone, Copy, PartialEq, Eq, Debug, Structural)]
pub struct EpochOffset {
    /// Whether the reading is earlier than the epoch.
    pub earlier: bool,
    /// Whole seconds of the distance.
    pub secs: u64,
    /// The rest of the distance, in nanoseconds.
    pub subsec_nanos: u32,
}

impl EpochOffset {
    /// The signed nanosecond count this offset stands for.
    pub open spec fn signed_nanos(self) -> int {
        let distance = self.secs as int * NANOS_PER_SEC as int + self.subsec_nanos as int;
        if self.earlier {
            -distance
        } else {
            distance
        }
    }
}

#[verifier::external_type_specification]
#[verifier::external_body]
pub struct ExSystemTime(SystemTime);

/// `SystemTime::now`. The reading depends on the machine: nothing is claimed of it.
#[verifier::external_body]
fn read_system_clock() -> (reading: SystemTime) {
    SystemTime::now()
}

/// `SystemTime::duration_since`, taken against `UNIX_EPOCH`, with the `Duration`
/// it yields on either side split into whole seconds and the nanoseconds left.
/// Nothing is claimed of the values.
#[verifier::external_body]
fn offset_from_epoch(reading: &SystemTime) -> (offset: EpochOffset) {
    match reading.duration_since(std::time::UNIX_EPOCH) {
        Ok(later) => EpochOffset {
            earlier: false,
            secs: later.as_secs(),
            subsec_nanos: later.subsec_nanos(),
        },
        Err(gap) => EpochOffset {
            earlier: true,
            secs: gap.duration().as_secs(),
            subsec_nanos: gap.duration().subsec_nanos(),
        },
    }
}

impl Instant {
    /// The instant that lies `offset` from the epoch.
    pub fn from_offset(offset: EpochOffset) -> (at: Instant)
        ensures
            at.nanos == offset.signed_nanos(),
    {
        let secs: i128 = offset.secs as i128;
        let rest: i128 = offset.subsec_nanos as i128;
        assert(0 <= secs * 1_000_000_000 <= 0xffff_ffff_ffff_ffff * 1_000_000_000) by (nonlinear_arith)
            requires
                0 <= secs <= 0xffff_ffff_ffff_ffff,
        ;
        let distance: i128 = secs * NANOS_PER_SEC + rest;
        if offset.earlier {
            Instant { nanos: -distance }
        } else {
            Instant { nanos: distance }
        }
    }

    /// The instant `secs` whole seconds after the epoch.
    pub fn from_secs(secs: u64) -> (at: Instant)
        ensures
            at.nanos == secs as int * NANOS_PER_SEC as int,
    {
        Instant::from_offset(EpochOffset { earlier: false, secs, subsec_nanos: 0 })
    }

    /// Reads the system clock: the instant that lies at the offset from the
    /// epoch that the clock gives. Which offset that is, is for the clock to say.
    pub fn now() -> (at: Instant)
        ensures
            exists|offset: EpochOffset| at.nanos == offset.signed_nanos(),
    {
        let reading = read_system_clock();
        let offset = offset_from_epoch(&reading);
        let at = Instant::from_offset(offset);
        assert(at.nanos == offset.signed_nanos());
        at
    }

    /// Whether a timestamp counted from the epoch can be given for this instant.
    pub open spec fn spec_is_timestamp(self) -> bool {
        self.nanos >= 0
    }

    /// Whether a timestamp counted from the epoch can be given for this instant.
    #[verifier::when_used_as_spec(spec_is_timestamp)]
    pub fn is_timestamp(self) -> (yes: bool)
        ensures
            yes == self.spec_is_timestamp(),
    {
        self.nanos >= 0
    }
}

} // verus!
