//! Temporal quantification: the monotonic clock and the wall clock.
//!
//! The hardware counter behind the monotonic clock is 32 bits wide, ticks
//! roughly 18.2 times a second and resets to zero at local midnight.
//! [`MonotonicClock`] turns its raw readings into a cumulative 64-bit tick
//! count by detecting each reset and adding a day's worth of ticks to a
//! running offset.  [`Instant`] is a snapshot of that cumulative count;
//! [`SystemTime`] is a wall-clock snapshot counted in seconds since the
//! Unix epoch, rebuilt from an (hour, minute, second) reading.

use vstd::prelude::*;

verus! {

/// Ticks the hardware counter accumulates in one day; the amount by which
/// the counter regresses when it resets at midnight.
pub const DAY_TICKS: u64 = 0x1800B0;

/// Nominal tick rate used for all tick/second conversions.
pub const TICKS_PER_SECOND: u64 = 18;

/// Length of one tick in nanoseconds, as fixed by the conversion design.
pub const NANOS_PER_TICK: u64 = 55_000_000;

/// Nanoseconds in one second; a well-formed [`Duration`] keeps its
/// sub-second remainder below this.
pub const NANOS_PER_SECOND: u32 = 1_000_000_000;

/// Seconds from the Unix epoch to the start of the single calendar day the
/// wall clock is anchored to.
pub const DAY_ANCHOR_SECONDS: u32 = 315_532_800;

/// An elapsed-time value: whole seconds plus a sub-second remainder in
/// nanoseconds.  It is the unit of all arithmetic against both clock
/// types.
#[derive(Debug, Clone, Copy, PartialEq, Eq, Hash, Structural)]
pub struct Duration {
    pub secs: u64,
    pub nanos: u32,
}

impl Duration {
    /// A duration is well formed when its nanosecond remainder has been
    /// carried into the seconds.
    pub open spec fn wf(self) -> bool {
        self.nanos < NANOS_PER_SECOND
    }

    /// The zero duration.
    pub open spec fn zero_spec() -> Duration {
        Duration { secs: 0, nanos: 0 }
    }

    pub fn new(secs: u64, nanos: u32) -> (d: Duration)
        requires
            nanos < NANOS_PER_SECOND,
        ensures
            d == (Duration { secs, nanos }),
            d.wf(),
    {
        Duration { secs, nanos }
    }

    pub fn from_secs(secs: u64) -> (d: Duration)
        ensures
            d == (Duration { secs, nanos: 0u32 }),
            d.wf(),
    {
        Duration { secs, nanos: 0 }
    }

    pub fn zero() -> (d: Duration)
        ensures
            d == Duration::zero_spec(),
    {
        Duration { secs: 0, nanos: 0 }
    }

    pub fn as_secs(&self) -> (s: u64)
        ensures
            s == self.secs,
    {
        self.secs
    }

    pub fn subsec_nanos(&self) -> (n: u32)
        ensures
            n == self.nanos,
    {
        self.nanos
    }

    pub fn is_zero(&self) -> (b: bool)
        ensures
            b == (*self == Duration::zero_spec()),
    {
        self.secs == 0 && self.nanos == 0
    }
}

impl Default for Duration {
    fn default() -> (d: Self)
        ensures
            d == Duration::zero_spec(),
    {
        Duration { secs: 0, nanos: 0 }
    }
}

/// A snapshot of the monotonic clock: a cumulative tick count since an
/// arbitrary process-local epoch.  Opaque in intent — instants are only
/// compared and subtracted, never read as absolute time.
#[derive(Debug, Clone, Copy, PartialEq, Eq, PartialOrd, Ord, Hash, Structural)]
pub struct Instant {
    pub ticks: u64,
}

/// The process-wide state of the monotonic clock: the most recent raw
/// hardware reading, used to detect the midnight reset, and the running
/// offset added to each new reading.
///
/// The hardware read itself is not part of the library; [`Self::now`]
/// takes the raw 32-bit counter value as an argument and is verified for
/// every value the counter could hold.
#[derive(Debug, Clone, Copy, PartialEq, Eq, Structural)]
pub struct MonotonicClock {
    pub last_ticks: u32,
    pub offset: u64,
}

impl MonotonicClock {
    /// The state at process start: no reading seen, no offset accumulated.
    pub open spec fn start() -> MonotonicClock {
        MonotonicClock { last_ticks: 0, offset: 0 }
    }

    /// A reading strictly below the last one means the counter has reset
    /// at midnight.  Only a single reset between consecutive readings is
    /// detectable; a gap of more than one day under-counts by design.
    pub open spec fn wraps(self, raw: u32) -> bool {
        raw < self.last_ticks
    }

    /// The clock state after observing `raw`.
    pub open spec fn step(self, raw: u32) -> MonotonicClock {
        MonotonicClock {
            last_ticks: raw,
            offset: if self.wraps(raw) {
                self.offset.wrapping_add(DAY_TICKS)
            } else {
                self.offset
            },
        }
    }

    /// The cumulative tick count produced by observing `raw`.  The
    /// count and the offset are modular in the 64 bits that hold them;
    /// they reach the modulus only after billions of years of uptime.
    pub open spec fn output(self, raw: u32) -> u64 {
        self.step(raw).offset.wrapping_add(raw as u64)
    }

    pub fn new() -> (c: MonotonicClock)
        ensures
            c == MonotonicClock::start(),
    {
        MonotonicClock { last_ticks: 0, offset: 0 }
    }

    /// Absorbs one raw hardware reading and returns the instant it
    /// corresponds to.  Detects at most one midnight reset per call, and
    /// updates the stored reading unconditionally, so the very first call
    /// establishes the baseline.
    pub fn now(&mut self, raw: u32) -> (i: Instant)
        ensures
            *final(self) == old(self).step(raw),
            i.ticks == old(self).output(raw),
    {
        if raw < self.last_ticks {
            self.offset = self.offset.wrapping_add(DAY_TICKS);
        }
        self.last_ticks = raw;
        Instant { ticks: self.offset.wrapping_add(raw as u64) }
    }
}

impl Instant {
    /// The duration a tick delta converts to: whole seconds at 18 ticks a
    /// second, the remainder at 55 ms a tick.
    pub open spec fn ticks_to_duration(t: u64) -> Duration {
        Duration { secs: t / TICKS_PER_SECOND, nanos: ((t % TICKS_PER_SECOND) * NANOS_PER_TICK) as u32 }
    }

    /// The tick count a duration converts to.  The seconds term
    /// saturates at the 64-bit limit, as the conversion design fixes;
    /// the sum may still exceed what a tick count holds, and the
    /// checked operations decline such a duration.
    pub open spec fn duration_ticks(d: Duration) -> int {
        let base: int = if d.secs * TICKS_PER_SECOND > u64::MAX {
            u64::MAX as int
        } else {
            d.secs * TICKS_PER_SECOND
        };
        base + (d.nanos as u64) / NANOS_PER_TICK
    }

    pub open spec fn checked_duration_since_spec(self, earlier: Instant) -> Option<Duration> {
        if self.ticks >= earlier.ticks {
            Some(Self::ticks_to_duration((self.ticks - earlier.ticks) as u64))
        } else {
            None
        }
    }

    pub open spec fn saturating_duration_since_spec(self, earlier: Instant) -> Duration {
        if self.ticks >= earlier.ticks {
            Self::ticks_to_duration((self.ticks - earlier.ticks) as u64)
        } else {
            Duration::zero_spec()
        }
    }

    pub open spec fn checked_add_spec(self, d: Duration) -> Option<Instant> {
        if self.ticks + Self::duration_ticks(d) <= u64::MAX {
            Some(Instant { ticks: (self.ticks + Self::duration_ticks(d)) as u64 })
        } else {
            None
        }
    }

    pub open spec fn checked_sub_spec(self, d: Duration) -> Option<Instant> {
        if self.ticks >= Self::duration_ticks(d) {
            Some(Instant { ticks: (self.ticks - Self::duration_ticks(d)) as u64 })
        } else {
            None
        }
    }

    /// Converts a duration to ticks, exactly as [`Self::duration_ticks`]
    /// describes, declining when the sum leaves the 64 bits a tick
    /// count holds.
    fn to_ticks(d: Duration) -> (t: Option<u64>)
        ensures
            t matches Some(v) ==> v == Self::duration_ticks(d),
            t is Some <==> Self::duration_ticks(d) <= u64::MAX,
    {
        let base = match d.secs.checked_mul(TICKS_PER_SECOND) {
            Some(b) => b,
            None => u64::MAX,
        };
        base.checked_add((d.nanos as u64) / NANOS_PER_TICK)
    }

    /// The amount of time from `earlier` to `self`, or nothing when
    /// `earlier` is the later instant — the detectable face of a
    /// monotonicity violation.
    pub fn checked_duration_since(&self, earlier: Instant) -> (r: Option<Duration>)
        ensures
            r == self.checked_duration_since_spec(earlier),
            r matches Some(d) ==> d.wf(),
    {
        match self.ticks.checked_sub(earlier.ticks) {
            Some(t) => Some(
                Duration {
                    secs: t / TICKS_PER_SECOND,
                    nanos: ((t % TICKS_PER_SECOND) * NANOS_PER_TICK) as u32,
                },
            ),
            None => None,
        }
    }

    /// The amount of time from `earlier` to `self`, clamped to zero when
    /// `earlier` is the later instant.
    pub fn duration_since(&self, earlier: Instant) -> (d: Duration)
        ensures
            d == self.saturating_duration_since_spec(earlier),
            d.wf(),
    {
        match self.checked_duration_since(earlier) {
            Some(d) => d,
            None => Duration::zero(),
        }
    }

    /// Identical to [`Self::duration_since`]; both names are kept for
    /// API-surface completeness.
    pub fn saturating_duration_since(&self, earlier: Instant) -> (d: Duration)
        ensures
            d == self.saturating_duration_since_spec(earlier),
            d.wf(),
    {
        match self.checked_duration_since(earlier) {
            Some(d) => d,
            None => Duration::zero(),
        }
    }

    /// The amount of time from `self` to the freshly taken instant `now`.
    pub fn elapsed(&self, now: Instant) -> (d: Duration)
        ensures
            d == now.saturating_duration_since_spec(*self),
            d.wf(),
    {
        now.duration_since(*self)
    }

    /// `self + duration`, or nothing when the tick count overflows.
    pub fn checked_add(&self, duration: Duration) -> (r: Option<Instant>)
        ensures
            r == self.checked_add_spec(duration),
    {
        match Self::to_ticks(duration) {
            Some(t) => match self.ticks.checked_add(t) {
                Some(ticks) => Some(Instant { ticks }),
                None => None,
            },
            None => None,
        }
    }

    /// `self - duration`, or nothing when the tick count underflows —
    /// in particular whenever the duration's tick count itself exceeds
    /// every representable instant.
    pub fn checked_sub(&self, duration: Duration) -> (r: Option<Instant>)
        ensures
            r == self.checked_sub_spec(duration),
    {
        match Self::to_ticks(duration) {
            Some(t) => match self.ticks.checked_sub(t) {
                Some(ticks) => Some(Instant { ticks }),
                None => None,
            },
            None => None,
        }
    }

    /// The aborting counterpart of [`Self::checked_add`]: the overflowing
    /// inputs are excluded up front instead of aborting at run time.
    pub fn add(self, rhs: Duration) -> (r: Instant)
        requires
            self.checked_add_spec(rhs) is Some,
        ensures
            Some(r) == self.checked_add_spec(rhs),
    {
        self.checked_add(rhs).unwrap()
    }

    /// The aborting counterpart of [`Self::checked_sub`]; underflowing
    /// inputs are excluded up front.
    pub fn sub(self, rhs: Duration) -> (r: Instant)
        requires
            self.checked_sub_spec(rhs) is Some,
        ensures
            Some(r) == self.checked_sub_spec(rhs),
    {
        self.checked_sub(rhs).unwrap()
    }

    pub fn add_assign(&mut self, other: Duration)
        requires
            old(self).checked_add_spec(other) is Some,
        ensures
            Some(*final(self)) == old(self).checked_add_spec(other),
    {
        *self = self.add(other);
    }

    pub fn sub_assign(&mut self, other: Duration)
        requires
            old(self).checked_sub_spec(other) is Some,
        ensures
            Some(*final(self)) == old(self).checked_sub_spec(other),
    {
        *self = self.sub(other);
    }

    /// The saturating difference of two instants, as the subtraction
    /// operator of the clock API computes it.
    pub fn sub_instant(self, rhs: Instant) -> (d: Duration)
        ensures
            d == self.saturating_duration_since_spec(rhs),
    {
        self.duration_since(rhs)
    }
}

/// A snapshot of the wall clock, counted in whole seconds since the Unix
/// epoch.  Not monotonic: the underlying clock may be adjusted, so two
/// consecutive snapshots may be out of order, and comparing them for a
/// duration is fallible by design.
#[derive(Debug, Clone, Copy, PartialEq, Eq, PartialOrd, Ord, Hash, Structural)]
pub struct SystemTime {
    pub unix: u32,
}

/// The error of [`SystemTime::duration_since`] and
/// [`SystemTime::elapsed`]: the earlier time was in fact the later one,
/// and the payload says by how much.
#[derive(Debug, Clone, Copy, PartialEq, Eq, Structural)]
pub struct SystemTimeError(pub Duration);

impl SystemTimeError {
    /// How far forward the "earlier" time was from the one it was
    /// compared against.
    pub fn duration(&self) -> (d: Duration)
        ensures
            d == self.0,
    {
        self.0
    }
}

impl SystemTime {
    pub open spec fn from_time_of_day_spec(hour: u8, minute: u8, second: u8) -> SystemTime {
        SystemTime {
            unix: (DAY_ANCHOR_SECONDS + hour * 3600 + minute * 60 + second) as u32,
        }
    }

    pub open spec fn checked_add_spec(self, d: Duration) -> Option<SystemTime> {
        if self.unix + d.secs <= u32::MAX {
            Some(SystemTime { unix: (self.unix + d.secs) as u32 })
        } else {
            None
        }
    }

    pub open spec fn checked_sub_spec(self, d: Duration) -> Option<SystemTime> {
        if self.unix >= d.secs {
            Some(SystemTime { unix: (self.unix - d.secs) as u32 })
        } else {
            None
        }
    }

    pub open spec fn duration_since_spec(self, earlier: SystemTime) -> Result<
        Duration,
        SystemTimeError,
    > {
        if self.unix >= earlier.unix {
            Ok(Duration { secs: (self.unix - earlier.unix) as u64, nanos: 0 })
        } else {
            Err(SystemTimeError(Duration { secs: (earlier.unix - self.unix) as u64, nanos: 0 }))
        }
    }

    /// The anchor in time all timestamps are measured from.
    pub fn unix_epoch() -> (t: SystemTime)
        ensures
            t.unix == 0,
    {
        SystemTime { unix: 0 }
    }

    /// The timestamp for "now", rebuilt from an (hour, minute, second)
    /// reading of the hardware real-time clock and the fixed day anchor.
    /// The anchor names one specific calendar day — a known limitation,
    /// not a date subsystem.
    pub fn now(hour: u8, minute: u8, second: u8) -> (t: SystemTime)
        ensures
            t == Self::from_time_of_day_spec(hour, minute, second),
    {
        let day_seconds: u32 = (hour as u32) * 3600 + (minute as u32) * 60 + (second as u32);
        SystemTime { unix: DAY_ANCHOR_SECONDS + day_seconds }
    }

    /// `self + duration`, in whole seconds, or nothing when the result
    /// leaves the 32-bit timestamp.  The sub-second part of the duration
    /// is discarded.
    pub fn checked_add(&self, duration: Duration) -> (r: Option<SystemTime>)
        ensures
            r == self.checked_add_spec(duration),
    {
        if duration.secs > u32::MAX as u64 {
            None
        } else {
            match self.unix.checked_add(duration.secs as u32) {
                Some(unix) => Some(SystemTime { unix }),
                None => None,
            }
        }
    }

    /// `self - duration`, in whole seconds, or nothing on underflow.
    /// The sub-second part of the duration is discarded.
    pub fn checked_sub(&self, duration: Duration) -> (r: Option<SystemTime>)
        ensures
            r == self.checked_sub_spec(duration),
    {
        if duration.secs > self.unix as u64 {
            None
        } else {
            Some(SystemTime { unix: self.unix - duration.secs as u32 })
        }
    }

    /// The elapsed time from `earlier` to `self`, or — when `earlier` is
    /// in fact the later time — an error carrying the reverse difference.
    /// Wall-clock regression is an expected occurrence the caller must
    /// handle, so it is surfaced rather than clamped.
    pub fn duration_since(&self, earlier: SystemTime) -> (r: Result<Duration, SystemTimeError>)
        ensures
            r == self.duration_since_spec(earlier),
    {
        if self.unix >= earlier.unix {
            Ok(Duration { secs: (self.unix - earlier.unix) as u64, nanos: 0 })
        } else {
            Err(SystemTimeError(Duration { secs: (earlier.unix - self.unix) as u64, nanos: 0 }))
        }
    }

    /// The elapsed time from `self` to the freshly taken timestamp `now`.
    pub fn elapsed(&self, now: SystemTime) -> (r: Result<Duration, SystemTimeError>)
        ensures
            r == now.duration_since_spec(*self),
    {
        now.duration_since(*self)
    }

    /// The aborting counterpart of [`Self::checked_add`]; overflowing
    /// inputs are excluded up front instead of aborting at run time.
    pub fn add(self, duration: Duration) -> (r: SystemTime)
        requires
            self.checked_add_spec(duration) is Some,
        ensures
            Some(r) == self.checked_add_spec(duration),
    {
        self.checked_add(duration).unwrap()
    }

    /// The aborting counterpart of [`Self::checked_sub`]; underflowing
    /// inputs are excluded up front.
    pub fn sub(self, duration: Duration) -> (r: SystemTime)
        requires
            self.checked_sub_spec(duration) is Some,
        ensures
            Some(r) == self.checked_sub_spec(duration),
    {
        self.checked_sub(duration).unwrap()
    }

    pub fn add_assign(&mut self, rhs: Duration)
        requires
            old(self).checked_add_spec(rhs) is Some,
        ensures
            Some(*final(self)) == old(self).checked_add_spec(rhs),
    {
        *self = self.add(rhs);
    }

    pub fn sub_assign(&mut self, rhs: Duration)
        requires
            old(self).checked_sub_spec(rhs) is Some,
        ensures
            Some(*final(self)) == old(self).checked_sub_spec(rhs),
    {
        *self = self.sub(rhs);
    }
}

/// Each reading is at least the one before it.
pub open spec fn nondecreasing(raws: Seq<u32>) -> bool {
    forall|i: int| 0 <= i < raws.len() - 1 ==> #[trigger] raws[i] <= raws[i + 1]
}

/// The clock state after absorbing a whole sequence of raw readings.
pub open spec fn run(c: MonotonicClock, raws: Seq<u32>) -> MonotonicClock
    decreases raws.len(),
{
    if raws.len() == 0 {
        c
    } else {
        run(c.step(raws[0]), raws.drop_first())
    }
}

/// The cumulative tick counts the clock hands out while absorbing a
/// sequence of raw readings.
pub open spec fn outputs(c: MonotonicClock, raws: Seq<u32>) -> Seq<u64>
    decreases raws.len(),
{
    if raws.len() == 0 {
        Seq::empty()
    } else {
        seq![c.output(raws[0])] + outputs(c.step(raws[0]), raws.drop_first())
    }
}

/// Law: as long as the raw readings never regress, the clock adds no
/// offset and the cumulative tick values are exactly the raw readings.
pub proof fn lemma_no_wrap_passes_readings_through(c: MonotonicClock, raws: Seq<u32>)
    requires
        c.offset == 0,
        raws.len() > 0 ==> c.last_ticks <= raws[0],
        nondecreasing(raws),
    ensures
        run(c, raws).offset == 0,
        outputs(c, raws) =~= Seq::new(raws.len(), |i: int| raws[i] as u64),
    decreases raws.len(),
{
    if raws.len() > 0 {
        let c1 = c.step(raws[0]);
        assert(!c.wraps(raws[0]));
        assert(c.output(raws[0]) == raws[0] as u64);
        let rest = raws.drop_first();
        assert(nondecreasing(rest)) by {
            assert forall|i: int| 0 <= i < rest.len() - 1 implies #[trigger] rest[i] <= rest[i
                + 1] by {
                assert(rest[i] == raws[i + 1]);
                assert(rest[i + 1] == raws[i + 2]);
            }
        }
        if rest.len() > 0 {
            assert(raws[0] <= raws[1]);
        }
        lemma_no_wrap_passes_readings_through(c1, rest);
        assert(outputs(c, raws) =~= Seq::new(raws.len(), |i: int| raws[i] as u64)) by {
            assert(outputs(c1, rest) =~= Seq::new(rest.len(), |i: int| rest[i] as u64));
        }
    }
}

/// Law: from process start, non-decreasing raw readings pass through
/// unchanged — the offset stays zero and every cumulative tick value is
/// its raw reading.
pub proof fn lemma_fresh_clock_passes_readings_through(raws: Seq<u32>)
    requires
        nondecreasing(raws),
    ensures
        run(MonotonicClock::start(), raws).offset == 0,
        outputs(MonotonicClock::start(), raws) =~= Seq::new(raws.len(), |i: int| raws[i] as u64),
{
    lemma_no_wrap_passes_readings_through(MonotonicClock::start(), raws);
}

/// Law: across two consecutive readings the cumulative tick count never
/// decreases, even when the counter resets, provided the first reading is
/// within the counter's daily range and the offset has room left.
pub proof fn lemma_consecutive_outputs_monotone(c: MonotonicClock, r1: u32, r2: u32)
    requires
        r1 <= DAY_TICKS,
        c.offset + 2 * DAY_TICKS + u32::MAX <= u64::MAX,
    ensures
        c.step(r1).output(r2) >= c.output(r1),
{
}

/// Law: adding a duration to an instant and subtracting it again returns
/// the original instant, whenever the addition does not overflow.
pub proof fn lemma_instant_add_sub_round_trip(i: Instant, d: Duration)
    requires
        i.checked_add_spec(d) is Some,
    ensures
        i.checked_add_spec(d) matches Some(j) && j.checked_sub_spec(d) == Some(i),
{
}

/// Law: adding a duration to a timestamp and subtracting it again returns
/// the original timestamp, whenever the addition does not overflow.
pub proof fn lemma_system_time_add_sub_round_trip(t: SystemTime, d: Duration)
    requires
        t.checked_add_spec(d) is Some,
    ensures
        t.checked_add_spec(d) matches Some(u) && u.checked_sub_spec(d) == Some(t),
{
}

/// Law: the checked addition returns an instant exactly when the
/// resulting tick count is representable, and then that exact count;
/// the aborting [`Instant::add`] admits exactly the successful inputs,
/// so every other input is excluded up front instead of aborting.
pub proof fn lemma_checked_add_succeeds_iff_representable(i: Instant, d: Duration)
    ensures
        i.checked_add_spec(d) is Some <==> i.ticks + Instant::duration_ticks(d) <= u64::MAX,
        i.checked_add_spec(d) matches Some(j) ==> j.ticks == i.ticks + Instant::duration_ticks(d),
{
}

} // verus!
