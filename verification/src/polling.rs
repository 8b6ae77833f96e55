use crate::register_fields::StatusSnapshot;
use crate::registers::{register_read, GpuRegisterBlock, RegisterBlockError, STATUS_INDEX};
use std::time::Duration;
use vstd::prelude::*;

verus! {

/// The length of a duration in nanoseconds, as `Duration::as_nanos` reports it.
pub uninterp spec fn duration_nanos(d: Duration) -> u128;

/// `Duration::is_zero`: whether `d` spans no time.
#[verifier::external_body]
fn duration_is_zero(d: Duration) -> (r: bool)
    ensures
        r == (duration_nanos(d) == 0),
{
    d.is_zero()
}

/// The duration `Duration::saturating_sub` gives for `a` and `b`.
pub uninterp spec fn duration_saturating_difference(a: Duration, b: Duration) -> Duration;

/// `Duration::saturating_sub`: `a - b`, or zero when `b` is longer than `a`.
#[verifier::external_body]
fn duration_saturating_sub(a: Duration, b: Duration) -> (r: Duration)
    ensures
        r == duration_saturating_difference(a, b),
        duration_nanos(r) == if duration_nanos(a) >= duration_nanos(b) {
            duration_nanos(a) - duration_nanos(b)
        } else {
            0
        },
{
    a.saturating_sub(b)
}

/// `Ord::min` on durations: the shorter of `a` and `b`, and `a` when they are equal.
#[verifier::external_body]
fn duration_min(a: Duration, b: Duration) -> (r: Duration)
    ensures
        r == if duration_nanos(b) < duration_nanos(a) {
            b
        } else {
            a
        },
{
    a.min(b)
}

/// `PartialOrd::ge` on durations: whether `a` is at least as long as `b`.
#[verifier::external_body]
fn duration_at_least(a: Duration, b: Duration) -> (r: bool)
    ensures
        r == (duration_nanos(a) >= duration_nanos(b)),
{
    a >= b
}

/// How long to wait for a device and how often to look at it.
///
/// A configuration can only be built by `PollConfig::new`, which rejects a
/// zero polling interval.
#[derive(Debug, Clone, Copy, PartialEq, Eq)]
pub struct PollConfig {
    timeout: Duration,
    poll_interval: Duration,
}

#[derive(Debug, Clone, Copy, PartialEq, Eq)]
pub enum PollConfigError {
    ZeroPollInterval,
}

impl PollConfig {
    #[verifier::type_invariant]
    closed spec fn positive_interval(self) -> bool {
        duration_nanos(self.poll_interval) > 0
    }

    pub closed spec fn spec_timeout(self) -> Duration {
        self.timeout
    }

    pub closed spec fn spec_poll_interval(self) -> Duration {
        self.poll_interval
    }

    pub fn new(timeout: Duration, poll_interval: Duration) -> (r: Result<Self, PollConfigError>)
        ensures
            duration_nanos(poll_interval) == 0 ==> r == Err::<Self, PollConfigError>(
                PollConfigError::ZeroPollInterval,
            ),
            duration_nanos(poll_interval) > 0 ==> (r matches Ok(c) && c.timeout() == timeout
                && c.poll_interval() == poll_interval),
    {
        if duration_is_zero(poll_interval) {
            return Err(PollConfigError::ZeroPollInterval);
        }
        Ok(Self { timeout, poll_interval })
    }

    #[verifier::when_used_as_spec(spec_timeout)]
    pub fn timeout(self) -> (r: Duration)
        ensures
            r == self.spec_timeout(),
    {
        self.timeout
    }

    #[verifier::when_used_as_spec(spec_poll_interval)]
    pub fn poll_interval(self) -> (r: Duration)
        ensures
            r == self.spec_poll_interval(),
            duration_nanos(r) > 0,
    {
        proof {
            use_type_invariant(&self);
        }
        self.poll_interval
    }
}

/// A clock that polling can read and wait on.
///
/// A timer is modelled by its state: `now` and `elapsed_since` report what
/// the state shows, and `delay` moves to the state `after_delay` names.
/// `clock` is a lower bound, in nanoseconds, on the time that has passed on
/// the timer; it grows by at least the requested duration on every `delay`,
/// and `elapsed_since` never reports less than it implies. Two readings
/// taken without a `delay` between them are therefore equal: the contracts
/// fit a simulated clock, not a wall clock whose readings move by
/// themselves.
/// To meet the method contracts an implementation must define the
/// specification functions. Their default bodies exist only so that
/// implementations written outside Verus compile; such implementations are
/// trusted to meet the contracts, not checked against them.
pub trait PollTimer: Sized {
    type Instant: Copy;

    /// Time known to have passed on this timer, in nanoseconds.
    closed spec fn clock(&self) -> int {
        arbitrary()
    }

    /// The clock reading an instant was taken at.
    closed spec fn instant_time(instant: Self::Instant) -> int {
        arbitrary()
    }

    /// The instant `now` reports in this state.
    closed spec fn now_spec(&self) -> Self::Instant {
        arbitrary()
    }

    /// What `elapsed_since(start)` reports in this state.
    closed spec fn elapsed_spec(&self, start: Self::Instant) -> Duration {
        arbitrary()
    }

    /// The timer once it has waited `duration`.
    closed spec fn after_delay(&self, duration: Duration) -> Self {
        arbitrary()
    }

    fn now(&self) -> (r: Self::Instant)
        ensures
            r == self.now_spec(),
            Self::instant_time(r) <= self.clock(),
    ;

    fn elapsed_since(&self, start: Self::Instant) -> (r: Duration)
        ensures
            r == self.elapsed_spec(start),
            duration_nanos(r) >= self.clock() - Self::instant_time(start),
    ;

    fn delay(&mut self, duration: Duration)
        ensures
            *final(self) == old(self).after_delay(duration),
            final(self).clock() >= old(self).clock() + duration_nanos(duration),
    ;
}

/// A source of device status snapshots.
///
/// A reader is modelled by its state: `read_status` returns what
/// `next_status` names and leaves the reader in the state `after_read`
/// names. To meet the method contract an implementation must define the
/// specification functions. Their default bodies exist only so that
/// implementations written outside Verus compile; such implementations are
/// trusted to meet the contract, not checked against it.
pub trait StatusReader: Sized {
    type Error;

    /// What the next read returns.
    closed spec fn next_status(&self) -> Result<StatusSnapshot, Self::Error> {
        arbitrary()
    }

    /// The reader once it has been read.
    closed spec fn after_read(&self) -> Self {
        arbitrary()
    }

    fn read_status(&mut self) -> (r: Result<StatusSnapshot, Self::Error>)
        ensures
            r == old(self).next_status(),
            *final(self) == old(self).after_read(),
    ;
}

impl StatusReader for GpuRegisterBlock<'_> {
    type Error = RegisterBlockError;

    /// The status register, decoded.
    open spec fn next_status(&self) -> Result<StatusSnapshot, RegisterBlockError> {
        match register_read(self.registers(), STATUS_INDEX) {
            Ok(raw) => Ok(StatusSnapshot::spec_from_raw(raw)),
            Err(e) => Err(e),
        }
    }

    /// Reading a register changes nothing.
    open spec fn after_read(&self) -> Self {
        *self
    }

    fn read_status(&mut self) -> (r: Result<StatusSnapshot, Self::Error>) {
        GpuRegisterBlock::read_status(self)
    }
}

#[derive(Debug, PartialEq, Eq)]
pub enum PollError<E> {
    Source(E),
    Fault { status: StatusSnapshot, polls: u64 },
    Timeout { timeout: Duration, polls: u64, last_status: StatusSnapshot },
}

/// What polling does after reading a status.
#[derive(Debug, Clone, Copy, PartialEq, Eq)]
pub enum PollStep {
    /// The device reported ready.
    Ready(StatusSnapshot),
    /// The device reported a fault; faults win over readiness.
    Fault(StatusSnapshot),
    /// The device is neither ready nor faulted and the time budget is spent.
    Timeout(StatusSnapshot),
    /// Wait this long before reading the status again.
    Wait(Duration),
}

/// The decision for `status`, read `elapsed` after polling began: a fault
/// first, then readiness, then the timeout; otherwise wait for the polling
/// interval, or for what is left of the timeout if that is shorter.
pub open spec fn poll_decision(status: StatusSnapshot, elapsed: Duration, config: PollConfig) -> PollStep {
    if status.fault() {
        PollStep::Fault(status)
    } else if status.ready() {
        PollStep::Ready(status)
    } else if duration_nanos(elapsed) >= duration_nanos(config.timeout()) {
        PollStep::Timeout(status)
    } else {
        let remaining = duration_saturating_difference(config.timeout(), elapsed);
        PollStep::Wait(
            if duration_nanos(remaining) < duration_nanos(config.poll_interval()) {
                remaining
            } else {
                config.poll_interval()
            },
        )
    }
}

/// Decide what to do after reading `status`, `elapsed` after polling began:
/// report a fault, report readiness, give up once the timeout is reached, or
/// wait for the polling interval but never past the timeout.
pub fn poll_step(status: StatusSnapshot, elapsed: Duration, config: PollConfig) -> (r: PollStep)
    ensures
        r == poll_decision(status, elapsed, config),
        r matches PollStep::Ready(s) ==> s.spec_raw() & 1u32 != 0 && s.spec_raw() & 4u32 == 0,
        r matches PollStep::Fault(s) ==> s.spec_raw() & 4u32 != 0,
        r matches PollStep::Timeout(s) ==> s.spec_raw() & 1u32 == 0 && s.spec_raw() & 4u32 == 0,
        status.fault() ==> r == PollStep::Fault(status),
        !status.fault() && status.ready() ==> r == PollStep::Ready(status),
        !status.fault() && !status.ready() && duration_nanos(elapsed) >= duration_nanos(
            config.timeout(),
        ) ==> r == PollStep::Timeout(status),
        !status.fault() && !status.ready() && duration_nanos(elapsed) < duration_nanos(
            config.timeout(),
        ) ==> (r matches PollStep::Wait(d) && duration_nanos(d) == if duration_nanos(
            config.poll_interval(),
        ) <= duration_nanos(config.timeout()) - duration_nanos(elapsed) {
            duration_nanos(config.poll_interval())
        } else {
            (duration_nanos(config.timeout()) - duration_nanos(elapsed)) as u128
        } && duration_nanos(d) > 0 && duration_nanos(elapsed) + duration_nanos(d)
            <= duration_nanos(config.timeout())),
{
    if status.fault() {
        return PollStep::Fault(status);
    }
    if status.ready() {
        return PollStep::Ready(status);
    }
    if duration_at_least(elapsed, config.timeout()) {
        return PollStep::Timeout(status);
    }
    let remaining = duration_saturating_sub(config.timeout(), elapsed);
    PollStep::Wait(duration_min(config.poll_interval(), remaining))
}

/// The reader after `k` reads.
pub open spec fn reader_after<R: StatusReader>(reader: R, k: nat) -> R
    decreases k,
{
    if k == 0 {
        reader
    } else {
        reader_after(reader, (k - 1) as nat).after_read()
    }
}

/// One round of polling on `reader` and `timer`: read the status and decide.
pub open spec fn round_step<R: StatusReader, T: PollTimer>(
    reader: R,
    timer: T,
    start: T::Instant,
    config: PollConfig,
) -> Result<PollStep, R::Error> {
    match reader.next_status() {
        Ok(status) => Ok(poll_decision(status, timer.elapsed_spec(start), config)),
        Err(e) => Err(e),
    }
}

/// Whether a round ends in a wait, so that polling goes on.
pub open spec fn waits<E>(step: Result<PollStep, E>) -> bool {
    step matches Ok(PollStep::Wait(_))
}

/// The time a round waits, in nanoseconds; zero for a round that does not.
pub open spec fn waited<E>(step: Result<PollStep, E>) -> int {
    match step {
        Ok(PollStep::Wait(d)) => duration_nanos(d) as int,
        _ => 0,
    }
}

/// The timer after the first `k` rounds of polling that began at `start`.
pub open spec fn timer_after<R: StatusReader, T: PollTimer>(
    reader: R,
    timer: T,
    start: T::Instant,
    config: PollConfig,
    k: nat,
) -> T
    decreases k,
{
    if k == 0 {
        timer
    } else {
        let prev = timer_after(reader, timer, start, config, (k - 1) as nat);
        match round_step(reader_after(reader, (k - 1) as nat), prev, start, config) {
            Ok(PollStep::Wait(d)) => prev.after_delay(d),
            _ => prev,
        }
    }
}

/// The decision of round `k` (counting from zero) of polling that began at `start`.
pub open spec fn round_at<R: StatusReader, T: PollTimer>(
    reader: R,
    timer: T,
    start: T::Instant,
    config: PollConfig,
    k: nat,
) -> Result<PollStep, R::Error> {
    round_step(reader_after(reader, k), timer_after(reader, timer, start, config, k), start, config)
}

/// The time waited in the first `k` rounds, in nanoseconds.
pub open spec fn total_waited<R: StatusReader, T: PollTimer>(
    reader: R,
    timer: T,
    start: T::Instant,
    config: PollConfig,
    k: nat,
) -> int
    decreases k,
{
    if k == 0 {
        0
    } else {
        total_waited(reader, timer, start, config, (k - 1) as nat) + waited(
            round_at(reader, timer, start, config, (k - 1) as nat),
        )
    }
}

/// Polling stops in round `n`: every earlier round waits, and round `n` does not.
pub open spec fn stops_at<R: StatusReader, T: PollTimer>(
    reader: R,
    timer: T,
    start: T::Instant,
    config: PollConfig,
    n: nat,
) -> bool {
    &&& forall|k: nat| k < n ==> waits(#[trigger] round_at(reader, timer, start, config, k))
    &&& !waits(round_at(reader, timer, start, config, n))
}

/// The number of status reads, `k`, as the `polls` counter reports it.
pub open spec fn poll_count(k: nat) -> u64 {
    if k < u64::MAX {
        k as u64
    } else {
        u64::MAX
    }
}

/// What polling that stops in round `n` returns.
pub open spec fn poll_outcome<R: StatusReader, T: PollTimer>(
    reader: R,
    timer: T,
    start: T::Instant,
    config: PollConfig,
    n: nat,
) -> Result<StatusSnapshot, PollError<R::Error>> {
    match round_at(reader, timer, start, config, n) {
        Err(e) => Err(PollError::Source(e)),
        Ok(PollStep::Fault(status)) => Err(PollError::Fault { status, polls: poll_count(n + 1) }),
        Ok(PollStep::Ready(status)) => Ok(status),
        Ok(PollStep::Timeout(status)) => Err(
            PollError::Timeout {
                timeout: config.timeout(),
                polls: poll_count(n + 1),
                last_status: status,
            },
        ),
        Ok(PollStep::Wait(_)) => arbitrary(),
    }
}

/// Polling stops in one round only: the first that does not wait.
pub proof fn lemma_stops_once<R: StatusReader, T: PollTimer>(
    reader: R,
    timer: T,
    start: T::Instant,
    config: PollConfig,
    n: nat,
    m: nat,
)
    requires
        stops_at(reader, timer, start, config, n),
        stops_at(reader, timer, start, config, m),
    ensures
        n == m,
{
    if n < m {
        assert(waits(round_at(reader, timer, start, config, n)));
    } else if m < n {
        assert(waits(round_at(reader, timer, start, config, m)));
    }
}

/// Poll `reader` until the device is ready, faults, or the timeout passes.
///
/// Polling goes in rounds: read the status, then decide by `poll_decision`
/// at the time the timer shows. The call stops in the first round that does
/// not wait, having read the status once per round, and returns what that
/// round decided; a read error is passed through. Every wait lasts at most
/// the polling interval, and all waits together stay within the timeout.
pub fn wait_until_ready<R, T>(reader: &mut R, timer: &mut T, config: PollConfig) -> (r: Result<
    StatusSnapshot,
    PollError<R::Error>,
>) where R: StatusReader, T: PollTimer
    ensures
        exists|n: nat|
            #[trigger] stops_at(*old(reader), *old(timer), old(timer).now_spec(), config, n)
                && r == poll_outcome(*old(reader), *old(timer), old(timer).now_spec(), config, n)
                && *final(reader) == reader_after(*old(reader), n + 1)
                && *final(timer) == timer_after(
                *old(reader),
                *old(timer),
                old(timer).now_spec(),
                config,
                n,
            ) && (forall|k: nat|
                k < n ==> 0 < waited(
                    #[trigger] round_at(*old(reader), *old(timer), old(timer).now_spec(), config, k),
                ) <= duration_nanos(config.poll_interval())) && total_waited(
                *old(reader),
                *old(timer),
                old(timer).now_spec(),
                config,
                n,
            ) <= duration_nanos(config.timeout()),
        r matches Ok(s) ==> s.spec_raw() & 1u32 != 0 && s.spec_raw() & 4u32 == 0,
        r matches Err(PollError::Fault { status, .. }) ==> status.spec_raw() & 4u32 != 0,
        r matches Err(PollError::Timeout { last_status, .. }) ==> last_status.spec_raw() & 1u32
            == 0 && last_status.spec_raw() & 4u32 == 0,
{
    let ghost r0 = *reader;
    let ghost t0 = *timer;
    let start = timer.now();
    let mut polls: u64 = 0;
    let ghost mut k: nat = 0;
    loop
        invariant
            r0 == *old(reader),
            t0 == *old(timer),
            start == t0.now_spec(),
            T::instant_time(start) <= t0.clock(),
            *reader == reader_after(r0, k),
            *timer == timer_after(r0, t0, start, config, k),
            polls == poll_count(k),
            forall|j: nat| j < k ==> waits(#[trigger] round_at(r0, t0, start, config, j)),
            forall|j: nat|
                j < k ==> 0 < waited(#[trigger] round_at(r0, t0, start, config, j))
                    <= duration_nanos(config.poll_interval()),
            timer.clock() >= t0.clock() + total_waited(r0, t0, start, config, k),
            total_waited(r0, t0, start, config, k) <= duration_nanos(config.timeout()),
        decreases duration_nanos(config.timeout()) - total_waited(r0, t0, start, config, k),
    {
        polls = polls.saturating_add(1);
        let read = reader.read_status();
        let status = match read {
            Ok(s) => s,
            Err(e) => {
                proof {
                    assert(stops_at(r0, t0, start, config, k));
                }
                return Err(PollError::Source(e));
            },
        };
        if status.fault() {
            proof {
                assert(stops_at(r0, t0, start, config, k));
            }
            return Err(PollError::Fault { status, polls });
        }
        if status.ready() {
            proof {
                assert(stops_at(r0, t0, start, config, k));
            }
            return Ok(status);
        }
        let elapsed = timer.elapsed_since(start);
        match poll_step(status, elapsed, config) {
            PollStep::Fault(s) => return Err(PollError::Fault { status: s, polls }),
            PollStep::Ready(s) => return Ok(s),
            PollStep::Timeout(s) => {
                proof {
                    assert(stops_at(r0, t0, start, config, k));
                }
                return Err(PollError::Timeout { timeout: config.timeout(), polls, last_status: s })
            },
            PollStep::Wait(d) => {
                timer.delay(d);
                proof {
                    k = k + 1;
                }
            },
        }
    }
}

} // verus!
