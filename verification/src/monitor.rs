//! The supervisor: connection state, failure streaks, adaptive polling
//! period, and the snapshot that every tick ends in.
//!
//! A monitor performs no I/O and reads no clock. `tick` is advanced one event
//! at a time: each call takes what the caller's last action gave, with the
//! clock readings it took, and answers with the next action, until it
//! answers `Emit`.

use vstd::prelude::*;
use crate::config::MonitorConfig;
use crate::device::{model_name, DeviceInfo, DeviceInfoView};
use crate::driver::{message_of, DriverError, DriverErrorView, ReadResult, ReadResultView};
use crate::snapshot::{
    disconnected_code, Freshness, MonitorStatus, MonitorStatusView, Snapshot, SnapshotDevice,
    SnapshotDeviceView, SnapshotQuality, SnapshotView, Transport, TransportView, WallTime,
};
use crate::text::{opt_str_view, opt_string_view};
use crate::vars::Vars;

verus! {

/// Nanoseconds in a millisecond.
pub const NANOS_PER_MILLI: u64 = 1_000_000;

/// Added to the polling period after a failed read, in milliseconds.
pub const FAILURE_STEP_MS: u64 = 250;

/// Added to the polling period after a slow read, in milliseconds.
pub const SLOW_STEP_MS: u64 = 200;

/// Taken off the polling period on every thirtieth good read, in milliseconds.
pub const RECOVERY_STEP_MS: u64 = 100;

/// Number of good reads between two recoveries.
pub const RECOVERY_EVERY: u64 = 30;

/// Where the connection stands.
#[derive(Debug, Clone, Copy, PartialEq, Eq, Structural)]
pub enum ConnectionState {
    Disconnected,
    Connecting,
    Streaming,
    Degraded,
    Reconnecting,
}

/// The two clocks, read at one moment.
#[derive(Debug, Clone, Copy, PartialEq, Eq)]
pub struct ClockReading {
    /// Nanoseconds on the monotonic clock since the monitor was made.
    pub mono_ns: u64,
    /// The wall clock.
    pub wall: WallTime,
}

/// How a read under the poll timeout ended.
#[derive(Debug, PartialEq, Eq)]
pub enum ReadOutcome {
    /// The driver returned a reading.
    Data(ReadResult),
    /// The driver returned an error.
    Failed(DriverError),
    /// The timeout ran out first.
    TimedOut,
}

pub enum ReadOutcomeView {
    Data(ReadResultView),
    Failed(DriverErrorView),
    TimedOut,
}

impl View for ReadOutcome {
    type V = ReadOutcomeView;

    open spec fn view(&self) -> ReadOutcomeView {
        match self {
            ReadOutcome::Data(reading) => ReadOutcomeView::Data(reading@),
            ReadOutcome::Failed(error) => ReadOutcomeView::Failed(error@),
            ReadOutcome::TimedOut => ReadOutcomeView::TimedOut,
        }
    }
}

/// How the round trip of a failed read is measured.
#[derive(Debug, Clone, Copy, PartialEq, Eq)]
pub enum FailureRtt {
    /// From this monotonic reading, in nanoseconds, to the snapshot.
    Since(u64),
    /// This many milliseconds.
    Fixed(u64),
}

/// A failure whose snapshot waits for the driver to be disconnected.
#[derive(Debug, Clone, PartialEq, Eq)]
pub struct PendingFailure {
    pub reason: String,
    pub rtt: FailureRtt,
}

pub struct PendingFailureView {
    pub reason: Seq<char>,
    pub rtt: FailureRtt,
}

impl View for PendingFailure {
    type V = PendingFailureView;

    open spec fn view(&self) -> PendingFailureView {
        PendingFailureView { reason: self.reason@, rtt: self.rtt }
    }
}

/// What the caller reports to a tick.
#[derive(Debug, PartialEq, Eq)]
pub enum TickEvent {
    /// A tick begins; the driver says whether it is connected.
    Begin { driver_connected: bool },
    /// The driver's connect returned.
    Connected { outcome: Result<DeviceInfo, DriverError>, now: ClockReading },
    /// The read ended; `started_ns` is the monotonic reading taken before it.
    ReadDone { outcome: ReadOutcome, started_ns: u64, now: ClockReading },
    /// The driver was disconnected on account of this failure.
    Disconnected { failure: PendingFailure, now: ClockReading },
}

pub enum TickEventView {
    Begin { driver_connected: bool },
    Connected { outcome: Result<DeviceInfoView, DriverErrorView>, now: ClockReading },
    ReadDone { outcome: ReadOutcomeView, started_ns: u64, now: ClockReading },
    Disconnected { failure: PendingFailureView, now: ClockReading },
}

/// The view of what a connect returned.
pub open spec fn connect_view(outcome: Result<DeviceInfo, DriverError>) -> Result<
    DeviceInfoView,
    DriverErrorView,
> {
    match outcome {
        Ok(device) => Ok(device@),
        Err(error) => Err(error@),
    }
}

impl View for TickEvent {
    type V = TickEventView;

    open spec fn view(&self) -> TickEventView {
        match self {
            TickEvent::Begin { driver_connected } => TickEventView::Begin {
                driver_connected: *driver_connected,
            },
            TickEvent::Connected { outcome, now } => TickEventView::Connected {
                outcome: connect_view(*outcome),
                now: *now,
            },
            TickEvent::ReadDone { outcome, started_ns, now } => TickEventView::ReadDone {
                outcome: outcome@,
                started_ns: *started_ns,
                now: *now,
            },
            TickEvent::Disconnected { failure, now } => TickEventView::Disconnected {
                failure: failure@,
                now: *now,
            },
        }
    }
}

/// What the caller of a tick does next.
#[derive(Debug, PartialEq, Eq)]
pub enum TickStep {
    /// Connect the driver, preferring this id, and report `Connected`.
    Connect(Option<String>),
    /// Read the monotonic clock, read from the driver under this timeout, and
    /// report `ReadDone`.
    Read { timeout_ms: u64 },
    /// Disconnect the driver, whatever it answers, and report `Disconnected`
    /// with this failure.
    Disconnect(PendingFailure),
    /// The tick is over: this is its snapshot.
    Emit(Snapshot),
}

pub enum TickStepView {
    Connect(Option<Seq<char>>),
    Read { timeout_ms: u64 },
    Disconnect(PendingFailureView),
    Emit(SnapshotView),
}

impl View for TickStep {
    type V = TickStepView;

    open spec fn view(&self) -> TickStepView {
        match self {
            TickStep::Connect(preferred) => TickStepView::Connect(opt_string_view(*preferred)),
            TickStep::Read { timeout_ms } => TickStepView::Read { timeout_ms: *timeout_ms },
            TickStep::Disconnect(failure) => TickStepView::Disconnect(failure@),
            TickStep::Emit(snapshot) => TickStepView::Emit(snapshot@),
        }
    }
}

/// The supervisor of one driver.
#[derive(Debug)]
pub struct Monitor {
    config: MonitorConfig,
    state: ConnectionState,
    target_id: Option<String>,
    current: Option<DeviceInfo>,
    errors_in_row: u32,
    reads_ok: u64,
    reads_err: u64,
    reconnects: u64,
    effective_interval_ms: u64,
    last_ok: Option<ClockReading>,
}

pub struct MonitorView {
    pub config: MonitorConfig,
    pub state: ConnectionState,
    /// The device id that connects prefer.
    pub target_id: Option<Seq<char>>,
    /// The device of the last successful connect.
    pub current: Option<DeviceInfoView>,
    /// Failures since the last good read.
    pub errors_in_row: u32,
    pub reads_ok: u64,
    pub reads_err: u64,
    pub reconnects: u64,
    /// The polling period now in force.
    pub effective_interval_ms: u64,
    /// The clocks at the last good read.
    pub last_ok: Option<ClockReading>,
}

impl View for Monitor {
    type V = MonitorView;

    closed spec fn view(&self) -> MonitorView {
        MonitorView {
            config: self.config,
            state: self.state,
            target_id: opt_string_view(self.target_id),
            current: match self.current {
                Some(device) => Some(device@),
                None => None,
            },
            errors_in_row: self.errors_in_row,
            reads_ok: self.reads_ok,
            reads_err: self.reads_err,
            reconnects: self.reconnects,
            effective_interval_ms: self.effective_interval_ms,
            last_ok: self.last_ok,
        }
    }
}

/// A counter one higher, held at the top of its range.
pub open spec fn bumped(n: u64) -> u64 {
    if n < u64::MAX {
        (n + 1) as u64
    } else {
        n
    }
}

/// A streak one longer, held at the top of its range.
pub open spec fn longer(n: u32) -> u32 {
    if n < u32::MAX {
        (n + 1) as u32
    } else {
        n
    }
}

/// Whole milliseconds from one monotonic reading to a later one; zero where
/// the second is not later.
pub open spec fn elapsed_ms(from_ns: u64, to_ns: u64) -> u128 {
    if to_ns >= from_ns {
        ((to_ns - from_ns) / NANOS_PER_MILLI as int) as u128
    } else {
        0
    }
}

/// Nanoseconds from one monotonic reading to a later one; zero where the
/// second is not later.
pub open spec fn elapsed_ns(from_ns: u64, to_ns: u64) -> u64 {
    if to_ns >= from_ns {
        (to_ns - from_ns) as u64
    } else {
        0
    }
}

/// Whether a round trip took more than six tenths of the polling period:
/// ten times the nanoseconds taken against six times the period's nanoseconds.
pub open spec fn rtt_is_slow(rtt_ns: u64, interval_ms: u64) -> bool {
    rtt_ns * 10 > interval_ms * 6_000_000
}

/// The period raised by `step`, but not beyond `ceiling`.
pub open spec fn raised(interval_ms: u64, step: u64, ceiling: u64) -> u64 {
    if interval_ms + step < ceiling {
        (interval_ms + step) as u64
    } else {
        ceiling
    }
}

/// The period lowered by `step`, but not beneath `floor`.
pub open spec fn lowered(interval_ms: u64, step: u64, floor: u64) -> u64 {
    if interval_ms - step > floor {
        (interval_ms - step) as u64
    } else {
        floor
    }
}

/// The polling period after a read, where tuning is on. A failure raises it
/// by the failure step, a slow read by the slow step, both up to the
/// maximum; otherwise every thirtieth good read lowers it by the recovery
/// step, down to the minimum. `reads_ok` counts the read just made.
pub open spec fn tuned_interval(
    config: MonitorConfig,
    interval_ms: u64,
    reads_ok: u64,
    rtt_ns: u64,
    ok: bool,
) -> u64 {
    if !ok {
        raised(interval_ms, FAILURE_STEP_MS, config.sample_interval_max_ms)
    } else if rtt_is_slow(rtt_ns, interval_ms) {
        raised(interval_ms, SLOW_STEP_MS, config.sample_interval_max_ms)
    } else if reads_ok % RECOVERY_EVERY == 0 {
        lowered(interval_ms, RECOVERY_STEP_MS, config.sample_interval_min_ms)
    } else {
        interval_ms
    }
}

/// The polling period after a read, tuned where the configuration asks for it.
pub open spec fn next_interval(
    config: MonitorConfig,
    interval_ms: u64,
    reads_ok: u64,
    rtt_ns: u64,
    ok: bool,
) -> u64 {
    if config.auto_tune {
        tuned_interval(config, interval_ms, reads_ok, rtt_ns, ok)
    } else {
        interval_ms
    }
}

/// The device a snapshot names: the current one, or a stand-in that carries
/// the target id where the monitor has none.
pub open spec fn snapshot_device_of(monitor: MonitorView, connected: bool) -> SnapshotDeviceView {
    match monitor.current {
        Some(device) => SnapshotDeviceView {
            id: device.id,
            model: device.model,
            transport: TransportView {
                kind: device.transport,
                path: device.path,
                vid: device.vid,
                pid: device.pid,
            },
            connected,
        },
        None => SnapshotDeviceView {
            id: match monitor.target_id {
                Some(id) => id,
                None => "unknown"@,
            },
            model: model_name(),
            transport: TransportView {
                kind: "unknown"@,
                path: Seq::empty(),
                vid: Seq::empty(),
                pid: Seq::empty(),
            },
            connected,
        },
    }
}

/// The wall-clock time of the last good read.
pub open spec fn last_ok_wall(monitor: MonitorView) -> Option<WallTime> {
    match monitor.last_ok {
        Some(reading) => Some(reading.wall),
        None => None,
    }
}

/// The counters of a snapshot.
pub open spec fn quality_of(monitor: MonitorView, poll_ms: u128, stale_ms: u128) -> SnapshotQuality {
    SnapshotQuality {
        poll_ms,
        stale_ms,
        reads_ok: monitor.reads_ok,
        reads_err: monitor.reads_err,
        reconnects: monitor.reconnects,
        effective_interval_ms: monitor.effective_interval_ms as u128,
    }
}

/// The snapshot of a good read.
pub open spec fn connected_snapshot_of(
    monitor: MonitorView,
    reading: ReadResultView,
    rtt_ms: u128,
    now: ClockReading,
) -> SnapshotView {
    SnapshotView {
        ts: now.wall,
        mono_ms: (now.mono_ns / NANOS_PER_MILLI) as u128,
        device: snapshot_device_of(monitor, true),
        freshness: Freshness {
            rtt_ms,
            age_ms: 0,
            stale: false,
            last_ok_ts: last_ok_wall(monitor),
        },
        status: MonitorStatusView { code: reading.status_code, failures: reading.failures },
        vars: reading.vars,
        quality: quality_of(monitor, rtt_ms, 0),
    }
}

/// The age that a failure snapshot reports: the time since the last good
/// read, or `disconnected_after_ms` where there was none.
pub open spec fn age_of(monitor: MonitorView, now: ClockReading) -> u128 {
    match monitor.last_ok {
        Some(reading) => elapsed_ms(reading.mono_ns, now.mono_ns),
        None => monitor.config.disconnected_after_ms as u128,
    }
}

/// The snapshot of a failure.
pub open spec fn disconnected_snapshot_of(
    monitor: MonitorView,
    reason: Seq<char>,
    rtt_ms: u128,
    now: ClockReading,
) -> SnapshotView {
    SnapshotView {
        ts: now.wall,
        mono_ms: (now.mono_ns / NANOS_PER_MILLI) as u128,
        device: snapshot_device_of(monitor, false),
        freshness: Freshness {
            rtt_ms,
            age_ms: age_of(monitor, now),
            stale: age_of(monitor, now) > monitor.config.stale_after_ms,
            last_ok_ts: last_ok_wall(monitor),
        },
        status: MonitorStatusView { code: disconnected_code(), failures: seq![reason] },
        vars: Map::empty(),
        quality: quality_of(monitor, rtt_ms, age_of(monitor, now)),
    }
}

/// The round trip that a failure snapshot made at `now` reports.
pub open spec fn failure_rtt_ms(rtt: FailureRtt, now: ClockReading) -> u128 {
    match rtt {
        FailureRtt::Since(started_ns) => elapsed_ms(started_ns, now.mono_ns),
        FailureRtt::Fixed(ms) => ms as u128,
    }
}

/// The monitor once a connect has returned: a device makes it stream, an
/// error leaves it connecting.
pub open spec fn ensure_connected_spec(
    monitor: MonitorView,
    outcome: Result<DeviceInfoView, DriverErrorView>,
) -> MonitorView {
    match outcome {
        Ok(device) => MonitorView {
            current: Some(device),
            state: ConnectionState::Streaming,
            ..monitor
        },
        Err(_) => MonitorView { state: ConnectionState::Connecting, ..monitor },
    }
}

/// The monitor after a failed read, before the threshold is looked at.
pub open spec fn after_read_failure(monitor: MonitorView) -> MonitorView {
    MonitorView {
        reads_err: bumped(monitor.reads_err),
        errors_in_row: longer(monitor.errors_in_row),
        effective_interval_ms: next_interval(
            monitor.config,
            monitor.effective_interval_ms,
            monitor.reads_ok,
            monitor.config.poll_timeout_ms,
            false,
        ),
        ..monitor
    }
}

/// Whether the failure streak has reached the threshold.
pub open spec fn must_reconnect(monitor: MonitorView) -> bool {
    monitor.errors_in_row >= monitor.config.error_threshold
}

/// The monitor and the step that follow a failed read.
pub open spec fn read_failure_spec(
    monitor: MonitorView,
    reason: Seq<char>,
    rtt: FailureRtt,
    now: ClockReading,
) -> (MonitorView, TickStepView) {
    let counted = after_read_failure(monitor);
    if must_reconnect(counted) {
        (
            MonitorView { state: ConnectionState::Reconnecting, ..counted },
            TickStepView::Disconnect(PendingFailureView { reason, rtt }),
        )
    } else {
        let degraded = MonitorView { state: ConnectionState::Degraded, ..counted };
        (
            degraded,
            TickStepView::Emit(
                disconnected_snapshot_of(degraded, reason, failure_rtt_ms(rtt, now), now),
            ),
        )
    }
}

/// The monitor after a good read that took `rtt_ns` and ended at `now`.
pub open spec fn after_read_success(monitor: MonitorView, rtt_ns: u64, now: ClockReading) -> MonitorView {
    MonitorView {
        reads_ok: bumped(monitor.reads_ok),
        errors_in_row: 0,
        last_ok: Some(now),
        state: ConnectionState::Streaming,
        effective_interval_ms: next_interval(
            monitor.config,
            monitor.effective_interval_ms,
            bumped(monitor.reads_ok),
            rtt_ns,
            true,
        ),
        ..monitor
    }
}

/// The monitor and the step that follow `event`.
///
/// A tick begins with a connect where the driver has no connection, else
/// with a read. A failed connect counts as a failure and ends the tick
/// disconnected. A good read resets the streak and ends the tick connected.
/// A failed or timed-out read counts as a failure; where the streak reaches
/// the threshold the driver is disconnected first and the reconnect counted,
/// else the monitor is degraded; either way the tick ends disconnected.
pub open spec fn tick_spec(monitor: MonitorView, event: TickEventView) -> (
    MonitorView,
    TickStepView,
) {
    match event {
        TickEventView::Begin { driver_connected } => if driver_connected {
            (monitor, TickStepView::Read { timeout_ms: monitor.config.poll_timeout_ms })
        } else {
            (
                MonitorView { state: ConnectionState::Connecting, ..monitor },
                TickStepView::Connect(monitor.target_id),
            )
        },
        TickEventView::Connected { outcome, now } => match outcome {
            Ok(_) => (
                ensure_connected_spec(monitor, outcome),
                TickStepView::Read { timeout_ms: monitor.config.poll_timeout_ms },
            ),
            Err(error) => {
                let failed = MonitorView {
                    reads_err: bumped(monitor.reads_err),
                    errors_in_row: longer(monitor.errors_in_row),
                    state: ConnectionState::Disconnected,
                    ..monitor
                };
                (
                    failed,
                    TickStepView::Emit(
                        disconnected_snapshot_of(failed, message_of(error), 0, now),
                    ),
                )
            },
        },
        TickEventView::ReadDone { outcome, started_ns, now } => match outcome {
            ReadOutcomeView::Data(reading) => {
                let streaming = after_read_success(
                    monitor,
                    elapsed_ns(started_ns, now.mono_ns),
                    now,
                );
                (
                    streaming,
                    TickStepView::Emit(
                        connected_snapshot_of(
                            streaming,
                            reading,
                            elapsed_ms(started_ns, now.mono_ns),
                            now,
                        ),
                    ),
                )
            },
            ReadOutcomeView::Failed(error) => read_failure_spec(
                monitor,
                message_of(error),
                FailureRtt::Since(started_ns),
                now,
            ),
            ReadOutcomeView::TimedOut => read_failure_spec(
                monitor,
                "timeout"@,
                FailureRtt::Fixed(monitor.config.poll_timeout_ms),
                now,
            ),
        },
        TickEventView::Disconnected { failure, now } => {
            let torn_down = MonitorView {
                reconnects: bumped(monitor.reconnects),
                current: None,
                ..monitor
            };
            (
                torn_down,
                TickStepView::Emit(
                    disconnected_snapshot_of(
                        torn_down,
                        failure.reason,
                        failure_rtt_ms(failure.rtt, now),
                        now,
                    ),
                ),
            )
        },
    }
}

fn bump(n: u64) -> (m: u64)
    ensures
        m == bumped(n),
{
    if n < u64::MAX {
        n + 1
    } else {
        n
    }
}

fn lengthen(n: u32) -> (m: u32)
    ensures
        m == longer(n),
{
    if n < u32::MAX {
        n + 1
    } else {
        n
    }
}

fn millis_between(from_ns: u64, to_ns: u64) -> (ms: u128)
    ensures
        ms == elapsed_ms(from_ns, to_ns),
{
    if to_ns >= from_ns {
        ((to_ns - from_ns) / NANOS_PER_MILLI) as u128
    } else {
        0
    }
}

fn nanos_between(from_ns: u64, to_ns: u64) -> (ns: u64)
    ensures
        ns == elapsed_ns(from_ns, to_ns),
{
    if to_ns >= from_ns {
        to_ns - from_ns
    } else {
        0
    }
}

fn raise(interval_ms: u64, step: u64, ceiling: u64) -> (out: u64)
    ensures
        out == raised(interval_ms, step, ceiling),
{
    let sum: u64 = interval_ms.saturating_add(step);
    if sum < ceiling {
        sum
    } else {
        ceiling
    }
}

fn lower(interval_ms: u64, step: u64, floor: u64) -> (out: u64)
    ensures
        out == lowered(interval_ms, step, floor),
{
    let rest: u64 = interval_ms.saturating_sub(step);
    if rest > floor {
        rest
    } else {
        floor
    }
}

fn is_slow(rtt_ns: u64, interval_ms: u64) -> (slow: bool)
    ensures
        slow == rtt_is_slow(rtt_ns, interval_ms),
{
    let taken: u128 = rtt_ns as u128 * 10;
    let allowed: u128 = interval_ms as u128 * 6_000_000;
    taken > allowed
}

impl Monitor {
    /// A monitor that has not connected yet and polls at the configured period.
    pub fn new(config: MonitorConfig, target_id: Option<String>) -> (monitor: Monitor)
        ensures
            monitor@ == (MonitorView {
                config,
                state: ConnectionState::Disconnected,
                target_id: opt_string_view(target_id),
                current: None,
                errors_in_row: 0,
                reads_ok: 0,
                reads_err: 0,
                reconnects: 0,
                effective_interval_ms: config.sample_interval_ms,
                last_ok: None,
            }),
    {
        Monitor {
            config,
            state: ConnectionState::Disconnected,
            target_id,
            current: None,
            errors_in_row: 0,
            reads_ok: 0,
            reads_err: 0,
            reconnects: 0,
            effective_interval_ms: config.sample_interval_ms,
            last_ok: None,
        }
    }

    /// The polling period now in force, in milliseconds.
    pub fn effective_interval(&self) -> (interval_ms: u64)
        ensures
            interval_ms == self@.effective_interval_ms,
    {
        self.effective_interval_ms
    }

    /// Where the connection stands.
    pub fn state(&self) -> (state: ConnectionState)
        ensures
            state == self@.state,
    {
        self.state
    }

    /// The configuration the monitor was made with.
    pub fn config(&self) -> (config: MonitorConfig)
        ensures
            config == self@.config,
    {
        self.config
    }

    /// The device id that connects prefer.
    pub fn target_id(&self) -> (target: Option<&str>)
        ensures
            opt_str_view(target) == self@.target_id,
    {
        match &self.target_id {
            Some(id) => Some(id.as_str()),
            None => None,
        }
    }

    /// Failures since the last good read.
    pub fn errors_in_row(&self) -> (count: u32)
        ensures
            count == self@.errors_in_row,
    {
        self.errors_in_row
    }

    /// Good reads so far.
    pub fn reads_ok(&self) -> (count: u64)
        ensures
            count == self@.reads_ok,
    {
        self.reads_ok
    }

    /// Failures so far.
    pub fn reads_err(&self) -> (count: u64)
        ensures
            count == self@.reads_err,
    {
        self.reads_err
    }

    /// Sessions torn down so far.
    pub fn reconnects(&self) -> (count: u64)
        ensures
            count == self@.reconnects,
    {
        self.reconnects
    }

    /// Records what the driver's connect returned, and hands it on.
    pub fn ensure_connected(&mut self, outcome: Result<DeviceInfo, DriverError>) -> (done: Result<
        DeviceInfo,
        DriverError,
    >)
        ensures
            final(self)@ == ensure_connected_spec(old(self)@, connect_view(outcome)),
            done == outcome,
    {
        self.state = ConnectionState::Connecting;
        match outcome {
            Ok(device) => {
                self.current = Some(device.clone());
                self.state = ConnectionState::Streaming;
                Ok(device)
            },
            Err(error) => Err(error),
        }
    }

    /// Advances a tick by one event.
    pub fn tick(&mut self, event: TickEvent) -> (step: TickStep)
        ensures
            final(self)@ == tick_spec(old(self)@, event@).0,
            step@ == tick_spec(old(self)@, event@).1,
    {
        match event {
            TickEvent::Begin { driver_connected } => {
                if driver_connected {
                    TickStep::Read { timeout_ms: self.config.poll_timeout_ms }
                } else {
                    self.state = ConnectionState::Connecting;
                    TickStep::Connect(
                        match &self.target_id {
                            Some(id) => Some(id.clone()),
                            None => None,
                        },
                    )
                }
            },
            TickEvent::Connected { outcome, now } => {
                match self.ensure_connected(outcome) {
                    Ok(_) => TickStep::Read { timeout_ms: self.config.poll_timeout_ms },
                    Err(error) => {
                        self.reads_err = bump(self.reads_err);
                        self.errors_in_row = lengthen(self.errors_in_row);
                        self.state = ConnectionState::Disconnected;
                        TickStep::Emit(self.disconnected_snapshot(error.message(), 0, now))
                    },
                }
            },
            TickEvent::ReadDone { outcome, started_ns, now } => {
                match outcome {
                    ReadOutcome::Data(reading) => {
                        self.reads_ok = bump(self.reads_ok);
                        self.errors_in_row = 0;
                        self.last_ok = Some(now);
                        self.state = ConnectionState::Streaming;
                        if self.config.auto_tune {
                            self.tune_interval(nanos_between(started_ns, now.mono_ns), true);
                        }
                        TickStep::Emit(
                            self.connected_snapshot(
                                reading,
                                millis_between(started_ns, now.mono_ns),
                                now,
                            ),
                        )
                    },
                    ReadOutcome::Failed(error) => self.read_failed(
                        error.message(),
                        FailureRtt::Since(started_ns),
                        now,
                    ),
                    ReadOutcome::TimedOut => self.read_failed(
                        String::from_str("timeout"),
                        FailureRtt::Fixed(self.config.poll_timeout_ms),
                        now,
                    ),
                }
            },
            TickEvent::Disconnected { failure, now } => {
                self.reconnects = bump(self.reconnects);
                self.current = None;
                let rtt_ms: u128 = failure_rtt(failure.rtt, now);
                TickStep::Emit(self.disconnected_snapshot(failure.reason, rtt_ms, now))
            },
        }
    }

    fn read_failed(&mut self, reason: String, rtt: FailureRtt, now: ClockReading) -> (step:
        TickStep)
        ensures
            final(self)@ == read_failure_spec(old(self)@, reason@, rtt, now).0,
            step@ == read_failure_spec(old(self)@, reason@, rtt, now).1,
    {
        self.reads_err = bump(self.reads_err);
        self.errors_in_row = lengthen(self.errors_in_row);
        if self.config.auto_tune {
            self.tune_interval(self.config.poll_timeout_ms, false);
        }
        if self.errors_in_row >= self.config.error_threshold {
            self.state = ConnectionState::Reconnecting;
            TickStep::Disconnect(PendingFailure { reason, rtt })
        } else {
            self.state = ConnectionState::Degraded;
            let rtt_ms: u128 = failure_rtt(rtt, now);
            TickStep::Emit(self.disconnected_snapshot(reason, rtt_ms, now))
        }
    }

    fn tune_interval(&mut self, rtt_ns: u64, ok: bool)
        ensures
            final(self)@ == (MonitorView {
                effective_interval_ms: tuned_interval(
                    old(self)@.config,
                    old(self)@.effective_interval_ms,
                    old(self)@.reads_ok,
                    rtt_ns,
                    ok,
                ),
                ..old(self)@
            }),
    {
        if !ok {
            self.effective_interval_ms = raise(
                self.effective_interval_ms,
                FAILURE_STEP_MS,
                self.config.sample_interval_max_ms,
            );
            return ;
        }
        if is_slow(rtt_ns, self.effective_interval_ms) {
            self.effective_interval_ms = raise(
                self.effective_interval_ms,
                SLOW_STEP_MS,
                self.config.sample_interval_max_ms,
            );
            return ;
        }
        if self.reads_ok % RECOVERY_EVERY == 0 {
            self.effective_interval_ms = lower(
                self.effective_interval_ms,
                RECOVERY_STEP_MS,
                self.config.sample_interval_min_ms,
            );
        }
    }

    fn quality(&self, poll_ms: u128, stale_ms: u128) -> (quality: SnapshotQuality)
        ensures
            quality == quality_of(self@, poll_ms, stale_ms),
    {
        SnapshotQuality {
            poll_ms,
            stale_ms,
            reads_ok: self.reads_ok,
            reads_err: self.reads_err,
            reconnects: self.reconnects,
            effective_interval_ms: self.effective_interval_ms as u128,
        }
    }

    fn last_ok_ts(&self) -> (ts: Option<WallTime>)
        ensures
            ts == last_ok_wall(self@),
    {
        match self.last_ok {
            Some(reading) => Some(reading.wall),
            None => None,
        }
    }

    fn connected_snapshot(&self, reading: ReadResult, rtt_ms: u128, now: ClockReading) -> (snapshot:
        Snapshot)
        ensures
            snapshot@ == connected_snapshot_of(self@, reading@, rtt_ms, now),
    {
        Snapshot {
            ts: now.wall,
            mono_ms: (now.mono_ns / NANOS_PER_MILLI) as u128,
            device: self.snapshot_device(true),
            freshness: Freshness {
                rtt_ms,
                age_ms: 0,
                stale: false,
                last_ok_ts: self.last_ok_ts(),
            },
            status: MonitorStatus { code: reading.status_code, failures: reading.failures },
            vars: reading.vars,
            quality: self.quality(rtt_ms, 0),
        }
    }

    fn disconnected_snapshot(&self, reason: String, rtt_ms: u128, now: ClockReading) -> (snapshot:
        Snapshot)
        ensures
            snapshot@ == disconnected_snapshot_of(self@, reason@, rtt_ms, now),
    {
        let age_ms: u128 = match self.last_ok {
            Some(reading) => millis_between(reading.mono_ns, now.mono_ns),
            None => self.config.disconnected_after_ms as u128,
        };
        let stale: bool = age_ms > self.config.stale_after_ms as u128;
        let mut failures: Vec<String> = Vec::new();
        failures.push(reason);
        let snapshot = Snapshot {
            ts: now.wall,
            mono_ms: (now.mono_ns / NANOS_PER_MILLI) as u128,
            device: self.snapshot_device(false),
            freshness: Freshness { rtt_ms, age_ms, stale, last_ok_ts: self.last_ok_ts() },
            status: MonitorStatus { code: String::from_str("DISCONNECTED"), failures },
            vars: Vars::new(),
            quality: self.quality(rtt_ms, age_ms),
        };
        assert(snapshot@.status.failures =~= seq![reason@]);
        snapshot
    }

    fn snapshot_device(&self, connected: bool) -> (device: SnapshotDevice)
        ensures
            device@ == snapshot_device_of(self@, connected),
    {
        match &self.current {
            Some(current) => SnapshotDevice {
                id: current.id.clone(),
                model: current.model.clone(),
                transport: Transport {
                    kind: current.transport.clone(),
                    path: current.path.clone(),
                    vid: current.vid.clone(),
                    pid: current.pid.clone(),
                },
                connected,
            },
            None => SnapshotDevice {
                id: match &self.target_id {
                    Some(id) => id.clone(),
                    None => String::from_str("unknown"),
                },
                model: String::from_str("RagTech 3200VA"),
                transport: Transport {
                    kind: String::from_str("unknown"),
                    path: String::new(),
                    vid: String::new(),
                    pid: String::new(),
                },
                connected,
            },
        }
    }
}

fn failure_rtt(rtt: FailureRtt, now: ClockReading) -> (ms: u128)
    ensures
        ms == failure_rtt_ms(rtt, now),
{
    match rtt {
        FailureRtt::Since(started_ns) => millis_between(started_ns, now.mono_ns),
        FailureRtt::Fixed(ms) => ms as u128,
    }
}

} // verus!
