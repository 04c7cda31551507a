//! What holds of a monitor over one event, over one whole tick, and over
//! runs of ticks.

use vstd::prelude::*;
use crate::device::DeviceInfoView;
use crate::driver::DriverErrorView;
use crate::monitor::{
    after_read_failure, bumped, elapsed_ns, longer, lowered, must_reconnect, next_interval,
    rtt_is_slow, tick_spec, ClockReading, ConnectionState, MonitorView, ReadOutcomeView,
    TickEventView, TickStepView, NANOS_PER_MILLI, RECOVERY_EVERY, RECOVERY_STEP_MS,
};
use crate::snapshot::{disconnected_code, snapshot_consistent, SnapshotView};
use crate::vars::VarValueView;

verus! {

/// Whether the polling period lies within the configured bounds.
pub open spec fn interval_in_bounds(monitor: MonitorView) -> bool {
    monitor.config.sample_interval_min_ms <= monitor.effective_interval_ms
        <= monitor.config.sample_interval_max_ms
}

/// Whether the event reports a read that failed or timed out.
pub open spec fn is_read_failure(event: TickEventView) -> bool {
    event matches TickEventView::ReadDone { outcome, .. } && !(outcome is Data)
}

/// Whether the event reports a good read under the status code that is
/// reserved for snapshots without a connection.
pub open spec fn reads_disconnected_code(event: TickEventView) -> bool {
    event matches TickEventView::ReadDone { outcome: ReadOutcomeView::Data(reading), .. }
        && reading.status_code == disconnected_code()
}

/// The clock reading that an event carries; a tick's beginning carries none.
pub open spec fn event_clock(event: TickEventView) -> Option<ClockReading> {
    match event {
        TickEventView::Begin { .. } => None,
        TickEventView::Connected { now, .. } => Some(now),
        TickEventView::ReadDone { now, .. } => Some(now),
        TickEventView::Disconnected { now, .. } => Some(now),
    }
}

/// Each event leads to one of the steps that may follow it, and only the end
/// of a read can ask for the driver to be disconnected.
pub proof fn lemma_steps_follow_events(monitor: MonitorView, event: TickEventView)
    ensures
        event is Begin ==> tick_spec(monitor, event).1 is Connect || tick_spec(
            monitor,
            event,
        ).1 is Read,
        event is Connected ==> tick_spec(monitor, event).1 is Read || tick_spec(
            monitor,
            event,
        ).1 is Emit,
        event is ReadDone ==> tick_spec(monitor, event).1 is Emit || tick_spec(
            monitor,
            event,
        ).1 is Disconnect,
        event is Disconnected ==> tick_spec(monitor, event).1 is Emit,
{
}

/// Every snapshot that a tick emits is consistent in itself, reports the
/// monitor's counters and polling period as they stand after the event, and
/// is connected exactly when it ends a good read. The one reading left out
/// is a good one under the status code reserved for disconnected snapshots.
pub proof fn lemma_emitted_snapshot_consistent(monitor: MonitorView, event: TickEventView)
    requires
        !reads_disconnected_code(event),
    ensures
        tick_spec(monitor, event).1 matches TickStepView::Emit(snapshot) ==> {
            &&& snapshot_consistent(snapshot, monitor.config.stale_after_ms)
            &&& snapshot.device.connected == (event matches TickEventView::ReadDone {
                outcome: ReadOutcomeView::Data(_),
                ..
            })
            &&& snapshot.quality.reads_ok == tick_spec(monitor, event).0.reads_ok
            &&& snapshot.quality.reads_err == tick_spec(monitor, event).0.reads_err
            &&& snapshot.quality.reconnects == tick_spec(monitor, event).0.reconnects
            &&& snapshot.quality.effective_interval_ms == tick_spec(
                monitor,
                event,
            ).0.effective_interval_ms
            &&& !snapshot.device.connected ==> snapshot.vars == Map::<
                Seq<char>,
                VarValueView,
            >::empty()
        },
{
}

/// A snapshot is stamped with the clocks of the event that it ends: the
/// wall clock as it is, the monotonic clock in whole milliseconds. So the
/// snapshots of a clock that does not run backwards are in order.
pub proof fn lemma_snapshot_stamped_by_event(monitor: MonitorView, event: TickEventView)
    ensures
        tick_spec(monitor, event).1 matches TickStepView::Emit(snapshot) ==> {
            &&& event_clock(event) matches Some(now)
            &&& snapshot.ts == now.wall
            &&& snapshot.mono_ms == now.mono_ns / NANOS_PER_MILLI
        },
{
}

/// No event lowers a counter or changes the configuration or the target.
pub proof fn lemma_counters_never_fall(monitor: MonitorView, event: TickEventView)
    ensures
        tick_spec(monitor, event).0.reads_ok >= monitor.reads_ok,
        tick_spec(monitor, event).0.reads_err >= monitor.reads_err,
        tick_spec(monitor, event).0.reconnects >= monitor.reconnects,
        tick_spec(monitor, event).0.config == monitor.config,
        tick_spec(monitor, event).0.target_id == monitor.target_id,
{
}

/// A polling period within the configured bounds stays within them.
pub proof fn lemma_interval_stays_in_bounds(monitor: MonitorView, event: TickEventView)
    requires
        interval_in_bounds(monitor),
    ensures
        interval_in_bounds(tick_spec(monitor, event).0),
{
}

/// A new monitor over a well-formed configuration polls at the configured
/// period, which lies within the bounds.
pub proof fn lemma_new_monitor_in_bounds(monitor: MonitorView)
    requires
        monitor.config.well_formed(),
        monitor.effective_interval_ms == monitor.config.sample_interval_ms,
    ensures
        interval_in_bounds(monitor),
{
}

/// A failed read asks for the driver to be disconnected exactly where the
/// streak, with this failure counted, has reached the threshold. It counts
/// one failure and no reconnect: that is counted, once, when the disconnect
/// is reported, and the monitor then has no current device.
pub proof fn lemma_failure_escalates(
    monitor: MonitorView,
    event: TickEventView,
    teardown: TickEventView,
)
    requires
        is_read_failure(event),
        teardown is Disconnected,
    ensures
        tick_spec(monitor, event).1 is Disconnect <==> must_reconnect(after_read_failure(monitor)),
        tick_spec(monitor, event).1 is Emit <==> !must_reconnect(after_read_failure(monitor)),
        tick_spec(monitor, event).0.errors_in_row == longer(monitor.errors_in_row),
        tick_spec(monitor, event).0.reads_err == bumped(monitor.reads_err),
        tick_spec(monitor, event).0.reconnects == monitor.reconnects,
        tick_spec(monitor, event).0.state == if must_reconnect(after_read_failure(monitor)) {
            ConnectionState::Reconnecting
        } else {
            ConnectionState::Degraded
        },
        tick_spec(monitor, teardown).0.reconnects == bumped(monitor.reconnects),
        tick_spec(monitor, teardown).0.current is None,
{
}

/// What the outside gives in the course of one tick: what the driver
/// answers to each call that the tick may make, and the clocks after each.
pub struct TickInputs {
    /// Whether the driver is connected as the tick begins.
    pub driver_connected: bool,
    /// What a connect returns.
    pub connect: Result<DeviceInfoView, DriverErrorView>,
    /// The clocks after the connect.
    pub connected_at: ClockReading,
    /// How a read ends.
    pub read: ReadOutcomeView,
    /// The monotonic clock before the read.
    pub started_ns: u64,
    /// The clocks after the read.
    pub read_at: ClockReading,
    /// The clocks after a disconnect.
    pub disconnected_at: ClockReading,
}

/// The monitor and the step after the action that `step` asks for has been
/// performed and reported. A tick that is over stays as it is.
pub open spec fn perform(monitor: MonitorView, step: TickStepView, inputs: TickInputs) -> (
    MonitorView,
    TickStepView,
) {
    match step {
        TickStepView::Connect(_) => tick_spec(
            monitor,
            TickEventView::Connected { outcome: inputs.connect, now: inputs.connected_at },
        ),
        TickStepView::Read { .. } => tick_spec(
            monitor,
            TickEventView::ReadDone {
                outcome: inputs.read,
                started_ns: inputs.started_ns,
                now: inputs.read_at,
            },
        ),
        TickStepView::Disconnect(failure) => tick_spec(
            monitor,
            TickEventView::Disconnected { failure, now: inputs.disconnected_at },
        ),
        TickStepView::Emit(_) => (monitor, step),
    }
}

/// The monitor as a tick begins, with the first step.
pub open spec fn begun(monitor: MonitorView, inputs: TickInputs) -> (MonitorView, TickStepView) {
    tick_spec(monitor, TickEventView::Begin { driver_connected: inputs.driver_connected })
}

/// The monitor after one whole tick, with the last step: the beginning and
/// up to three actions performed.
#[verifier::opaque]
pub open spec fn whole_tick(monitor: MonitorView, inputs: TickInputs) -> (
    MonitorView,
    TickStepView,
) {
    let first = perform(begun(monitor, inputs).0, begun(monitor, inputs).1, inputs);
    let second = perform(first.0, first.1, inputs);
    perform(second.0, second.1, inputs)
}

/// Whether the tick asks for the driver to be connected.
pub open spec fn tick_connects(monitor: MonitorView, inputs: TickInputs) -> bool {
    begun(monitor, inputs).1 is Connect
}

/// Whether the tick asks for the driver to be disconnected.
#[verifier::opaque]
pub open spec fn tick_disconnects(monitor: MonitorView, inputs: TickInputs) -> bool {
    let first = perform(begun(monitor, inputs).0, begun(monitor, inputs).1, inputs);
    let second = perform(first.0, first.1, inputs);
    first.1 is Disconnect || second.1 is Disconnect
}

/// Whether the tick gets as far as a read: the driver is connected, or
/// connects.
pub open spec fn reaches_read(inputs: TickInputs) -> bool {
    inputs.driver_connected || inputs.connect is Ok
}

/// Whether the tick fails: the connect does, or the read does.
pub open spec fn tick_fails(inputs: TickInputs) -> bool {
    !reaches_read(inputs) || !(inputs.read is Data)
}

/// Whether the tick's read fails while the driver is connected.
pub open spec fn read_fails(inputs: TickInputs) -> bool {
    inputs.driver_connected && !(inputs.read is Data)
}

/// Whether the tick ends in a good read whose round trip is not slow for
/// the given polling period.
pub open spec fn reads_quickly(inputs: TickInputs, interval_ms: u64) -> bool {
    &&& reaches_read(inputs)
    &&& inputs.read is Data
    &&& !rtt_is_slow(elapsed_ns(inputs.started_ns, inputs.read_at.mono_ns), interval_ms)
}

/// The snapshot that the tick ends in.
pub open spec fn tick_snapshot(monitor: MonitorView, inputs: TickInputs) -> SnapshotView {
    whole_tick(monitor, inputs).1->Emit_0
}

/// What one whole tick does to the counters, the streak and the polling
/// period, case by case, and when it connects and disconnects the driver.
///
/// A tick asks for a connect exactly where the driver is not connected.
/// Where the connect fails, a failure is counted and the period is left
/// alone. A good read is counted, ends the streak and tunes the period. A
/// failed read is counted, lengthens the streak and tunes the period; it
/// asks for a disconnect, and counts a reconnect, exactly where the streak
/// has reached the threshold.
pub proof fn lemma_whole_tick(monitor: MonitorView, inputs: TickInputs)
    ensures
        whole_tick(monitor, inputs).1 is Emit,
        whole_tick(monitor, inputs).0.config == monitor.config,
        whole_tick(monitor, inputs).0.target_id == monitor.target_id,
        tick_connects(monitor, inputs) == !inputs.driver_connected,
        tick_snapshot(monitor, inputs).device.connected == !tick_fails(inputs),
        !reaches_read(inputs) ==> {
            &&& whole_tick(monitor, inputs).0.errors_in_row == longer(monitor.errors_in_row)
            &&& whole_tick(monitor, inputs).0.reads_err == bumped(monitor.reads_err)
            &&& whole_tick(monitor, inputs).0.reads_ok == monitor.reads_ok
            &&& whole_tick(monitor, inputs).0.reconnects == monitor.reconnects
            &&& whole_tick(monitor, inputs).0.effective_interval_ms
                == monitor.effective_interval_ms
            &&& whole_tick(monitor, inputs).0.state == ConnectionState::Disconnected
            &&& !tick_disconnects(monitor, inputs)
        },
        reaches_read(inputs) && inputs.read is Data ==> {
            &&& whole_tick(monitor, inputs).0.errors_in_row == 0
            &&& whole_tick(monitor, inputs).0.reads_ok == bumped(monitor.reads_ok)
            &&& whole_tick(monitor, inputs).0.reads_err == monitor.reads_err
            &&& whole_tick(monitor, inputs).0.reconnects == monitor.reconnects
            &&& whole_tick(monitor, inputs).0.effective_interval_ms == next_interval(
                monitor.config,
                monitor.effective_interval_ms,
                bumped(monitor.reads_ok),
                elapsed_ns(inputs.started_ns, inputs.read_at.mono_ns),
                true,
            )
            &&& whole_tick(monitor, inputs).0.state == ConnectionState::Streaming
            &&& !tick_disconnects(monitor, inputs)
        },
        reaches_read(inputs) && !(inputs.read is Data) ==> {
            &&& whole_tick(monitor, inputs).0.errors_in_row == longer(monitor.errors_in_row)
            &&& whole_tick(monitor, inputs).0.reads_err == bumped(monitor.reads_err)
            &&& whole_tick(monitor, inputs).0.reads_ok == monitor.reads_ok
            &&& whole_tick(monitor, inputs).0.effective_interval_ms == next_interval(
                monitor.config,
                monitor.effective_interval_ms,
                monitor.reads_ok,
                monitor.config.poll_timeout_ms,
                false,
            )
            &&& tick_disconnects(monitor, inputs) == (longer(monitor.errors_in_row)
                >= monitor.config.error_threshold)
            &&& whole_tick(monitor, inputs).0.reconnects == if tick_disconnects(monitor, inputs) {
                bumped(monitor.reconnects)
            } else {
                monitor.reconnects
            }
            &&& whole_tick(monitor, inputs).0.state == if tick_disconnects(monitor, inputs) {
                ConnectionState::Reconnecting
            } else {
                ConnectionState::Degraded
            }
        },
{
    reveal(whole_tick);
    reveal(tick_disconnects);
}

/// Every tick yields a snapshot, and the snapshot is consistent in itself
/// and reports the counters and the polling period as the tick leaves
/// them. The one reading left out is a good one under the status code
/// reserved for disconnected snapshots.
pub proof fn lemma_every_tick_yields_snapshot(monitor: MonitorView, inputs: TickInputs)
    requires
        !(inputs.read matches ReadOutcomeView::Data(reading) && reading.status_code
            == disconnected_code()),
    ensures
        whole_tick(monitor, inputs).1 is Emit,
        snapshot_consistent(tick_snapshot(monitor, inputs), monitor.config.stale_after_ms),
        tick_snapshot(monitor, inputs).quality.reads_ok == whole_tick(monitor, inputs).0.reads_ok,
        tick_snapshot(monitor, inputs).quality.reads_err == whole_tick(
            monitor,
            inputs,
        ).0.reads_err,
        tick_snapshot(monitor, inputs).quality.reconnects == whole_tick(
            monitor,
            inputs,
        ).0.reconnects,
        tick_snapshot(monitor, inputs).quality.effective_interval_ms == whole_tick(
            monitor,
            inputs,
        ).0.effective_interval_ms,
{
    reveal(whole_tick);
}

/// Over one tick no counter falls, and a polling period within the bounds
/// stays within them.
pub proof fn lemma_tick_keeps_invariants(monitor: MonitorView, inputs: TickInputs)
    ensures
        whole_tick(monitor, inputs).0.reads_ok >= monitor.reads_ok,
        whole_tick(monitor, inputs).0.reads_err >= monitor.reads_err,
        whole_tick(monitor, inputs).0.reconnects >= monitor.reconnects,
        interval_in_bounds(monitor) ==> interval_in_bounds(whole_tick(monitor, inputs).0),
{
    lemma_whole_tick(monitor, inputs);
}

/// The monitor after a run of ticks.
pub open spec fn run(monitor: MonitorView, ticks: Seq<TickInputs>) -> MonitorView
    decreases ticks.len(),
{
    if ticks.len() == 0 {
        monitor
    } else {
        whole_tick(run(monitor, ticks.drop_last()), ticks.last()).0
    }
}

/// How many ticks of a run ask for the driver to be disconnected.
pub open spec fn disconnects_in(monitor: MonitorView, ticks: Seq<TickInputs>) -> nat
    decreases ticks.len(),
{
    if ticks.len() == 0 {
        0
    } else if tick_disconnects(run(monitor, ticks.drop_last()), ticks.last()) {
        disconnects_in(monitor, ticks.drop_last()) + 1
    } else {
        disconnects_in(monitor, ticks.drop_last())
    }
}

/// Over any run of ticks, a monitor that starts within the bounds stays
/// within them, its configuration stays, and its counters end no lower
/// than they began.
pub proof fn lemma_run_keeps_invariants(monitor: MonitorView, ticks: Seq<TickInputs>)
    ensures
        interval_in_bounds(monitor) ==> interval_in_bounds(run(monitor, ticks)),
        run(monitor, ticks).config == monitor.config,
        run(monitor, ticks).reads_ok >= monitor.reads_ok,
        run(monitor, ticks).reads_err >= monitor.reads_err,
        run(monitor, ticks).reconnects >= monitor.reconnects,
    decreases ticks.len(),
{
    if ticks.len() > 0 {
        lemma_run_keeps_invariants(monitor, ticks.drop_last());
        lemma_whole_tick(run(monitor, ticks.drop_last()), ticks.last());
        lemma_tick_keeps_invariants(run(monitor, ticks.drop_last()), ticks.last());
    }
}

proof fn lemma_run_step(monitor: MonitorView, ticks: Seq<TickInputs>, n: int)
    requires
        0 < n <= ticks.len(),
    ensures
        run(monitor, ticks.take(n)) == whole_tick(
            run(monitor, ticks.take(n - 1)),
            ticks[n - 1],
        ).0,
        disconnects_in(monitor, ticks.take(n)) == disconnects_in(monitor, ticks.take(n - 1)) + (
        if tick_disconnects(run(monitor, ticks.take(n - 1)), ticks[n - 1]) {
            1nat
        } else {
            0nat
        }),
{
    assert(ticks.take(n).drop_last() =~= ticks.take(n - 1));
    assert(ticks.take(n).last() == ticks[n - 1]);
}

proof fn lemma_streak_grows(monitor: MonitorView, ticks: Seq<TickInputs>, n: int)
    requires
        monitor.errors_in_row == 0,
        0 <= n <= ticks.len(),
        n < monitor.config.error_threshold,
        forall|i: int| 0 <= i < ticks.len() ==> read_fails(#[trigger] ticks[i]),
    ensures
        run(monitor, ticks.take(n)).errors_in_row == n,
        run(monitor, ticks.take(n)).reconnects == monitor.reconnects,
        run(monitor, ticks.take(n)).config == monitor.config,
        disconnects_in(monitor, ticks.take(n)) == 0,
    decreases n,
{
    if n > 0 {
        lemma_streak_grows(monitor, ticks, n - 1);
        lemma_run_step(monitor, ticks, n);
        assert(read_fails(ticks[n - 1]));
        lemma_whole_tick(run(monitor, ticks.take(n - 1)), ticks[n - 1]);
    } else {
        assert(ticks.take(0).len() == 0);
    }
}

/// With a threshold of `k`, `k` ticks in a row whose reads fail, starting
/// from no streak, disconnect the driver exactly once, in the last of them,
/// and count exactly one reconnect. The tick that follows finds the driver
/// without a connection and begins with a connect.
pub proof fn lemma_streak_reconnects_once(
    monitor: MonitorView,
    ticks: Seq<TickInputs>,
    next: TickInputs,
)
    requires
        monitor.errors_in_row == 0,
        monitor.config.error_threshold >= 1,
        ticks.len() == monitor.config.error_threshold,
        forall|i: int| 0 <= i < ticks.len() ==> read_fails(#[trigger] ticks[i]),
        !next.driver_connected,
    ensures
        disconnects_in(monitor, ticks) == 1,
        disconnects_in(monitor, ticks.drop_last()) == 0,
        tick_disconnects(run(monitor, ticks.drop_last()), ticks.last()),
        run(monitor, ticks).reconnects == bumped(monitor.reconnects),
        run(monitor, ticks.drop_last()).reconnects == monitor.reconnects,
        run(monitor, ticks).state == ConnectionState::Reconnecting,
        tick_connects(run(monitor, ticks), next),
{
    let k = ticks.len() as int;
    lemma_streak_grows(monitor, ticks, k - 1);
    assert(ticks.drop_last() =~= ticks.take(k - 1));
    assert(ticks.last() == ticks[k - 1]);
    assert(read_fails(ticks[k - 1]));
    lemma_whole_tick(run(monitor, ticks.take(k - 1)), ticks[k - 1]);
    lemma_whole_tick(run(monitor, ticks), next);
}

/// A failed tick never lowers the polling period, and never takes a period
/// that is within the maximum beyond it.
pub proof fn lemma_failure_raises_interval(monitor: MonitorView, inputs: TickInputs)
    requires
        tick_fails(inputs),
        monitor.effective_interval_ms <= monitor.config.sample_interval_max_ms,
    ensures
        monitor.effective_interval_ms <= whole_tick(monitor, inputs).0.effective_interval_ms
            <= monitor.config.sample_interval_max_ms,
{
    lemma_whole_tick(monitor, inputs);
}

/// Over a run of failed ticks that starts at the configured period, the
/// polling period never falls from one tick to a later one and stays
/// between the configured period and the maximum.
pub proof fn lemma_failures_never_lower_interval(
    monitor: MonitorView,
    ticks: Seq<TickInputs>,
    i: int,
    j: int,
)
    requires
        monitor.config.sample_interval_ms <= monitor.config.sample_interval_max_ms,
        monitor.effective_interval_ms == monitor.config.sample_interval_ms,
        forall|n: int| 0 <= n < ticks.len() ==> tick_fails(#[trigger] ticks[n]),
        0 <= i <= j <= ticks.len(),
    ensures
        monitor.config.sample_interval_ms <= run(monitor, ticks.take(i)).effective_interval_ms,
        run(monitor, ticks.take(i)).effective_interval_ms <= run(
            monitor,
            ticks.take(j),
        ).effective_interval_ms,
        run(monitor, ticks.take(j)).effective_interval_ms
            <= monitor.config.sample_interval_max_ms,
    decreases j,
{
    if j == 0 {
        assert(ticks.take(0).len() == 0);
    } else {
        if i == j {
            lemma_failures_never_lower_interval(monitor, ticks, i - 1, j - 1);
        } else {
            lemma_failures_never_lower_interval(monitor, ticks, i, j - 1);
        }
        lemma_failures_never_lower_interval(monitor, ticks, j - 1, j - 1);
        lemma_run_step(monitor, ticks, j);
        lemma_run_keeps_invariants(monitor, ticks.take(j - 1));
        assert(tick_fails(ticks[j - 1]));
        lemma_failure_raises_interval(run(monitor, ticks.take(j - 1)), ticks[j - 1]);
    }
}

proof fn lemma_quick_read_holds_interval(monitor: MonitorView, inputs: TickInputs)
    requires
        monitor.config.auto_tune,
        monitor.reads_ok < u64::MAX,
        (monitor.reads_ok + 1) % (RECOVERY_EVERY as int) != 0,
        reads_quickly(inputs, monitor.effective_interval_ms),
    ensures
        whole_tick(monitor, inputs).0.effective_interval_ms == monitor.effective_interval_ms,
        whole_tick(monitor, inputs).0.reads_ok == monitor.reads_ok + 1,
        whole_tick(monitor, inputs).0.config == monitor.config,
{
    lemma_whole_tick(monitor, inputs);
}

proof fn lemma_quick_reads_hold_interval(monitor: MonitorView, ticks: Seq<TickInputs>, n: int)
    requires
        monitor.config.auto_tune,
        monitor.reads_ok % RECOVERY_EVERY == 0,
        monitor.reads_ok + RECOVERY_EVERY <= u64::MAX,
        0 <= n <= ticks.len(),
        n < RECOVERY_EVERY,
        forall|i: int|
            0 <= i < ticks.len() ==> reads_quickly(
                #[trigger] ticks[i],
                monitor.effective_interval_ms,
            ),
    ensures
        run(monitor, ticks.take(n)).effective_interval_ms == monitor.effective_interval_ms,
        run(monitor, ticks.take(n)).reads_ok == monitor.reads_ok + n,
        run(monitor, ticks.take(n)).config == monitor.config,
    decreases n,
{
    if n > 0 {
        lemma_quick_reads_hold_interval(monitor, ticks, n - 1);
        lemma_run_step(monitor, ticks, n);
        assert(reads_quickly(ticks[n - 1], monitor.effective_interval_ms));
        let before = run(monitor, ticks.take(n - 1));
        assert((monitor.reads_ok + n) % 30 != 0) by {
            assert(monitor.reads_ok % 30 == 0);
            assert(0 < n < 30);
        }
        lemma_quick_read_holds_interval(before, ticks[n - 1]);
    } else {
        assert(ticks.take(0).len() == 0);
    }
}

/// Where tuning is on, thirty ticks in a row that end in good reads, none
/// of them slow, counted from a multiple of thirty, lower the polling
/// period by exactly one recovery step, and not beneath the minimum.
pub proof fn lemma_thirty_quick_reads_lower_interval(monitor: MonitorView, ticks: Seq<TickInputs>)
    requires
        monitor.config.auto_tune,
        monitor.reads_ok % RECOVERY_EVERY == 0,
        monitor.reads_ok + RECOVERY_EVERY <= u64::MAX,
        ticks.len() == RECOVERY_EVERY,
        forall|i: int|
            0 <= i < ticks.len() ==> reads_quickly(
                #[trigger] ticks[i],
                monitor.effective_interval_ms,
            ),
    ensures
        run(monitor, ticks).effective_interval_ms == lowered(
            monitor.effective_interval_ms,
            RECOVERY_STEP_MS,
            monitor.config.sample_interval_min_ms,
        ),
{
    let last = RECOVERY_EVERY as int - 1;
    lemma_quick_reads_hold_interval(monitor, ticks, last);
    assert(ticks.drop_last() =~= ticks.take(last));
    assert(ticks.last() == ticks[last]);
    assert(reads_quickly(ticks[last], monitor.effective_interval_ms));
    lemma_whole_tick(run(monitor, ticks.take(last)), ticks[last]);
}

} // verus!
