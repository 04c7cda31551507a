//! The snapshot that a monitor emits once per tick.

use vstd::prelude::*;
use crate::text::string_views;
use crate::vars::{VarValueView, Vars};

verus! {

/// A UTC wall-clock instant: seconds since the Unix epoch and the
/// nanoseconds within that second.
#[derive(Debug, Clone, Copy, PartialEq, Eq)]
pub struct WallTime {
    pub unix_secs: i64,
    pub subsec_nanos: u32,
}

/// The transport a device is reached over.
#[derive(Debug, Clone, PartialEq, Eq)]
pub struct Transport {
    pub kind: String,
    pub path: String,
    pub vid: String,
    pub pid: String,
}

pub struct TransportView {
    pub kind: Seq<char>,
    pub path: Seq<char>,
    pub vid: Seq<char>,
    pub pid: Seq<char>,
}

impl View for Transport {
    type V = TransportView;

    open spec fn view(&self) -> TransportView {
        TransportView { kind: self.kind@, path: self.path@, vid: self.vid@, pid: self.pid@ }
    }
}

/// The device a snapshot speaks of, and whether it is connected.
#[derive(Debug, Clone, PartialEq, Eq)]
pub struct SnapshotDevice {
    pub id: String,
    pub model: String,
    pub transport: Transport,
    pub connected: bool,
}

pub struct SnapshotDeviceView {
    pub id: Seq<char>,
    pub model: Seq<char>,
    pub transport: TransportView,
    pub connected: bool,
}

impl View for SnapshotDevice {
    type V = SnapshotDeviceView;

    open spec fn view(&self) -> SnapshotDeviceView {
        SnapshotDeviceView {
            id: self.id@,
            model: self.model@,
            transport: self.transport@,
            connected: self.connected,
        }
    }
}

/// How fresh the snapshot's data is.
#[derive(Debug, Clone, Copy, PartialEq, Eq)]
pub struct Freshness {
    /// Round-trip time of the read, in milliseconds.
    pub rtt_ms: u128,
    /// Milliseconds since the last successful read.
    pub age_ms: u128,
    pub stale: bool,
    /// Wall-clock time of the last successful read.
    pub last_ok_ts: Option<WallTime>,
}

/// The status code with the failures that led to it.
#[derive(Debug, Clone, PartialEq, Eq)]
pub struct MonitorStatus {
    pub code: String,
    pub failures: Vec<String>,
}

pub struct MonitorStatusView {
    pub code: Seq<char>,
    pub failures: Seq<Seq<char>>,
}

impl View for MonitorStatus {
    type V = MonitorStatusView;

    open spec fn view(&self) -> MonitorStatusView {
        MonitorStatusView { code: self.code@, failures: string_views(self.failures@) }
    }
}

/// Counters and timings that describe the quality of the stream.
#[derive(Debug, Clone, Copy, PartialEq, Eq)]
pub struct SnapshotQuality {
    pub poll_ms: u128,
    /// Staleness in milliseconds; consumers show it in seconds.
    pub stale_ms: u128,
    pub reads_ok: u64,
    pub reads_err: u64,
    pub reconnects: u64,
    pub effective_interval_ms: u128,
}

/// What one tick emits, whether the read succeeded or not.
#[derive(Debug, Clone, PartialEq, Eq)]
pub struct Snapshot {
    /// Wall-clock time at which the snapshot was made.
    pub ts: WallTime,
    /// Monotonic milliseconds since the monitor was made.
    pub mono_ms: u128,
    pub device: SnapshotDevice,
    pub freshness: Freshness,
    pub status: MonitorStatus,
    pub vars: Vars,
    pub quality: SnapshotQuality,
}

pub struct SnapshotView {
    pub ts: WallTime,
    pub mono_ms: u128,
    pub device: SnapshotDeviceView,
    pub freshness: Freshness,
    pub status: MonitorStatusView,
    pub vars: Map<Seq<char>, VarValueView>,
    pub quality: SnapshotQuality,
}

impl View for Snapshot {
    type V = SnapshotView;

    open spec fn view(&self) -> SnapshotView {
        SnapshotView {
            ts: self.ts,
            mono_ms: self.mono_ms,
            device: self.device@,
            freshness: self.freshness,
            status: self.status@,
            vars: self.vars@,
            quality: self.quality,
        }
    }
}

/// The status code of every snapshot without a connection.
pub open spec fn disconnected_code() -> Seq<char> {
    "DISCONNECTED"@
}

/// What holds of a snapshot on its own: a connected one carries another
/// status code than the disconnected one, is not stale and has age zero; a
/// disconnected one carries that code and at least one failure; and the stale
/// flag says whether the age exceeds `stale_after_ms`.
pub open spec fn snapshot_consistent(snapshot: SnapshotView, stale_after_ms: u64) -> bool {
    &&& snapshot.device.connected ==> {
        &&& snapshot.status.code != disconnected_code()
        &&& !snapshot.freshness.stale
        &&& snapshot.freshness.age_ms == 0
    }
    &&& !snapshot.device.connected ==> {
        &&& snapshot.status.code == disconnected_code()
        &&& snapshot.status.failures.len() > 0
    }
    &&& snapshot.freshness.stale == (snapshot.freshness.age_ms > stale_after_ms)
}

} // verus!
