//! The record that one snapshot becomes in the exported log: identity,
//! freshness and status, with the metrics and the raw frame picked out of
//! the variables by name.

use vstd::prelude::*;
use crate::snapshot::{
    Freshness, MonitorStatus, MonitorStatusView, Snapshot, SnapshotView, Transport,
    TransportView, WallTime,
};
use crate::vars::{VarValue, VarValueView, Vars};

verus! {

/// The metrics of a record; each is absent where the snapshot has none.
#[derive(Debug, Clone, Copy, PartialEq, Eq)]
pub struct ExportMetrics<'a> {
    pub v_input: Option<&'a VarValue>,
    pub v_output: Option<&'a VarValue>,
    pub f_output: Option<&'a VarValue>,
    pub p_output: Option<&'a VarValue>,
    pub v_battery: Option<&'a VarValue>,
    pub c_battery: Option<&'a VarValue>,
    pub temperature: Option<&'a VarValue>,
}

/// What a record says of the raw frame behind the metrics.
#[derive(Debug, Clone, Copy, PartialEq, Eq)]
pub struct ExportMeta<'a> {
    pub metrics_confidence: Option<&'a VarValue>,
    pub raw_frame_hex: Option<&'a VarValue>,
    pub raw_frame_len: Option<&'a VarValue>,
}

/// One line of the exported log.
#[derive(Debug, Clone, Copy, PartialEq, Eq)]
pub struct ExportRecord<'a> {
    pub ts: WallTime,
    /// `ts` in milliseconds since the Unix epoch.
    pub unix_ms: i64,
    pub device_id: &'a str,
    pub model: &'a str,
    pub transport: &'a Transport,
    pub connected: bool,
    pub freshness: Freshness,
    pub status: &'a MonitorStatus,
    pub metrics: ExportMetrics<'a>,
    pub meta: ExportMeta<'a>,
}

pub struct ExportMetricsView {
    pub v_input: Option<VarValueView>,
    pub v_output: Option<VarValueView>,
    pub f_output: Option<VarValueView>,
    pub p_output: Option<VarValueView>,
    pub v_battery: Option<VarValueView>,
    pub c_battery: Option<VarValueView>,
    pub temperature: Option<VarValueView>,
}

pub struct ExportMetaView {
    pub metrics_confidence: Option<VarValueView>,
    pub raw_frame_hex: Option<VarValueView>,
    pub raw_frame_len: Option<VarValueView>,
}

pub struct ExportRecordView {
    pub ts: WallTime,
    pub unix_ms: i64,
    pub device_id: Seq<char>,
    pub model: Seq<char>,
    pub transport: TransportView,
    pub connected: bool,
    pub freshness: Freshness,
    pub status: MonitorStatusView,
    pub metrics: ExportMetricsView,
    pub meta: ExportMetaView,
}

/// The view of a value that may be absent.
pub open spec fn opt_value_view(value: Option<&VarValue>) -> Option<VarValueView> {
    match value {
        Some(v) => Some(v@),
        None => None,
    }
}

impl<'a> View for ExportMetrics<'a> {
    type V = ExportMetricsView;

    open spec fn view(&self) -> ExportMetricsView {
        ExportMetricsView {
            v_input: opt_value_view(self.v_input),
            v_output: opt_value_view(self.v_output),
            f_output: opt_value_view(self.f_output),
            p_output: opt_value_view(self.p_output),
            v_battery: opt_value_view(self.v_battery),
            c_battery: opt_value_view(self.c_battery),
            temperature: opt_value_view(self.temperature),
        }
    }
}

impl<'a> View for ExportMeta<'a> {
    type V = ExportMetaView;

    open spec fn view(&self) -> ExportMetaView {
        ExportMetaView {
            metrics_confidence: opt_value_view(self.metrics_confidence),
            raw_frame_hex: opt_value_view(self.raw_frame_hex),
            raw_frame_len: opt_value_view(self.raw_frame_len),
        }
    }
}

impl<'a> View for ExportRecord<'a> {
    type V = ExportRecordView;

    open spec fn view(&self) -> ExportRecordView {
        ExportRecordView {
            ts: self.ts,
            unix_ms: self.unix_ms,
            device_id: self.device_id@,
            model: self.model@,
            transport: self.transport@,
            connected: self.connected,
            freshness: self.freshness,
            status: self.status@,
            metrics: self.metrics@,
            meta: self.meta@,
        }
    }
}

/// What `key` is bound to, if anything.
pub open spec fn bound(vars: Map<Seq<char>, VarValueView>, key: Seq<char>) -> Option<
    VarValueView,
> {
    if vars.contains_key(key) {
        Some(vars[key])
    } else {
        None
    }
}

/// A wall-clock time in milliseconds since the Unix epoch, held within the
/// range of a signed 64-bit number.
pub open spec fn unix_millis(ts: WallTime) -> i64 {
    let exact = ts.unix_secs as int * 1000 + ts.subsec_nanos as int / 1_000_000;
    if exact > i64::MAX {
        i64::MAX
    } else if exact < i64::MIN {
        i64::MIN
    } else {
        exact as i64
    }
}

/// The record of a snapshot.
pub open spec fn export_record_of(snapshot: SnapshotView) -> ExportRecordView {
    ExportRecordView {
        ts: snapshot.ts,
        unix_ms: unix_millis(snapshot.ts),
        device_id: snapshot.device.id,
        model: snapshot.device.model,
        transport: snapshot.device.transport,
        connected: snapshot.device.connected,
        freshness: snapshot.freshness,
        status: snapshot.status,
        metrics: ExportMetricsView {
            v_input: bound(snapshot.vars, "vInput"@),
            v_output: bound(snapshot.vars, "vOutput"@),
            f_output: bound(snapshot.vars, "fOutput"@),
            p_output: bound(snapshot.vars, "pOutput"@),
            v_battery: bound(snapshot.vars, "vBattery"@),
            c_battery: bound(snapshot.vars, "cBattery"@),
            temperature: bound(snapshot.vars, "temperature"@),
        },
        meta: ExportMetaView {
            metrics_confidence: bound(snapshot.vars, "metricsConfidence"@),
            raw_frame_hex: bound(snapshot.vars, "rawFrameHex"@),
            raw_frame_len: bound(snapshot.vars, "rawFrameLen"@),
        },
    }
}

/// A wall-clock time in milliseconds since the Unix epoch.
pub fn timestamp_millis(ts: WallTime) -> (ms: i64)
    ensures
        ms == unix_millis(ts),
{
    let exact: i128 = ts.unix_secs as i128 * 1000 + (ts.subsec_nanos / 1_000_000) as i128;
    if exact > i64::MAX as i128 {
        i64::MAX
    } else if exact < i64::MIN as i128 {
        i64::MIN
    } else {
        exact as i64
    }
}

fn pick<'a>(vars: &'a Vars, key: &str) -> (value: Option<&'a VarValue>)
    ensures
        opt_value_view(value) == bound(vars@, key@),
{
    vars.get(key)
}

/// Shapes a snapshot into the record that is written to the log.
pub fn export_record<'a>(snapshot: &'a Snapshot) -> (record: ExportRecord<'a>)
    ensures
        record@ == export_record_of(snapshot@),
{
    ExportRecord {
        ts: snapshot.ts,
        unix_ms: timestamp_millis(snapshot.ts),
        device_id: snapshot.device.id.as_str(),
        model: snapshot.device.model.as_str(),
        transport: &snapshot.device.transport,
        connected: snapshot.device.connected,
        freshness: snapshot.freshness,
        status: &snapshot.status,
        metrics: ExportMetrics {
            v_input: pick(&snapshot.vars, "vInput"),
            v_output: pick(&snapshot.vars, "vOutput"),
            f_output: pick(&snapshot.vars, "fOutput"),
            p_output: pick(&snapshot.vars, "pOutput"),
            v_battery: pick(&snapshot.vars, "vBattery"),
            c_battery: pick(&snapshot.vars, "cBattery"),
            temperature: pick(&snapshot.vars, "temperature"),
        },
        meta: ExportMeta {
            metrics_confidence: pick(&snapshot.vars, "metricsConfidence"),
            raw_frame_hex: pick(&snapshot.vars, "rawFrameHex"),
            raw_frame_len: pick(&snapshot.vars, "rawFrameLen"),
        },
    }
}

} // verus!
