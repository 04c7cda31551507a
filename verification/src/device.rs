//! Device identity and the filter that turns bus enumeration into candidates.
//!
//! Enumeration itself happens outside: what it read of each device arrives
//! here as plain strings, and the rules on which device counts are applied here.

use vstd::prelude::*;
use crate::text::{
    ascii_lowercase, eq_ignore_ascii_case, eq_ignore_ascii_case_spec, join2,
    lemma_match_is_lowercase,
};

verus! {

/// Identity of a candidate device.
#[derive(Debug, PartialEq, Eq)]
pub struct DeviceInfo {
    /// `"<transport>:<node-path>"`, unique per device node.
    pub id: String,
    pub model: String,
    /// `cdc` or `hid`.
    pub transport: String,
    /// The device node, such as `/dev/ttyACM0`.
    pub path: String,
    pub vid: String,
    pub pid: String,
}

pub struct DeviceInfoView {
    pub id: Seq<char>,
    pub model: Seq<char>,
    pub transport: Seq<char>,
    pub path: Seq<char>,
    pub vid: Seq<char>,
    pub pid: Seq<char>,
}

impl View for DeviceInfo {
    type V = DeviceInfoView;

    open spec fn view(&self) -> DeviceInfoView {
        DeviceInfoView {
            id: self.id@,
            model: self.model@,
            transport: self.transport@,
            path: self.path@,
            vid: self.vid@,
            pid: self.pid@,
        }
    }
}

impl Clone for DeviceInfo {
    fn clone(&self) -> (copy: DeviceInfo)
        ensures
            copy == *self,
    {
        DeviceInfo {
            id: self.id.clone(),
            model: self.model.clone(),
            transport: self.transport.clone(),
            path: self.path.clone(),
            vid: self.vid.clone(),
            pid: self.pid.clone(),
        }
    }
}

/// The views of a list of devices, in order.
pub open spec fn device_views(devices: Seq<DeviceInfo>) -> Seq<DeviceInfoView> {
    Seq::new(devices.len(), |i: int| devices[i]@)
}

/// The label every device of this hardware family carries.
pub open spec fn model_name() -> Seq<char> {
    "RagTech 3200VA"@
}

/// The two identity strings a bus node may expose; a missing one is empty.
#[derive(Debug, Clone, PartialEq, Eq)]
pub struct UdevIdentity {
    pub vendor: String,
    pub product: String,
}

pub struct UdevIdentityView {
    pub vendor: Seq<char>,
    pub product: Seq<char>,
}

impl View for UdevIdentity {
    type V = UdevIdentityView;

    open spec fn view(&self) -> UdevIdentityView {
        UdevIdentityView { vendor: self.vendor@, product: self.product@ }
    }
}

/// What enumeration read of one device.
#[derive(Debug, Clone, PartialEq, Eq)]
pub struct UdevDevice {
    /// The device's own identity properties.
    pub properties: UdevIdentity,
    /// The identity attributes of its ancestors, nearest parent first.
    pub ancestors: Vec<UdevIdentity>,
    /// The device node, empty where the device has none.
    pub devnode: String,
}

pub struct UdevDeviceView {
    pub properties: UdevIdentityView,
    pub ancestors: Seq<UdevIdentityView>,
    pub devnode: Seq<char>,
}

impl View for UdevDevice {
    type V = UdevDeviceView;

    open spec fn view(&self) -> UdevDeviceView {
        UdevDeviceView {
            properties: self.properties@,
            ancestors: Seq::new(self.ancestors@.len(), |i: int| self.ancestors@[i]@),
            devnode: self.devnode@,
        }
    }
}

/// The views of what enumeration read, in order.
pub open spec fn udev_views(devices: Seq<UdevDevice>) -> Seq<UdevDeviceView> {
    Seq::new(devices.len(), |i: int| devices[i]@)
}

/// The subsystem a device was enumerated under.
#[derive(Debug, Clone, Copy, PartialEq, Eq, Structural)]
pub enum Subsystem {
    Tty,
    Hidraw,
}

impl Subsystem {
    /// The name the bus knows this subsystem by.
    pub open spec fn bus_name(self) -> Seq<char> {
        match self {
            Subsystem::Tty => "tty"@,
            Subsystem::Hidraw => "hidraw"@,
        }
    }

    /// The name to enumerate this subsystem under.
    pub fn name(&self) -> (name: &'static str)
        ensures
            name@ == self.bus_name(),
    {
        match self {
            Subsystem::Tty => "tty",
            Subsystem::Hidraw => "hidraw",
        }
    }

    /// The vendor id that marks the hardware on this subsystem.
    pub fn vendor(&self) -> (id: &'static str)
        ensures
            id@ == self.vendor_id(),
    {
        match self {
            Subsystem::Tty => "04d8",
            Subsystem::Hidraw => "0425",
        }
    }

    /// The product id that marks the hardware on this subsystem.
    pub fn product(&self) -> (id: &'static str)
        ensures
            id@ == self.product_id(),
    {
        match self {
            Subsystem::Tty => "000a",
            Subsystem::Hidraw => "0301",
        }
    }

    /// The transport that devices of this subsystem speak.
    pub open spec fn transport(self) -> Seq<char> {
        match self {
            Subsystem::Tty => "cdc"@,
            Subsystem::Hidraw => "hid"@,
        }
    }

    /// The vendor id that marks the hardware on this subsystem.
    pub open spec fn vendor_id(self) -> Seq<char> {
        match self {
            Subsystem::Tty => "04d8"@,
            Subsystem::Hidraw => "0425"@,
        }
    }

    /// The product id that marks the hardware on this subsystem.
    pub open spec fn product_id(self) -> Seq<char> {
        match self {
            Subsystem::Tty => "000a"@,
            Subsystem::Hidraw => "0301"@,
        }
    }
}

/// Whether a node exposes both identity strings.
pub open spec fn identity_complete(identity: UdevIdentityView) -> bool {
    identity.vendor.len() > 0 && identity.product.len() > 0
}

/// The index of the first ancestor at or after `from` that exposes both
/// identity strings, or the number of ancestors where there is none.
pub open spec fn first_complete(ancestors: Seq<UdevIdentityView>, from: int) -> int
    decreases ancestors.len() - from,
{
    if from < 0 || from >= ancestors.len() {
        ancestors.len() as int
    } else if identity_complete(ancestors[from]) {
        from
    } else {
        first_complete(ancestors, from + 1)
    }
}

/// The vendor and product id of a device: its own properties where both are
/// there, else those of the nearest ancestor that exposes both, else two
/// empty strings.
pub open spec fn vid_pid_of(device: UdevDeviceView) -> (Seq<char>, Seq<char>) {
    if identity_complete(device.properties) {
        (device.properties.vendor, device.properties.product)
    } else {
        let at = first_complete(device.ancestors, 0);
        if at < device.ancestors.len() {
            (device.ancestors[at].vendor, device.ancestors[at].product)
        } else {
            (Seq::empty(), Seq::empty())
        }
    }
}

/// Whether a device enumerated under `subsystem` is one of ours: its ids
/// match that subsystem's pair, whatever the case of the hex letters, and it
/// has a device node.
pub open spec fn is_candidate(subsystem: Subsystem, device: UdevDeviceView) -> bool {
    &&& eq_ignore_ascii_case_spec(vid_pid_of(device).0, subsystem.vendor_id())
    &&& eq_ignore_ascii_case_spec(vid_pid_of(device).1, subsystem.product_id())
    &&& device.devnode.len() > 0
}

/// The identity record of a candidate. Its ids are the device's, in lower case.
pub open spec fn device_info_of(subsystem: Subsystem, device: UdevDeviceView) -> DeviceInfoView {
    DeviceInfoView {
        id: subsystem.transport() + ":"@ + device.devnode,
        model: model_name(),
        transport: subsystem.transport(),
        path: device.devnode,
        vid: ascii_lowercase(vid_pid_of(device).0),
        pid: ascii_lowercase(vid_pid_of(device).1),
    }
}

/// The ids of a candidate, in lower case, are the pair that marks the
/// hardware on its subsystem.
pub proof fn lemma_candidate_ids(subsystem: Subsystem, device: UdevDeviceView)
    requires
        is_candidate(subsystem, device),
    ensures
        device_info_of(subsystem, device).vid == subsystem.vendor_id(),
        device_info_of(subsystem, device).pid == subsystem.product_id(),
{
    reveal_strlit("04d8");
    reveal_strlit("000a");
    reveal_strlit("0425");
    reveal_strlit("0301");
    lemma_match_is_lowercase(vid_pid_of(device).0, subsystem.vendor_id());
    lemma_match_is_lowercase(vid_pid_of(device).1, subsystem.product_id());
}

/// The candidates among `devices`, in enumeration order.
pub open spec fn candidates_of(subsystem: Subsystem, devices: Seq<UdevDeviceView>) -> Seq<
    DeviceInfoView,
>
    decreases devices.len(),
{
    if devices.len() == 0 {
        Seq::empty()
    } else if is_candidate(subsystem, devices.last()) {
        candidates_of(subsystem, devices.drop_last()).push(
            device_info_of(subsystem, devices.last()),
        )
    } else {
        candidates_of(subsystem, devices.drop_last())
    }
}

/// Whether the CDC vendor and product pair is given.
pub fn is_cdc_ragtech(vid: &str, pid: &str) -> (matches: bool)
    ensures
        matches == (eq_ignore_ascii_case_spec(vid@, Subsystem::Tty.vendor_id())
            && eq_ignore_ascii_case_spec(pid@, Subsystem::Tty.product_id())),
{
    eq_ignore_ascii_case(vid, "04d8") && eq_ignore_ascii_case(pid, "000a")
}

/// Whether the raw-HID vendor and product pair is given.
pub fn is_hid_ragtech(vid: &str, pid: &str) -> (matches: bool)
    ensures
        matches == (eq_ignore_ascii_case_spec(vid@, Subsystem::Hidraw.vendor_id())
            && eq_ignore_ascii_case_spec(pid@, Subsystem::Hidraw.product_id())),
{
    eq_ignore_ascii_case(vid, "0425") && eq_ignore_ascii_case(pid, "0301")
}

/// Derives the vendor and product id of a device.
pub fn extract_vid_pid(device: &UdevDevice) -> (pair: (String, String))
    ensures
        pair.0@ == vid_pid_of(device@).0,
        pair.1@ == vid_pid_of(device@).1,
{
    if !device.properties.vendor.as_str().is_empty()
        && !device.properties.product.as_str().is_empty() {
        return (device.properties.vendor.clone(), device.properties.product.clone());
    }
    let mut i: usize = 0;
    while i < device.ancestors.len()
        invariant
            i <= device.ancestors@.len(),
            device@.ancestors.len() == device.ancestors@.len(),
            !identity_complete(device@.properties),
            first_complete(device@.ancestors, 0) == first_complete(device@.ancestors, i as int),
        decreases device.ancestors@.len() - i,
    {
        let ancestor = &device.ancestors[i];
        assert(device@.ancestors[i as int] == ancestor@);
        if !ancestor.vendor.as_str().is_empty() && !ancestor.product.as_str().is_empty() {
            return (ancestor.vendor.clone(), ancestor.product.clone());
        }
        i = i + 1;
    }
    (String::new(), String::new())
}

/// Picks the candidates out of what one subsystem's enumeration read.
pub fn candidates(subsystem: Subsystem, devices: &Vec<UdevDevice>) -> (found: Vec<DeviceInfo>)
    ensures
        device_views(found@) == candidates_of(subsystem, udev_views(devices@)),
{
    let mut found: Vec<DeviceInfo> = Vec::new();
    let mut i: usize = 0;
    let ghost all = udev_views(devices@);
    assert(all.take(0) =~= Seq::empty());
    assert(device_views(found@) =~= candidates_of(subsystem, all.take(0)));
    while i < devices.len()
        invariant
            i <= devices@.len(),
            all == udev_views(devices@),
            device_views(found@) == candidates_of(subsystem, all.take(i as int)),
        decreases devices@.len() - i,
    {
        let device = &devices[i];
        let (vid, pid) = extract_vid_pid(device);
        let matches: bool = match subsystem {
            Subsystem::Tty => is_cdc_ragtech(vid.as_str(), pid.as_str()),
            Subsystem::Hidraw => is_hid_ragtech(vid.as_str(), pid.as_str()),
        };
        proof {
            assert(all.take(i + 1).drop_last() =~= all.take(i as int));
            assert(all.take(i + 1).last() == device@);
        }
        if matches && !device.devnode.as_str().is_empty() {
            let transport: &str = match subsystem {
                Subsystem::Tty => "cdc",
                Subsystem::Hidraw => "hid",
            };
            let prefix = join2(transport, ":");
            proof {
                lemma_candidate_ids(subsystem, device@);
            }
            let info = DeviceInfo {
                id: join2(prefix.as_str(), device.devnode.as_str()),
                model: String::from_str("RagTech 3200VA"),
                transport: String::from_str(transport),
                path: device.devnode.clone(),
                vid: String::from_str(subsystem.vendor()),
                pid: String::from_str(subsystem.product()),
            };
            assert(info@ == device_info_of(subsystem, device@));
            let ghost before = device_views(found@);
            found.push(info);
            assert(device_views(found@) =~= before.push(info@));
        }
        i = i + 1;
    }
    assert(all.take(i as int) =~= all);
    found
}

/// What the caller enumerates next, or the finished list.
#[derive(Debug, PartialEq, Eq)]
pub enum ScanStep {
    /// Enumerate this subsystem and report what was read.
    Enumerate(Subsystem),
    /// The scan is complete.
    Done(Vec<DeviceInfo>),
}

/// What the caller reports to a scan.
#[derive(Debug, Clone, PartialEq, Eq)]
pub enum ScanEvent {
    /// A scan begins.
    Start,
    /// A subsystem was enumerated.
    Enumerated(Subsystem, Vec<UdevDevice>),
}

pub enum ScanEventView {
    Start,
    Enumerated(Subsystem, Seq<UdevDeviceView>),
}

impl View for ScanEvent {
    type V = ScanEventView;

    open spec fn view(&self) -> ScanEventView {
        match self {
            ScanEvent::Start => ScanEventView::Start,
            ScanEvent::Enumerated(subsystem, devices) => ScanEventView::Enumerated(
                *subsystem,
                udev_views(devices@),
            ),
        }
    }
}

/// The step that follows `event`: serial devices are looked at first, and the
/// raw-HID subsystem only where no serial candidate was found.
pub open spec fn scan_step_of(event: ScanEventView) -> ScanStepView {
    match event {
        ScanEventView::Start => ScanStepView::Enumerate(Subsystem::Tty),
        ScanEventView::Enumerated(Subsystem::Tty, devices) => {
            if candidates_of(Subsystem::Tty, devices).len() == 0 {
                ScanStepView::Enumerate(Subsystem::Hidraw)
            } else {
                ScanStepView::Done(candidates_of(Subsystem::Tty, devices))
            }
        },
        ScanEventView::Enumerated(Subsystem::Hidraw, devices) => ScanStepView::Done(
            candidates_of(Subsystem::Hidraw, devices),
        ),
    }
}

pub enum ScanStepView {
    Enumerate(Subsystem),
    Done(Seq<DeviceInfoView>),
}

impl View for ScanStep {
    type V = ScanStepView;

    open spec fn view(&self) -> ScanStepView {
        match self {
            ScanStep::Enumerate(subsystem) => ScanStepView::Enumerate(*subsystem),
            ScanStep::Done(devices) => ScanStepView::Done(device_views(devices@)),
        }
    }
}

/// Advances a scan of the bus by one step.
pub fn scan_udev_devices(event: ScanEvent) -> (step: ScanStep)
    ensures
        step@ == scan_step_of(event@),
{
    match event {
        ScanEvent::Start => ScanStep::Enumerate(Subsystem::Tty),
        ScanEvent::Enumerated(Subsystem::Tty, devices) => {
            let found = candidates(Subsystem::Tty, &devices);
            if found.len() == 0 {
                ScanStep::Enumerate(Subsystem::Hidraw)
            } else {
                ScanStep::Done(found)
            }
        },
        ScanEvent::Enumerated(Subsystem::Hidraw, devices) => ScanStep::Done(
            candidates(Subsystem::Hidraw, &devices),
        ),
    }
}

} // verus!
