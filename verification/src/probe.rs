//! Debug probes: how one is named for an exclusive open, and how the probes
//! found on the host are reported.

use vstd::prelude::*;

verus! {

/// The characters of an optional text.
pub open spec fn text_of(text: Option<String>) -> Option<Seq<char>> {
    match text {
        Some(t) => Some(t@),
        None => None,
    }
}

/// Copies an optional text.
fn copy_text(text: &Option<String>) -> (copy: Option<String>)
    ensures
        text_of(copy) == text_of(*text),
{
    match text {
        Some(t) => Some(t.clone()),
        None => None,
    }
}

/// Names one physical probe closely enough to open it exclusively.
#[derive(Debug)]
pub struct ProbeDescriptor {
    pub vendor_id: u16,
    pub product_id: u16,
    pub serial_number: Option<String>,
}

/// A probe descriptor as plain values.
pub struct ProbeDescriptorView {
    pub vendor_id: u16,
    pub product_id: u16,
    pub serial_number: Option<Seq<char>>,
}

impl View for ProbeDescriptor {
    type V = ProbeDescriptorView;

    open spec fn view(&self) -> ProbeDescriptorView {
        ProbeDescriptorView {
            vendor_id: self.vendor_id,
            product_id: self.product_id,
            serial_number: text_of(self.serial_number),
        }
    }
}

impl ProbeDescriptor {
    /// Describes the probe with the given USB identifiers and serial number.
    pub fn new(vendor_id: u16, product_id: u16, serial_number: Option<String>) -> (descriptor: Self)
        ensures
            descriptor@ == (ProbeDescriptorView {
                vendor_id,
                product_id,
                serial_number: text_of(serial_number),
            }),
    {
        ProbeDescriptor { vendor_id, product_id, serial_number }
    }
}

/// The kinds of probe that the service reports.
#[derive(Clone, Copy, PartialEq, Eq, Debug, Structural)]
pub enum ProbeType {
    CmsisDap,
    StLink,
    Ftdi,
    JLink,
}

/// The kind of a probe as its driver names it. `Other` stands for every kind
/// that the service does not report.
#[derive(Clone, Copy, PartialEq, Eq, Debug, Structural)]
pub enum DriverKind {
    CmsisDap,
    Ftdi,
    StLink,
    JLink,
    Other,
}

/// The reported kind for a driver's kind, if the service reports it.
pub open spec fn reported_type(kind: DriverKind) -> Option<ProbeType> {
    match kind {
        DriverKind::CmsisDap => Some(ProbeType::CmsisDap),
        DriverKind::Ftdi => Some(ProbeType::Ftdi),
        DriverKind::StLink => Some(ProbeType::StLink),
        DriverKind::JLink => Some(ProbeType::JLink),
        DriverKind::Other => None,
    }
}

impl ProbeType {
    /// Maps a driver's kind to the reported kind; `None` for a kind that the
    /// service does not report.
    pub fn from_driver(kind: DriverKind) -> (reported: Option<ProbeType>)
        ensures
            reported == reported_type(kind),
    {
        match kind {
            DriverKind::CmsisDap => Some(ProbeType::CmsisDap),
            DriverKind::Ftdi => Some(ProbeType::Ftdi),
            DriverKind::StLink => Some(ProbeType::StLink),
            DriverKind::JLink => Some(ProbeType::JLink),
            DriverKind::Other => None,
        }
    }
}

/// One probe as its driver found it during a scan.
#[derive(Debug)]
pub struct FoundProbe {
    pub vendor_id: u16,
    pub product_id: u16,
    pub serial_number: Option<String>,
    pub kind: DriverKind,
}

/// One reported probe.
#[derive(Debug)]
pub struct ProbeInfo {
    vid: u16,
    pid: u16,
    serial_num: Option<String>,
    probe_type: ProbeType,
}

/// A reported probe as plain values.
pub struct ProbeInfoView {
    pub vid: u16,
    pub pid: u16,
    pub serial_num: Option<Seq<char>>,
    pub probe_type: ProbeType,
}

impl View for ProbeInfo {
    type V = ProbeInfoView;

    closed spec fn view(&self) -> ProbeInfoView {
        ProbeInfoView {
            vid: self.vid,
            pid: self.pid,
            serial_num: text_of(self.serial_num),
            probe_type: self.probe_type,
        }
    }
}

impl ProbeInfo {
    /// Builds the report of one probe.
    pub fn new(vid: u16, pid: u16, serial_num: Option<String>, probe_type: ProbeType) -> (info:
        Self)
        ensures
            info@ == (ProbeInfoView { vid, pid, serial_num: text_of(serial_num), probe_type }),
    {
        ProbeInfo { vid, pid, serial_num, probe_type }
    }

    /// The USB vendor identifier.
    pub fn vid(&self) -> (vid: u16)
        ensures
            vid == self@.vid,
    {
        self.vid
    }

    /// The USB product identifier.
    pub fn pid(&self) -> (pid: u16)
        ensures
            pid == self@.pid,
    {
        self.pid
    }

    /// The serial number, where the probe has one.
    pub fn serial_num(&self) -> (serial: &Option<String>)
        ensures
            text_of(*serial) == self@.serial_num,
    {
        &self.serial_num
    }

    /// The kind of the probe.
    pub fn probe_type(&self) -> (probe_type: ProbeType)
        ensures
            probe_type == self@.probe_type,
    {
        self.probe_type
    }
}

/// The report of a found probe; `None` where the service does not report its
/// kind.
pub open spec fn reported(found: FoundProbe) -> Option<ProbeInfoView> {
    match reported_type(found.kind) {
        Some(probe_type) => Some(
            ProbeInfoView {
                vid: found.vendor_id,
                pid: found.product_id,
                serial_num: text_of(found.serial_number),
                probe_type,
            },
        ),
        None => None,
    }
}

/// The reports of a scan's probes: those of a reported kind, in scan order.
pub open spec fn listing(found: Seq<FoundProbe>) -> Seq<ProbeInfoView> {
    found.filter_map(|probe: FoundProbe| reported(probe))
}

/// The reported probes of one scan.
#[derive(Debug)]
pub struct ProbeInfoObject {
    probes: Vec<ProbeInfo>,
}

impl View for ProbeInfoObject {
    type V = Seq<ProbeInfoView>;

    closed spec fn view(&self) -> Seq<ProbeInfoView> {
        self.probes@.map_values(|info: ProbeInfo| info@)
    }
}

impl ProbeInfoObject {
    /// Wraps reports that are already made.
    pub fn new(probes: Vec<ProbeInfo>) -> (object: Self)
        ensures
            object@ == probes@.map_values(|info: ProbeInfo| info@),
    {
        ProbeInfoObject { probes }
    }

    /// Reports the probes of a scan: each probe of a reported kind, in scan
    /// order, with its identifiers and serial number unchanged.
    pub fn from_scan(found: &Vec<FoundProbe>) -> (object: Self)
        ensures
            object@ == listing(found@),
    {
        let mut probes: Vec<ProbeInfo> = Vec::new();
        let mut at: usize = 0;
        while at < found.len()
            invariant
                at <= found.len(),
                probes@.map_values(|info: ProbeInfo| info@) == listing(found@.take(at as int)),
            decreases found.len() - at,
        {
            let probe = &found[at];
            proof {
                found@.lemma_filter_map_take_succ(|probe: FoundProbe| reported(probe), at as int);
            }
            let ghost before = probes@;
            match ProbeType::from_driver(probe.kind) {
                Some(probe_type) => {
                    let info = ProbeInfo::new(
                        probe.vendor_id,
                        probe.product_id,
                        copy_text(&probe.serial_number),
                        probe_type,
                    );
                    probes.push(info);
                    assert(probes@.map_values(|info: ProbeInfo| info@) =~= before.map_values(
                        |info: ProbeInfo| info@,
                    ) + seq![info@]);
                },
                None => {},
            }
            at += 1;
        }
        assert(found@.take(found.len() as int) =~= found@);
        ProbeInfoObject { probes }
    }

    /// The number of reported probes.
    pub fn len(&self) -> (count: usize)
        ensures
            count == self@.len(),
    {
        self.probes.len()
    }

    /// The report at a position of the listing.
    pub fn get(&self, at: usize) -> (info: Option<&ProbeInfo>)
        ensures
            match info {
                Some(found) => at < self@.len() && found@ == self@[at as int],
                None => at >= self@.len(),
            },
    {
        if at < self.probes.len() {
            Some(&self.probes[at])
        } else {
            None
        }
    }
}

} // verus!
