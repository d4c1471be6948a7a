//! Serial Attached SCSI classes under `/sys/class`: hosts, ports and devices,
//! whose entries are told apart by the shape of their names.
use vstd::prelude::*;
use crate::error::MetricError;
use crate::pattern::{
    and_not, either, flags, flags_and_not, flags_either, match_flags, regex_compiles, select, selected,
};

verus! {

pub const PHY_PATTERN: &'static str = r"^phy-[0-9:]+$";

pub const PORT_PATTERN: &'static str = r"^port-[0-9:]+$";

pub const EXPANDER_PATTERN: &'static str = r"expander-[0-9:]+$";

pub const END_DEVICE_PATTERN: &'static str = r"^end_device-[0-9:]+$";

pub const TARGET_PATTERN: &'static str = r"^target[0-9:]+$";

pub const SUBDEVICE_PATTERN: &'static str = r"[0-9]+:.*";

/// The phys and ports of a SAS host, from `/sys/class/sas_host/<name>/device`.
#[derive(Debug, Clone)]
pub struct SASHost {
    pub sas_phys: Vec<String>,
    pub sas_ports: Vec<String>,
}

impl SASHost {
    pub fn new() -> (r: Self)
        ensures
            r.sas_phys@.len() == 0,
            r.sas_ports@.len() == 0,
    {
        SASHost { sas_phys: Vec::new(), sas_ports: Vec::new() }
    }

    /// The host whose device directory lists `entries`: the phys are the
    /// entries flagged in `is_phy`, the ports those flagged in `is_port` alone.
    pub fn from_flags(entries: &Vec<String>, is_phy: &Vec<bool>, is_port: &Vec<bool>) -> (r: Self)
        requires
            is_phy.len() == entries.len(),
            is_port.len() == entries.len(),
        ensures
            r.sas_phys.deep_view() == selected(entries.deep_view(), is_phy@),
            r.sas_ports.deep_view() == selected(entries.deep_view(), and_not(is_phy@, is_port@)),
    {
        let ports = flags_and_not(is_phy, is_port);
        SASHost { sas_phys: select(entries, is_phy), sas_ports: select(entries, &ports) }
    }

    /// The host whose device directory lists `entries`, told apart by
    /// `PHY_PATTERN` and then `PORT_PATTERN`.
    pub fn from_entries(entries: &Vec<String>) -> (r: Result<Self, MetricError>)
        ensures
            r is Ok <==> (entries.len() == 0 || (regex_compiles(PHY_PATTERN@) && regex_compiles(PORT_PATTERN@))),
            r is Ok ==> r->Ok_0.sas_phys.deep_view() == selected(
                entries.deep_view(),
                match_flags(PHY_PATTERN@, entries.deep_view()),
            ),
            r is Ok ==> r->Ok_0.sas_ports.deep_view() == selected(
                entries.deep_view(),
                and_not(
                    match_flags(PHY_PATTERN@, entries.deep_view()),
                    match_flags(PORT_PATTERN@, entries.deep_view()),
                ),
            ),
    {
        let phy = flags(PHY_PATTERN, entries)?;
        let port = flags(PORT_PATTERN, entries)?;
        Ok(Self::from_flags(entries, &phy, &port))
    }
}

/// The phys, expanders and end devices of a SAS port, from
/// `/sys/class/sas_port/<name>/device`.
#[derive(Debug, Clone)]
pub struct SASPort {
    pub sas_phys: Vec<String>,
    pub expanders: Vec<String>,
    pub end_devices: Vec<String>,
}

impl SASPort {
    pub fn new() -> (r: Self)
        ensures
            r.sas_phys@.len() == 0,
            r.expanders@.len() == 0,
            r.end_devices@.len() == 0,
    {
        SASPort { sas_phys: Vec::new(), expanders: Vec::new(), end_devices: Vec::new() }
    }

    /// The port whose device directory lists `entries`: each entry goes to
    /// the first of phys, expanders and end devices whose flag it has.
    pub fn from_flags(
        entries: &Vec<String>,
        is_phy: &Vec<bool>,
        is_expander: &Vec<bool>,
        is_end_device: &Vec<bool>,
    ) -> (r: Self)
        requires
            is_phy.len() == entries.len(),
            is_expander.len() == entries.len(),
            is_end_device.len() == entries.len(),
        ensures
            r.sas_phys.deep_view() == selected(entries.deep_view(), is_phy@),
            r.expanders.deep_view() == selected(entries.deep_view(), and_not(is_phy@, is_expander@)),
            r.end_devices.deep_view() == selected(
                entries.deep_view(),
                and_not(either(is_phy@, is_expander@), is_end_device@),
            ),
    {
        let expanders = flags_and_not(is_phy, is_expander);
        let taken = flags_either(is_phy, is_expander);
        let ends = flags_and_not(&taken, is_end_device);
        SASPort {
            sas_phys: select(entries, is_phy),
            expanders: select(entries, &expanders),
            end_devices: select(entries, &ends),
        }
    }

    /// The port whose device directory lists `entries`, told apart by
    /// `PHY_PATTERN`, `EXPANDER_PATTERN` and `END_DEVICE_PATTERN` in turn.
    pub fn from_entries(entries: &Vec<String>) -> (r: Result<Self, MetricError>)
        ensures
            r is Ok <==> (entries.len() == 0 || (regex_compiles(PHY_PATTERN@) && regex_compiles(EXPANDER_PATTERN@)
                && regex_compiles(END_DEVICE_PATTERN@))),
            r is Ok ==> r->Ok_0.sas_phys.deep_view() == selected(
                entries.deep_view(),
                match_flags(PHY_PATTERN@, entries.deep_view()),
            ),
            r is Ok ==> r->Ok_0.expanders.deep_view() == selected(
                entries.deep_view(),
                and_not(
                    match_flags(PHY_PATTERN@, entries.deep_view()),
                    match_flags(EXPANDER_PATTERN@, entries.deep_view()),
                ),
            ),
            r is Ok ==> r->Ok_0.end_devices.deep_view() == selected(
                entries.deep_view(),
                and_not(
                    either(
                        match_flags(PHY_PATTERN@, entries.deep_view()),
                        match_flags(EXPANDER_PATTERN@, entries.deep_view()),
                    ),
                    match_flags(END_DEVICE_PATTERN@, entries.deep_view()),
                ),
            ),
    {
        let phy = flags(PHY_PATTERN, entries)?;
        let expander = flags(EXPANDER_PATTERN, entries)?;
        let end_device = flags(END_DEVICE_PATTERN, entries)?;
        Ok(Self::from_flags(entries, &phy, &expander, &end_device))
    }
}

/// A SAS device of `/sys/class/sas_device`: its address, its phys and ports,
/// and the block devices found under its targets.
#[derive(Debug, Clone)]
pub struct SASDevice {
    pub sas_address: String,
    pub sas_phys: Vec<String>,
    pub sas_ports: Vec<String>,
    pub block_devices: Vec<String>,
}

impl SASDevice {
    pub fn new() -> (r: Self)
        ensures
            r.sas_address@.len() == 0,
            r.sas_phys@.len() == 0,
            r.sas_ports@.len() == 0,
            r.block_devices@.len() == 0,
    {
        SASDevice {
            sas_address: String::new(),
            sas_phys: Vec::new(),
            sas_ports: Vec::new(),
            block_devices: Vec::new(),
        }
    }

    /// The device with address `sas_address` whose device directory lists
    /// `entries`: phys by `PHY_PATTERN`, then ports by `PORT_PATTERN`; its
    /// block devices are yet to be found.
    pub fn from_entries(sas_address: String, entries: &Vec<String>) -> (r: Result<Self, MetricError>)
        ensures
            r is Ok <==> (entries.len() == 0 || (regex_compiles(PHY_PATTERN@) && regex_compiles(PORT_PATTERN@))),
            r is Ok ==> r->Ok_0.sas_address@ == sas_address@,
            r is Ok ==> r->Ok_0.sas_phys.deep_view() == selected(
                entries.deep_view(),
                match_flags(PHY_PATTERN@, entries.deep_view()),
            ),
            r is Ok ==> r->Ok_0.sas_ports.deep_view() == selected(
                entries.deep_view(),
                and_not(
                    match_flags(PHY_PATTERN@, entries.deep_view()),
                    match_flags(PORT_PATTERN@, entries.deep_view()),
                ),
            ),
            r is Ok ==> r->Ok_0.block_devices@.len() == 0,
    {
        let host = SASHost::from_entries(entries)?;
        Ok(SASDevice {
            sas_address,
            sas_phys: host.sas_phys,
            sas_ports: host.sas_ports,
            block_devices: Vec::new(),
        })
    }

    /// The targets among the entries of a device directory: those that match
    /// `TARGET_PATTERN` and neither `PHY_PATTERN` nor `PORT_PATTERN`.
    pub fn targets(entries: &Vec<String>) -> (r: Result<Vec<String>, MetricError>)
        ensures
            r is Ok <==> (entries.len() == 0 || (regex_compiles(PHY_PATTERN@) && regex_compiles(PORT_PATTERN@)
                && regex_compiles(TARGET_PATTERN@))),
            r is Ok ==> r->Ok_0.deep_view() == selected(
                entries.deep_view(),
                and_not(
                    either(
                        match_flags(PHY_PATTERN@, entries.deep_view()),
                        match_flags(PORT_PATTERN@, entries.deep_view()),
                    ),
                    match_flags(TARGET_PATTERN@, entries.deep_view()),
                ),
            ),
    {
        let phy = flags(PHY_PATTERN, entries)?;
        let port = flags(PORT_PATTERN, entries)?;
        let target = flags(TARGET_PATTERN, entries)?;
        let taken = flags_either(&phy, &port);
        let wanted = flags_and_not(&taken, &target);
        Ok(select(entries, &wanted))
    }

    /// The entries of a target directory that are SCSI devices, matching
    /// `SUBDEVICE_PATTERN`.
    pub fn subdevices(entries: &Vec<String>) -> (r: Result<Vec<String>, MetricError>)
        ensures
            r is Ok <==> (entries.len() == 0 || regex_compiles(SUBDEVICE_PATTERN@)),
            r is Ok ==> r->Ok_0.deep_view() == selected(
                entries.deep_view(),
                match_flags(SUBDEVICE_PATTERN@, entries.deep_view()),
            ),
    {
        let sub = flags(SUBDEVICE_PATTERN, entries)?;
        Ok(select(entries, &sub))
    }
}

} // verus!
