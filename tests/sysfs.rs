use procsys::clocksource::{clocksource_dir, Clocksource, ClocksourceInfo};
use procsys::dmi::DMI;
use procsys::error::MetricError;
use procsys::fibrechannel::FibreChannelHost;
use procsys::infiniband::{InfiniBandDevice, InfiniBandPort};
use procsys::kernel_random::KernelRandom;
use procsys::nvme::NVMeDevice;
use procsys::power_supply::PowerSupply;
use procsys::sas::{SASDevice, SASHost, SASPort};
use procsys::scsi_tape::ScsiTapeCounters;
use procsys::thermal::{Cooling, ThermalZone};
use procsys::watchdog::Watchdog;

fn attrs(pairs: &[(&str, &str)]) -> Vec<(String, String)> {
    pairs.iter().map(|(a, b)| (a.to_string(), b.to_string())).collect()
}

fn names(v: &[&str]) -> Vec<String> {
    v.iter().map(|s| s.to_string()).collect()
}

#[test]
fn clocksource_collect() {
    let c = Clocksource::from_contents("clocksource0".to_string(), "tsc hpet acpi_pm \n", "tsc\n");
    assert_eq!(c.name, "clocksource0");
    assert_eq!(c.available_clocksource, vec!["tsc", "hpet", "acpi_pm"]);
    assert_eq!(c.current_clocksource, "tsc");
    assert!(clocksource_dir("clocksource0"));
    assert!(!clocksource_dir("clocksource"));
    assert!(!clocksource_dir("power"));
    assert_eq!(ClocksourceInfo::AvailableClockSource.into_string(), "available_clocksource");
    assert_eq!(ClocksourceInfo::CurrentClockSource.into_string(), "current_clocksource");
}

#[test]
fn cooling_devices() {
    let a = attrs(&[("type", "Processor\n"), ("max_state", "50\n"), ("cur_state", "0\n")]);
    let c = Cooling::from_attrs("cooling_device0".to_string(), &a).expect("cooling");
    assert_eq!(c.name, "cooling_device0");
    assert_eq!(c.cooling_type, "Processor");
    assert_eq!(c.max_state, 50);
    assert_eq!(c.cur_state, 0);
    let bad = attrs(&[("max_state", "lots")]);
    assert!(matches!(
        Cooling::from_attrs("cooling_device1".to_string(), &bad),
        Err(MetricError::ParseIntError(name, text)) if name == "max_state" && text == "lots"
    ));
}

#[test]
fn thermal_devices() {
    let a = attrs(&[
        ("type", "bcm2835_thermal\n"),
        ("policy", "step_wise\n"),
        ("temp", "49925\n"),
        ("mode", "enabled\n"),
    ]);
    let z = ThermalZone::from_attrs("thermal_zone0".to_string(), &a).expect("thermal");
    assert_eq!(z.zone_type, "bcm2835_thermal");
    assert_eq!(z.policy, "step_wise");
    assert_eq!(z.temp, 49925);
    assert_eq!(z.mode, Some(true));
    assert_eq!(z.passive, None);
    let b = attrs(&[("type", "acpitz"), ("temp", "44000"), ("mode", "disabled"), ("passive", "0")]);
    let z1 = ThermalZone::from_attrs("thermal_zone1".to_string(), &b).expect("thermal");
    assert_eq!(z1.mode, Some(false));
    assert_eq!(z1.passive, Some(0));
}

#[test]
fn dmi_collect() {
    let a = attrs(&[
        ("bios_date", "04/12/2021\n"),
        ("bios_release", "2.2\n"),
        ("bios_vendor", "Dell Inc.\n"),
        ("board_name", "07PXPY\n"),
        ("chassis_type", "23\n"),
        ("product_name", "PowerEdge R6515\n"),
        ("product_uuid", "83340ca8-cb49-4474-8c29-d2088ca84dd9\n"),
        ("sys_vendor", "Dell Inc.\n"),
        ("board_asset_tag", "\n"),
    ]);
    let d = DMI::from_attrs(&a).expect("dmi");
    assert_eq!(d.bios_date.as_deref(), Some("04/12/2021"));
    assert_eq!(d.bios_release.as_deref(), Some("2.2"));
    assert_eq!(d.board_name.as_deref(), Some("07PXPY"));
    assert_eq!(d.product_name.as_deref(), Some("PowerEdge R6515"));
    assert_eq!(d.system_vendor.as_deref(), Some("Dell Inc."));
    assert_eq!(d.board_asset_tag, None);
    assert!(d.product_version.is_none());
}

#[test]
fn fchost_information() {
    let a = attrs(&[
        ("speed", "16 Gbit\n"),
        ("port_state", "Online\n"),
        ("port_type", "Point-To-Point (direct nport connection)\n"),
        ("node_name", "0x2000e0071bce95f2\n"),
        ("supported_speeds", "4 Gbit, 8 Gbit, 16 Gbit\n"),
    ]);
    let s = attrs(&[
        ("dumped_frames", "0xffffffffffffffff\n"),
        ("error_frames", "0x0\n"),
        ("rx_frames", "0x10\n"),
        ("tx_words", "0x130\n"),
    ]);
    let h = FibreChannelHost::from_attrs(&a, &s).expect("fc host");
    assert_eq!(h.speed.as_deref(), Some("16 Gbit"));
    assert_eq!(h.port_state.as_deref(), Some("Online"));
    assert_eq!(h.node_name.as_deref(), Some("0x2000e0071bce95f2"));
    assert_eq!(h.statistics.dumped_frames, Some(18446744073709551615));
    assert_eq!(h.statistics.error_frames, Some(0));
    assert_eq!(h.statistics.rx_frames, Some(16));
    assert_eq!(h.statistics.tx_words, Some(304));
    assert_eq!(h.statistics.nos_count, None);
    let bad = attrs(&[("rx_frames", "0xzz")]);
    assert!(FibreChannelHost::from_attrs(&a, &bad).is_err());
}

#[test]
fn infiniband_device_information() {
    let port_attrs = attrs(&[
        ("state", "4: ACTIVE\n"),
        ("phys_state", "5: LinkUp\n"),
        ("rate", "100 Gb/sec (4X EDR)\n"),
    ]);
    let ext = attrs(&[("port_rcv_packets_64", "638036947\n")]);
    let counters = attrs(&[("port_rcv_data", "345091702026\n"), ("VL15_dropped", "0\n")]);
    let hw = attrs(&[("duplicate_request", "41\n")]);
    let p = InfiniBandPort::from_attrs("hfi1_0".to_string(), "1", &port_attrs, &ext, &counters, &hw)
        .expect("port");
    assert_eq!(p.port, 1);
    assert_eq!(p.state, "ACTIVE");
    assert_eq!(p.state_id, 4);
    assert_eq!(p.phys_state, "LinkUp");
    assert_eq!(p.phys_state_id, 5);
    assert_eq!(p.rate, 12500000000);
    assert_eq!(p.counters.legacy_port_rcv_packets_64, Some(638036947));
    assert_eq!(p.counters.port_rcv_data, Some(345091702026));
    assert_eq!(p.counters.vl15_dropped, Some(0));
    assert_eq!(p.hw_counters.duplicate_request, Some(41));
    let dev_attrs = attrs(&[
        ("board_id", "HPE 100Gb 1-port OP101 QSFP28 x16 PCIe Gen3 with Intel Omni-Path Adapter\n"),
        ("fw_ver", "1.27.0\n"),
    ]);
    let d = InfiniBandDevice::from_attrs("hfi1_0".to_string(), &dev_attrs, vec![p]);
    assert_eq!(d.firmware_version, "1.27.0");
    assert_eq!(d.hca_type, "");
    assert_eq!(d.ports.len(), 1);
    assert_eq!(d.ports[&1].state, "ACTIVE");
    assert!(InfiniBandPort::from_attrs("x".to_string(), "one", &port_attrs, &ext, &counters, &hw).is_err());
}

#[test]
fn nvme_information() {
    let a = attrs(&[
        ("serial", "S680HF8N190894I\n"),
        ("model", "Samsung SSD 970 PRO 512GB               \n"),
        ("state", "live\n"),
        ("firmware_rev", "1B2QEXP7\n"),
    ]);
    let n = NVMeDevice::from_attrs(&a).expect("nvme");
    assert_eq!(n.serial, "S680HF8N190894I");
    assert_eq!(n.model, "Samsung SSD 970 PRO 512GB");
    assert_eq!(n.state, "live");
    assert_eq!(n.firmware_revision, "1B2QEXP7");
}

#[test]
fn power_supplies() {
    let a = attrs(&[
        ("capacity", "98\n"),
        ("capacity_level", "Normal\n"),
        ("energy_full", "50060000\n"),
        ("manufacturer", "LGC\n"),
        ("status", "Discharging\n"),
        ("technology", "Li-ion\n"),
        ("type", "Battery\n"),
        ("online", "\n"),
    ]);
    let p = PowerSupply::from_attrs(&a).expect("power supply");
    assert_eq!(p.capacity, Some(98));
    assert_eq!(p.capacity_level.as_deref(), Some("Normal"));
    assert_eq!(p.energy_full, Some(50060000));
    assert_eq!(p.manufacturer.as_deref(), Some("LGC"));
    assert_eq!(p.ps_type.as_deref(), Some("Battery"));
    assert_eq!(p.online, None);
    assert_eq!(p.voltage_now, None);
}

#[test]
fn kernel_random_gen() {
    let a = attrs(&[
        ("entropy_avail", "3943\n"),
        ("poolsize", "4096\n"),
        ("urandom_min_reseed_secs", "60\n"),
        ("write_wakeup_threshold", "3072\n"),
    ]);
    let k = KernelRandom::from_attrs(&a).expect("kernel random");
    assert_eq!(k.entropy_available, Some(3943));
    assert_eq!(k.pool_size, Some(4096));
    assert_eq!(k.urandom_min_reseed_secs, Some(60));
    assert_eq!(k.write_wakeup_threshold, Some(3072));
    assert_eq!(k.read_wakeup_threshold, None);
}

#[test]
fn scsi_tape_counters() {
    let a = attrs(&[("write_ns", "5233597394395\n"), ("read_byte_cnt", "979383912\n"), ("in_flight", "0\n")]);
    let s = ScsiTapeCounters::from_attrs(&a).expect("scsi tape");
    assert_eq!(s.write_ns, 5233597394395);
    assert_eq!(s.read_byte_cnt, 979383912);
    assert_eq!(s.io_ns, 0);
}

#[test]
fn watchdog_devices() {
    let a = attrs(&[
        ("bootstatus", "1\n"),
        ("options", "0x8380\n"),
        ("identity", "Software Watchdog\n"),
        ("state", "active\n"),
        ("timeout", "60\n"),
        ("max_timeout", "65535\n"),
        ("pretimeout_governor", "noop\n"),
    ]);
    let w = Watchdog::from_attrs("watchdog0".to_string(), &a).expect("watchdog");
    assert_eq!(w.name, "watchdog0");
    assert_eq!(w.boot_status, Some(1));
    assert_eq!(w.options.as_deref(), Some("0x8380"));
    assert_eq!(w.identity.as_deref(), Some("Software Watchdog"));
    assert_eq!(w.state.as_deref(), Some("active"));
    assert_eq!(w.timeout, Some(60));
    assert_eq!(w.max_timeout, Some(65535));
    assert_eq!(w.pretimeout_governor.as_deref(), Some("noop"));
    assert_eq!(w.timeleft, None);
}

#[test]
fn sas_host_information() {
    let entries = names(&["phy-11:0", "phy-11:1", "port-11:0", "power", "uevent", "phy-11:x"]);
    let h = SASHost::from_entries(&entries).expect("sas host");
    assert_eq!(h.sas_phys, vec!["phy-11:0", "phy-11:1"]);
    assert_eq!(h.sas_ports, vec!["port-11:0"]);
}

#[test]
fn sas_port_information() {
    let entries = names(&["phy-11:0:2", "end_device-11:0:2", "expander-11:0", "port-11:0:2"]);
    let p = SASPort::from_entries(&entries).expect("sas port");
    assert_eq!(p.sas_phys, vec!["phy-11:0:2"]);
    assert_eq!(p.expanders, vec!["expander-11:0"]);
    assert_eq!(p.end_devices, vec!["end_device-11:0:2"]);
}

#[test]
fn sas_devices_information() {
    let entries = names(&["phy-11:0:2", "port-11:0:0", "target11:0:0", "power"]);
    let d = SASDevice::from_entries("0x5000ccab02009402".to_string(), &entries).expect("sas device");
    assert_eq!(d.sas_address, "0x5000ccab02009402");
    assert_eq!(d.sas_phys, vec!["phy-11:0:2"]);
    assert_eq!(d.sas_ports, vec!["port-11:0:0"]);
    assert!(d.block_devices.is_empty());
    assert_eq!(SASDevice::targets(&entries).expect("targets"), vec!["target11:0:0"]);
    let subs = names(&["11:0:0:0", "power"]);
    assert_eq!(SASDevice::subdevices(&subs).expect("subdevices"), vec!["11:0:0:0"]);
}

#[test]
fn sas_phy_information() {
    let a = attrs(&[
        ("sas_address", "0x5000ccab0200947e\n"),
        ("device_type", "edge expander\n"),
        ("initiator_port_protocols", "smp\n"),
        ("invalid_dword_count", "18\n"),
        ("maximum_linkrate", "12.0 Gbit\n"),
        ("negotiated_linkrate", "12.0 Gbit\n"),
        ("phy_identifier", "2\n"),
        ("target_port_protocols", "sata, smp, ssp\n"),
    ]);
    let p = procsys::sas_phy::SASPhy::from_attrs(&a, Some("port-11:0:0".to_string())).expect("sas phy");
    assert_eq!(p.sas_address, "0x5000ccab0200947e");
    assert_eq!(p.sas_port, "port-11:0:0");
    assert_eq!(p.device_type, "edge expander");
    assert_eq!(p.initiator_port_protocols, vec!["smp"]);
    assert_eq!(p.invalid_dword_count, 18);
    assert_eq!(p.loss_of_dword_sync_count, 0);
    assert_eq!(p.maximum_linkrate, "12.0");
    assert_eq!(p.minimum_linkrate, "");
    assert_eq!(p.phy_identifier, "2");
    assert_eq!(p.target_port_protocols, vec!["sata", "smp", "ssp"]);
    let other = procsys::sas_phy::SASPhy::from_attrs(&a, Some("expander-11:0".to_string())).expect("sas phy");
    assert_eq!(other.sas_port, "");
    let bad = attrs(&[("invalid_dword_count", "many")]);
    assert!(procsys::sas_phy::SASPhy::from_attrs(&bad, None).is_err());
}
