//! Typed records of the Linux `/proc` and `/sys` pseudo-files: memory, CPU,
//! network, process and device statistics. Each module decodes one text
//! layout, handed over as lines or as (attribute file, content) pairs; the
//! reading of the files is left to the caller.
pub mod attrs;
pub mod buddyinfo;
pub mod clocksource;
pub mod cmdline;
pub mod columns;
pub mod cpuinfo;
pub mod crypto;
pub mod dmi;
pub mod error;
pub mod fibrechannel;
pub mod infiniband;
pub mod kernel_random;
pub mod kv;
pub mod meminfo;
pub mod net_arp;
pub mod net_dev;
pub mod net_protocols;
pub mod net_sockstat;
pub mod net_unix;
pub mod net_wireless;
pub mod nvme;
pub mod pattern;
pub mod power_supply;
pub mod proc;
pub mod proc_io;
pub mod process;
pub mod process_io;
pub mod process_limits;
pub mod process_net_snmp6;
pub mod process_net_snmp;
pub mod process_netstat;
pub mod sas;
pub mod sas_phy;
pub mod scsi_tape;
pub mod softirqs;
pub mod stat_table;
pub mod swaps;
pub mod text;
pub mod thermal;
pub mod utils;
pub mod watchdog;
