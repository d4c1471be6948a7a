use procsys::error::MetricError;
use procsys::proc::{proc_dir_of, Proc};
use procsys::proc_io::ProcIO;
use procsys::process::{dir_of, pid_of, Process, ProcessCgroup, ProcessNamespace};
use procsys::process_io::ProcessIO;
use procsys::process_limits::{ProcessLimits, MAX_LIMIT_SIZE};

fn lines(text: &[&str]) -> Vec<String> {
    text.iter().map(|s| s.to_string()).collect()
}

#[test]
fn proc_collect() {
    let p = Process::found("test_data/fixtures/proc", 26231, true).expect("running proc 26231");
    assert_eq!(p.pid(), 26231);
    assert_eq!(p.path(), "test_data/fixtures/proc/26231");
    assert!(matches!(
        Process::found("test_data/fixtures/proc", 26239, false),
        Err(MetricError::ProcessNotFound(26239))
    ));
    assert_eq!(Process::comm_from("vim\n"), "vim");
    assert_eq!(Process::wchan_from("poll_schedule_timeout"), "poll_schedule_timeout");
    assert_eq!(Process::wchan_from("0\n"), "");
    assert_eq!(
        Process::nul_separated("vim\0test.go\0+10\0"),
        vec!["vim", "test.go", "+10"]
    );
    assert_eq!(
        Process::nul_separated("HOSTNAME=cd24e11f73a5\0TERM=xterm\0\0"),
        vec!["HOSTNAME=cd24e11f73a5", "TERM=xterm"]
    );
    assert_eq!(Process::nul_separated(""), vec![""]);
}

#[test]
fn proc_pid_names() {
    assert_eq!(pid_of("26231"), Some(26231));
    assert_eq!(pid_of("self"), None);
    assert_eq!(pid_of(""), None);
    assert_eq!(dir_of("/proc", 0), "/proc/0");
    assert_eq!(dir_of("/proc/", 12), "/proc/12");
    assert_eq!(dir_of("", 12), "12");
    assert_eq!(proc_dir_of(1), "/proc/1/");
    let p = Proc::found(7, true).expect("proc 7");
    assert_eq!(p.pid(), 7);
    assert_eq!(p.path(), "/proc/7/");
    assert!(Proc::found(8, false).is_err());
}

#[test]
fn proc_cgroup() {
    let data = lines(&[
        "12:devices:/user.slice",
        "11:cpu,cpuacct:/user.slice/user-1000.slice",
        "0::/user.slice/user-1000.slice/session-2.scope",
    ]);
    let c = ProcessCgroup::parse_all(&data).expect("running proc 26231 cgroup stat");
    assert_eq!(c.len(), 3);
    assert_eq!(c[0].hierarchy_id, 12);
    assert_eq!(c[0].controllers, vec!["devices"]);
    assert_eq!(c[1].controllers, vec!["cpu", "cpuacct"]);
    assert_eq!(c[2].hierarchy_id, 0);
    assert!(c[2].controllers.is_empty());
    assert_eq!(c[2].path, "/user.slice/user-1000.slice/session-2.scope");
    assert!(ProcessCgroup::parse_all(&lines(&["x:devices:/"])).is_err());
    assert!(matches!(
        ProcessCgroup::parse_all(&lines(&["12:devices"])),
        Err(MetricError::InvalidFieldNumberError(_, 2, _))
    ));
    let empty = ProcessCgroup::new();
    assert_eq!(empty.hierarchy_id, 0);
}

#[test]
fn proc_ns() {
    let n = ProcessNamespace::from_link("net:[4026531993]").expect("namespace");
    assert_eq!(n.ns_type, "net");
    assert_eq!(n.inode, 4026531993);
    let m = ProcessNamespace::from_link("mnt:[4026531840]").expect("namespace");
    assert_eq!(m.inode, 4026531840);
    assert!(ProcessNamespace::from_link("bogus").is_err());
    let z = ProcessNamespace::from_link("pid:[x]").expect("namespace");
    assert_eq!(z.inode, 0);
    assert_eq!(ProcessNamespace::new().inode, 0);
}

#[test]
fn process_io_proc_io() {
    let data = lines(&[
        "rchar: 750339",
        "wchar: 818609",
        "syscr: 7405",
        "syscw: 5245",
        "read_bytes: 1024",
        "write_bytes: 2048",
        "cancelled_write_bytes: -1024",
    ]);
    let io = ProcessIO::parse(&data).expect("running proc 26231 io stat");
    assert_eq!(io.rchar, 750339);
    assert_eq!(io.wchar, 818609);
    assert_eq!(io.syscr, 7405);
    assert_eq!(io.syscw, 5245);
    assert_eq!(io.read_bytes, 1024);
    assert_eq!(io.write_bytes, 2048);
    assert_eq!(io.cancelled_write_bytes, -1024);
    let odd = lines(&["rchar: many"]);
    assert_eq!(ProcessIO::parse(&odd).expect("io").rchar, 0);
    assert!(ProcessIO::parse(&lines(&["rchar 1"])).is_err());
}

#[test]
fn proc_io_proc_io() {
    let data = lines(&["rchar: 750339", "wchar: 818609", "read_bytes: 1024", "write_bytes: 2048"]);
    let io = ProcIO::parse(&data).expect("running proc 26231 io stat");
    assert_eq!(io.rchar, 750339);
    assert_eq!(io.wchar, 818609);
    assert_eq!(io.read_bytes, 1024);
    assert_eq!(io.write_bytes, 2048);
    assert_eq!(io.syscr, 0);
}

#[test]
fn proc_limits() {
    let data = lines(&[
        "Limit                     Soft Limit           Hard Limit           Units     ",
        "Max cpu time              unlimited            unlimited            seconds   ",
        "Max file size             unlimited            unlimited            bytes     ",
        "Max stack size            8388608              unlimited            bytes     ",
        "Max processes             62898                62898                processes ",
        "Max open files            2048                 4096                 files     ",
        "Max address space         8589934592           unlimited            bytes     ",
        "Max realtime timeout      unlimited            unlimited            us        ",
    ]);
    let l = ProcessLimits::parse(&data).expect("running proc 26231 limits");
    assert_eq!(l.cpu_time, MAX_LIMIT_SIZE);
    assert_eq!(l.file_size, 18446744073709551615);
    assert_eq!(l.stack_size, 8388608);
    assert_eq!(l.processes, 62898);
    assert_eq!(l.open_files, 2048);
    assert_eq!(l.address_space, 8589934592);
    assert_eq!(l.realtime_timeout, MAX_LIMIT_SIZE);
    assert_eq!(l.data_size, 0);
}

#[test]
fn proc_limits_all_rows() {
    let data = lines(&[
        "Limit                     Soft Limit           Hard Limit           Units     ",
        "Max core file size        0                    unlimited            bytes     ",
        "Max resident set          unlimited            unlimited            bytes     ",
        "Max locked memory         8388608              8388608              bytes     ",
        "Max file locks            unlimited            unlimited            locks     ",
        "Max pending signals       62898                62898                signals   ",
        "Max msgqueue size         819200               819200               bytes     ",
        "Max nice priority         0                    0                    ",
        "Max realtime priority     0                    0                    ",
    ]);
    let l = ProcessLimits::parse(&data).expect("limits");
    assert_eq!(l.core_file_size, 0);
    assert_eq!(l.resident_set, MAX_LIMIT_SIZE);
    assert_eq!(l.locked_memory, 8388608);
    assert_eq!(l.file_locks, MAX_LIMIT_SIZE);
    assert_eq!(l.pending_signals, 62898);
    assert_eq!(l.msgqueue_size, 819200);
    assert_eq!(l.nice_priority, 0);
    assert_eq!(l.realtime_priority, 0);
}

#[test]
fn process_error_kinds() {
    assert!(matches!(
        ProcessCgroup::from_line("x:devices:/"),
        Err(MetricError::ParseIntError(item, _)) if item == "x"
    ));
    assert!(matches!(
        ProcessCgroup::from_line("1:2:3:4"),
        Err(MetricError::InvalidFieldNumberError(_, 4, _))
    ));
    assert!(matches!(
        ProcessNamespace::from_link("net"),
        Err(MetricError::InvalidFieldNumberError(_, 1, _))
    ));
}
