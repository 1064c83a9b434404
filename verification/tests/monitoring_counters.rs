use powerhouse::monitoring::read_network;
use powerhouse::monitoring::{cpu_total_fits, read_cpu, read_disk, read_memory, MonitoringError};
use powerhouse::process::{field, process_from_status};

#[test]
fn cpu_counters_sum_the_first_line() {
    let stat = "cpu  10 20 30 40 50 60\ncpu0 1 2 3 4 5\n";
    let counters = read_cpu(stat).unwrap();
    assert_eq!(counters.total, 210);
    assert_eq!(counters.idle, 90);
    let counters = read_cpu("cpu 1 x 3 4 5").unwrap();
    assert_eq!(counters.total, 13);
    assert_eq!(counters.idle, 9);
}

#[test]
fn short_cpu_lines_are_invalid() {
    match read_cpu("  cpu 1 2 3 4  \n") {
        Err(MonitoringError::Invalid { path, value }) => {
            assert_eq!(path, "/proc/stat");
            assert_eq!(value, "cpu 1 2 3 4");
        }
        other => panic!("unexpected {other:?}"),
    }
    assert!(read_cpu("").is_err());
}

#[test]
fn cpu_idle_time_saturates() {
    let counters = read_cpu(&format!("cpu 0 0 0 {} 0", u64::MAX)).unwrap();
    assert_eq!(counters.idle, u64::MAX);
    assert_eq!(counters.total, u64::MAX);
}

#[test]
fn memory_figures_default_to_zero() {
    let content = "MemTotal: 100 kB\nMemAvailable: x kB\nSwapTotal: 7 kB\n";
    assert_eq!(read_memory(content), (100, 0, 7, 0));
}

#[test]
fn disk_counters_add_sectors_of_full_lines() {
    let line = |r: u64, w: u64| format!("8 0 sda 1 2 {r} 4 5 6 {w} 9 10 11 12\n");
    let content = format!("{}{}short line\n", line(100, 200), line(1, 2));
    let counters = read_disk(&content);
    assert_eq!(counters.read_sectors, 101);
    assert_eq!(counters.write_sectors, 202);
    let saturated = read_disk(&format!("{}{}", line(u64::MAX, 0), line(5, 0)));
    assert_eq!(saturated.read_sectors, u64::MAX);
}

#[test]
fn status_fields_are_trimmed() {
    let status = "Name:\tbash\nState:\tS (sleeping)\nVmRSS:\t  2048 kB\n";
    assert_eq!(field(status, "Name:").as_deref(), Some("bash"));
    assert_eq!(field(status, "VmRSS:").as_deref(), Some("2048 kB"));
    assert_eq!(field(status, "Uid:"), None);
}

#[test]
fn processes_are_read_from_their_status_file() {
    let process = process_from_status(7, "Name:\tbash\nState:\tS (sleeping)\nVmRSS:\t2048 kB\n");
    assert_eq!(process.pid, 7);
    assert_eq!(process.name, "bash");
    assert_eq!(process.state, "S (sleeping)");
    assert_eq!(process.memory_bytes, 2048 * 1024);
    let unknown = process_from_status(8, "VmRSS:\tlots\n");
    assert_eq!(unknown.name, "unknown");
    assert_eq!(unknown.state, "unknown");
    assert_eq!(unknown.memory_bytes, 0);
    let huge = process_from_status(9, &format!("VmRSS:\t{} kB\n", u64::MAX));
    assert_eq!(huge.memory_bytes, u64::MAX);
}

#[test]
fn network_counters_are_read_per_interface() {
    let content = "Inter-|   Receive\n face |bytes\n  lo: 10 0 0 0 0 0 0 0 20 0 0 0 0 0 0 0\n\
                   eth0: 5 0 0 0 0 0 0 0 6\nbad line\n  lo: 11 0 0 0 0 0 0 0 21\n";
    let counters = read_network(content);
    assert_eq!(counters.len(), 2);
    assert_eq!(counters[0].0, "lo");
    assert_eq!((counters[0].1.rx, counters[0].1.tx), (11, 21));
    assert_eq!(counters[1].0, "eth0");
    assert_eq!((counters[1].1.rx, counters[1].1.tx), (5, 6));
    assert!(read_network("only one line\n").is_empty());
}

#[test]
fn cpu_total_fits_only_when_the_counters_sum_to_a_u64() {
    assert!(cpu_total_fits("cpu 1 2 3 4 5\n"));
    assert!(!cpu_total_fits(&format!("cpu {} 1 0 0 0", u64::MAX)));
    assert!(cpu_total_fits(&format!("cpu {} 1", u64::MAX)));
    assert!(cpu_total_fits(""));
}
