use aiva::telemetry::wsl_metrics;
use aiva::telemetry::{
    cpu_usage_hundredths, default_metrics, memory_from_status, process_metrics, process_uptime_secs,
    system_uptime_centis, traffic_from_net_dev, uptime_centis,
};
use aiva::templates::VMTemplate;
use aiva::text::split_words;
use aiva::{RuntimeInfo, VMInstance, VMState};

const STAT: &str = "4242 (firecracker) S 1 4242 4242 0 -1 4194560 2000 0 0 0 300 200 0 0 20 0 3 0 150000 1000000 5000 18446744073709551615";

#[test]
fn words_skip_runs_of_white_space() {
    assert_eq!(split_words("  a\t\tbb \n c  "), vec!["a", "bb", "c"]);
    assert!(split_words(" \t\n").is_empty());
}

#[test]
fn uptime_readings() {
    assert_eq!(uptime_centis("12345.67"), Some(1234567));
    assert_eq!(uptime_centis("5.5"), Some(550));
    assert_eq!(uptime_centis("5."), Some(500));
    assert_eq!(uptime_centis("5.678"), Some(567));
    assert_eq!(uptime_centis("5"), None);
    assert_eq!(uptime_centis(".5"), None);
    assert_eq!(uptime_centis("1.2.3"), None);
    assert_eq!(system_uptime_centis("3600.25 7000.00\n"), Some(360025));
    assert_eq!(system_uptime_centis(""), None);
}

#[test]
fn cpu_share_from_stat() {
    assert_eq!(cpu_usage_hundredths(STAT, 200_000), 25);
    assert_eq!(cpu_usage_hundredths(STAT, 2_000), 2500);
    assert_eq!(cpu_usage_hundredths(STAT, 100), 10000);
    assert_eq!(cpu_usage_hundredths(STAT, 0), 10000);
    assert_eq!(cpu_usage_hundredths("1 (x) S", 1000), 0);
}

#[test]
fn process_uptime_from_stat() {
    assert_eq!(process_uptime_secs(STAT, 250_000), 1000);
    assert_eq!(process_uptime_secs(STAT, 100_000), 0);
    assert_eq!(process_uptime_secs("short line", 100), 0);
}

#[test]
fn memory_from_status_file() {
    let status = "Name:\tfirecracker\nVmSize:\t  2097152 kB\nVmRSS:\t   524288 kB\nThreads:\t3\n";
    let m = memory_from_status(status);
    assert_eq!((m.total_mb, m.used_mb, m.available_mb, m.cache_mb), (2048, 512, 1536, 0));
    let none = memory_from_status("Name: x\n");
    assert_eq!((none.total_mb, none.used_mb), (0, 0));
}

#[test]
fn traffic_from_net_dev_file() {
    let net_dev = "Inter-|   Receive |  Transmit\n face |bytes packets errs drop fifo frame compressed multicast|bytes packets\n    lo: 100 2 0 0 0 0 0 0 100 2 0 0 0 0 0 0\ntap-alice: 5000 40 0 0 0 0 0 0 7000 50 0 0 0 0 0 0\n";
    let t = traffic_from_net_dev(net_dev, "tap-alice");
    assert_eq!((t.rx_bytes, t.rx_packets, t.tx_bytes, t.tx_packets), (5000, 40, 7000, 50));
    let missing = traffic_from_net_dev(net_dev, "tap-bob");
    assert_eq!((missing.rx_bytes, missing.tx_packets), (0, 0));
}

#[test]
fn metrics_from_process_and_fallback() {
    let status = "VmSize: 4096 kB\nVmRSS: 2048 kB\n";
    let m = process_metrics(STAT, status, "2000.00 1.00", None, None);
    assert_eq!(m.cpu_usage_hundredths, 25);
    assert_eq!(m.uptime_secs, 500);
    assert_eq!(m.memory_usage.total_mb, 4);
    assert_eq!(m.network_io.rx_bytes, 0);
    let vm = VMInstance {
        id: 1,
        name: "a".to_string(),
        state: VMState::Running,
        config: VMTemplate::python3_uv().base_config,
        runtime: RuntimeInfo::empty(),
        created_at: 0,
        updated_at: 0,
    };
    let d = default_metrics(&vm);
    assert_eq!((d.memory_usage.total_mb, d.memory_usage.available_mb, d.cpu_usage_hundredths), (4096, 4096, 0));
}

fn windows_vm() -> VMInstance {
    VMInstance {
        id: 2,
        name: "w".to_string(),
        state: VMState::Running,
        config: VMTemplate::python3_uv().base_config,
        runtime: RuntimeInfo::empty(),
        created_at: 0,
        updated_at: 0,
    }
}

#[test]
fn wsl_report_is_read_per_key() {
    let report = "cpu_usage: 12.5,\nmemory_used_kb: 204800,\nmemory_total_kb: 1048576,\nrx_bytes: 500,\ntx_bytes: 700\n";
    let m = wsl_metrics(report, &windows_vm());
    assert_eq!(m.cpu_usage_hundredths, 1250);
    assert_eq!((m.memory_usage.total_mb, m.memory_usage.used_mb, m.memory_usage.available_mb), (1024, 200, 824));
    assert_eq!((m.network_io.rx_bytes, m.network_io.tx_bytes), (500, 700));
    let odd = wsl_metrics("cpu_usage: high\nmemory_used_kb: 4096\nmemory_total_kb: 1024\n", &windows_vm());
    assert_eq!(odd.cpu_usage_hundredths, 1500);
    assert_eq!(odd.memory_usage.available_mb, 0);
    let whole = wsl_metrics("cpu_usage: 7\n", &windows_vm());
    assert_eq!(whole.cpu_usage_hundredths, 700);
}

#[test]
fn wsl_error_answer_gives_fallback() {
    let m = wsl_metrics("error: not running\n", &windows_vm());
    assert_eq!((m.memory_usage.total_mb, m.memory_usage.available_mb, m.cpu_usage_hundredths), (4096, 4096, 0));
}
