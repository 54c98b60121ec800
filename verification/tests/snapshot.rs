//! Tests of the pure snapshot builder.

use orc_agent::si::build_selection_input;
use orc_agent::si::kind_label;
use orc_agent::si::mac_address_string;
use orc_agent::si::used_space;
use orc_agent::si::DiskEntry;
use orc_agent::si::DiskKind;
use orc_agent::si::NetEntry;
use orc_agent::si::SelectionInput;
use orc_agent::si::SystemFacts;

fn facts() -> SystemFacts {
    SystemFacts {
        system_name: "linux".to_string(),
        hostname: "host".to_string(),
        kernel_version: "6.1.0".to_string(),
        os_version: String::new(),
        uptime: 42,
        total_memory: 1024,
        used_memory: 512,
        total_swap: 256,
        used_swap: 0,
        num_cpus: 4,
        cpu_usage_bits: 0,
        load_average_bits: (0, 0, 0),
    }
}

fn net(name: &str, mac: [u8; 6], bytes_in: u64) -> NetEntry {
    NetEntry {
        name: name.to_string(),
        mac,
        bytes_in,
        bytes_out: 2 * bytes_in,
        errors_in: 0,
        errors_out: 1,
    }
}

fn disk(mount: &str, total: u64, available: u64) -> DiskEntry {
    DiskEntry {
        mount_point: mount.to_string(),
        device: format!("dev-{mount}"),
        kind: DiskKind::Ssd,
        total,
        available,
    }
}

#[test]
fn used_space_derivation() {
    assert_eq!(used_space(1000, 400), 600);
    assert_eq!(used_space(400, 1000), 0);
    assert_eq!(used_space(0, 0), 0);
    assert_eq!(used_space(u64::MAX, 0), u64::MAX);
}

#[test]
fn used_space_in_built_volumes() {
    let s = build_selection_input(
        facts(),
        vec![],
        vec![disk("/", 1000, 400), disk("/data", 10, 30)],
        7,
    );
    assert_eq!(s.volumes.len(), 2);
    assert_eq!(s.volumes[0].0, "/");
    assert_eq!(s.volumes[0].1.used, 600);
    assert_eq!(s.volumes[1].0, "/data");
    assert_eq!(s.volumes[1].1.used, 0);
}

#[test]
fn mac_rendering() {
    assert_eq!(
        mac_address_string(&[0x00, 0x1b, 0x44, 0x11, 0x3a, 0xb7]),
        "00:1b:44:11:3a:b7"
    );
    assert_eq!(
        mac_address_string(&[0xff, 0xff, 0xff, 0xff, 0xff, 0xff]),
        "ff:ff:ff:ff:ff:ff"
    );
    assert_eq!(mac_address_string(&[0, 0, 0, 0, 0, 0]), "00:00:00:00:00:00");
}

#[test]
fn kind_labels() {
    assert_eq!(kind_label(&DiskKind::Hdd), "HDD");
    assert_eq!(kind_label(&DiskKind::Ssd), "SSD");
    assert_eq!(kind_label(&DiskKind::Unknown), "Unknown");
}

#[test]
fn network_keys_sorted() {
    let mac = [0, 0, 0, 0, 0, 1];
    let s = build_selection_input(
        facts(),
        vec![net("eth0", mac, 10), net("wlan0", mac, 20), net("lo", mac, 30)],
        vec![],
        7,
    );
    let keys: Vec<&str> = s.network.iter().map(|(k, _)| k.as_str()).collect();
    assert_eq!(keys, vec!["eth0", "lo", "wlan0"]);
}

#[test]
fn duplicate_interface_last_write_wins() {
    let mac = [0, 0, 0, 0, 0, 1];
    let s = build_selection_input(
        facts(),
        vec![net("eth0", mac, 10), net("eth0", mac, 99)],
        vec![],
        7,
    );
    assert_eq!(s.network.len(), 1);
    assert_eq!(s.network[0].0, "eth0");
    assert_eq!(s.network[0].1.bytes_in, 99);
}

fn assert_same_but_timestamp(a: &SelectionInput, b: &SelectionInput) {
    assert_eq!(a.system_name, b.system_name);
    assert_eq!(a.hostname, b.hostname);
    assert_eq!(a.kernel_version, b.kernel_version);
    assert_eq!(a.os_version, b.os_version);
    assert_eq!(a.uptime, b.uptime);
    assert_eq!(a.total_memory, b.total_memory);
    assert_eq!(a.used_memory, b.used_memory);
    assert_eq!(a.total_swap, b.total_swap);
    assert_eq!(a.used_swap, b.used_swap);
    assert_eq!(a.num_cpus, b.num_cpus);
    assert_eq!(a.cpu_usage_bits, b.cpu_usage_bits);
    assert_eq!(a.load_average_bits, b.load_average_bits);
    assert_eq!(a.network.len(), b.network.len());
    for (x, y) in a.network.iter().zip(b.network.iter()) {
        assert_eq!(x.0, y.0);
        assert_eq!(x.1.mac_address, y.1.mac_address);
        assert_eq!(x.1.bytes_in, y.1.bytes_in);
        assert_eq!(x.1.bytes_out, y.1.bytes_out);
        assert_eq!(x.1.errors_in, y.1.errors_in);
        assert_eq!(x.1.errors_out, y.1.errors_out);
    }
    assert_eq!(a.volumes.len(), b.volumes.len());
    for (x, y) in a.volumes.iter().zip(b.volumes.iter()) {
        assert_eq!(x.0, y.0);
        assert_eq!(x.1.device, y.1.device);
        assert_eq!(x.1.kind, y.1.kind);
        assert_eq!(x.1.total, y.1.total);
        assert_eq!(x.1.available, y.1.available);
        assert_eq!(x.1.used, y.1.used);
    }
}

#[test]
fn builder_deterministic_except_timestamp() {
    let mac = [0xde, 0xad, 0xbe, 0xef, 0x00, 0x01];
    let a = build_selection_input(
        facts(),
        vec![net("eth0", mac, 10), net("lo", mac, 1)],
        vec![disk("/", 1000, 400)],
        100,
    );
    let b = build_selection_input(
        facts(),
        vec![net("eth0", mac, 10), net("lo", mac, 1)],
        vec![disk("/", 1000, 400)],
        200,
    );
    assert_eq!(a.timestamp, 100);
    assert_eq!(b.timestamp, 200);
    assert_same_but_timestamp(&a, &b);
}

#[test]
fn default_snapshot_is_zero_valued() {
    let s = SelectionInput::default();
    assert_eq!(s.system_name, "");
    assert_eq!(s.hostname, "");
    assert_eq!(s.kernel_version, "");
    assert_eq!(s.os_version, "");
    assert_eq!(s.uptime, 0);
    assert_eq!(s.timestamp, 0);
    assert_eq!(s.total_memory, 0);
    assert_eq!(s.used_memory, 0);
    assert_eq!(s.total_swap, 0);
    assert_eq!(s.used_swap, 0);
    assert_eq!(s.num_cpus, 0);
    assert_eq!(s.cpu_usage_bits, 0);
    assert_eq!(s.load_average_bits, (0, 0, 0));
    assert!(s.network.is_empty());
    assert!(s.volumes.is_empty());
}
