//! The snapshot data model and its builder.
//!
//! A `SelectionInput` is one immutable, serialization-ready reading of host
//! metrics. `build_selection_input` maps plain readings taken from the
//! provider to that shape: counters are copied verbatim, MAC addresses are
//! rendered in their canonical colon-separated lowercase hexadecimal form,
//! a volume's used space is derived from its total and available space
//! (clamped at zero when a reading claims more available than total), and
//! the `network` and `volumes` maps keep their keys sorted.
//!
//! CPU usage and the load average are IEEE-754 values reported by the
//! platform; the core carries them verbatim as their bit patterns
//! (`cpu_usage_bits`, `load_average_bits`) so that no field of the snapshot
//! is interpreted, only moved.

use vstd::prelude::*;

verus! {

use crate::sorted_map::assoc_insert;
use crate::sorted_map::key_set;
use crate::sorted_map::lemma_map_insert_all_key_set;
use crate::sorted_map::lemma_map_insert_all_pairs;
use crate::sorted_map::lemma_map_insert_all_sorted;
use crate::sorted_map::map_insert_all;
use crate::sorted_map::pairs_view;
use crate::sorted_map::sorted_keys;

/// Counters of one network interface, as they appear in a snapshot.
pub struct NetworkInfo {
    pub mac_address: String,
    pub bytes_in: u64,
    pub bytes_out: u64,
    pub errors_in: u64,
    pub errors_out: u64,
}

/// The abstract content of a `NetworkInfo`.
#[verifier::ext_equal]
pub ghost struct NetworkInfoV {
    pub mac_address: Seq<char>,
    pub bytes_in: u64,
    pub bytes_out: u64,
    pub errors_in: u64,
    pub errors_out: u64,
}

impl View for NetworkInfo {
    type V = NetworkInfoV;

    open spec fn view(&self) -> NetworkInfoV {
        NetworkInfoV {
            mac_address: self.mac_address@,
            bytes_in: self.bytes_in,
            bytes_out: self.bytes_out,
            errors_in: self.errors_in,
            errors_out: self.errors_out,
        }
    }
}

/// One volume of the snapshot's `volumes` map.
pub struct DiskInfo {
    pub device: String,
    pub kind: String,
    pub total: u64,
    pub available: u64,
    pub used: u64,
}

/// The abstract content of a `DiskInfo`.
#[verifier::ext_equal]
pub ghost struct DiskInfoV {
    pub device: Seq<char>,
    pub kind: Seq<char>,
    pub total: u64,
    pub available: u64,
    pub used: u64,
}

impl View for DiskInfo {
    type V = DiskInfoV;

    open spec fn view(&self) -> DiskInfoV {
        DiskInfoV {
            device: self.device@,
            kind: self.kind@,
            total: self.total,
            available: self.available,
            used: self.used,
        }
    }
}

/// The technology of a volume as the platform reports it; anything the
/// platform cannot classify counts uniformly as `Unknown`.
pub enum DiskKind {
    Hdd,
    Ssd,
    Unknown,
}

/// One raw network-interface reading handed over by the provider.
pub struct NetEntry {
    pub name: String,
    pub mac: [u8; 6],
    pub bytes_in: u64,
    pub bytes_out: u64,
    pub errors_in: u64,
    pub errors_out: u64,
}

/// The abstract content of a `NetEntry`.
#[verifier::ext_equal]
pub ghost struct NetEntryV {
    pub name: Seq<char>,
    pub mac: Seq<u8>,
    pub bytes_in: u64,
    pub bytes_out: u64,
    pub errors_in: u64,
    pub errors_out: u64,
}

impl View for NetEntry {
    type V = NetEntryV;

    open spec fn view(&self) -> NetEntryV {
        NetEntryV {
            name: self.name@,
            mac: self.mac@,
            bytes_in: self.bytes_in,
            bytes_out: self.bytes_out,
            errors_in: self.errors_in,
            errors_out: self.errors_out,
        }
    }
}

/// One raw volume reading handed over by the provider.
pub struct DiskEntry {
    pub mount_point: String,
    pub device: String,
    pub kind: DiskKind,
    pub total: u64,
    pub available: u64,
}

/// The abstract content of a `DiskEntry`.
#[verifier::ext_equal]
pub ghost struct DiskEntryV {
    pub mount_point: Seq<char>,
    pub device: Seq<char>,
    pub kind: DiskKind,
    pub total: u64,
    pub available: u64,
}

impl View for DiskEntry {
    type V = DiskEntryV;

    open spec fn view(&self) -> DiskEntryV {
        DiskEntryV {
            mount_point: self.mount_point@,
            device: self.device@,
            kind: self.kind,
            total: self.total,
            available: self.available,
        }
    }
}

/// The global system facts read from the provider in one critical section.
/// A fact the platform cannot report arrives as an empty string or zero.
pub struct SystemFacts {
    pub system_name: String,
    pub hostname: String,
    pub kernel_version: String,
    pub os_version: String,
    pub uptime: u64,
    pub total_memory: u64,
    pub used_memory: u64,
    pub total_swap: u64,
    pub used_swap: u64,
    pub num_cpus: usize,
    pub cpu_usage_bits: u32,
    pub load_average_bits: (u64, u64, u64),
}

/// The abstract content of a `SystemFacts`.
#[verifier::ext_equal]
pub ghost struct SystemFactsV {
    pub system_name: Seq<char>,
    pub hostname: Seq<char>,
    pub kernel_version: Seq<char>,
    pub os_version: Seq<char>,
    pub uptime: u64,
    pub total_memory: u64,
    pub used_memory: u64,
    pub total_swap: u64,
    pub used_swap: u64,
    pub num_cpus: usize,
    pub cpu_usage_bits: u32,
    pub load_average_bits: (u64, u64, u64),
}

impl View for SystemFacts {
    type V = SystemFactsV;

    open spec fn view(&self) -> SystemFactsV {
        SystemFactsV {
            system_name: self.system_name@,
            hostname: self.hostname@,
            kernel_version: self.kernel_version@,
            os_version: self.os_version@,
            uptime: self.uptime,
            total_memory: self.total_memory,
            used_memory: self.used_memory,
            total_swap: self.total_swap,
            used_swap: self.used_swap,
            num_cpus: self.num_cpus,
            cpu_usage_bits: self.cpu_usage_bits,
            load_average_bits: self.load_average_bits,
        }
    }
}

/// One immutable snapshot of host metrics.
pub struct SelectionInput {
    pub system_name: String,
    pub hostname: String,
    pub kernel_version: String,
    pub os_version: String,
    pub uptime: u64,
    pub timestamp: u64,
    pub total_memory: u64,
    pub used_memory: u64,
    pub total_swap: u64,
    pub used_swap: u64,
    pub num_cpus: usize,
    pub cpu_usage_bits: u32,
    pub load_average_bits: (u64, u64, u64),
    pub network: Vec<(String, NetworkInfo)>,
    pub volumes: Vec<(String, DiskInfo)>,
}

/// The abstract content of a `SelectionInput`.
#[verifier::ext_equal]
pub ghost struct SelectionInputV {
    pub system_name: Seq<char>,
    pub hostname: Seq<char>,
    pub kernel_version: Seq<char>,
    pub os_version: Seq<char>,
    pub uptime: u64,
    pub timestamp: u64,
    pub total_memory: u64,
    pub used_memory: u64,
    pub total_swap: u64,
    pub used_swap: u64,
    pub num_cpus: usize,
    pub cpu_usage_bits: u32,
    pub load_average_bits: (u64, u64, u64),
    pub network: Seq<(Seq<char>, NetworkInfoV)>,
    pub volumes: Seq<(Seq<char>, DiskInfoV)>,
}

impl View for SelectionInput {
    type V = SelectionInputV;

    open spec fn view(&self) -> SelectionInputV {
        SelectionInputV {
            system_name: self.system_name@,
            hostname: self.hostname@,
            kernel_version: self.kernel_version@,
            os_version: self.os_version@,
            uptime: self.uptime,
            timestamp: self.timestamp,
            total_memory: self.total_memory,
            used_memory: self.used_memory,
            total_swap: self.total_swap,
            used_swap: self.used_swap,
            num_cpus: self.num_cpus,
            cpu_usage_bits: self.cpu_usage_bits,
            load_average_bits: self.load_average_bits,
            network: pairs_view(self.network@),
            volumes: pairs_view(self.volumes@),
        }
    }
}

// ---------------------------------------------------------------------------
// Derived fields
// ---------------------------------------------------------------------------

/// Used space of a volume: `total - available`, clamped at zero when a
/// reading claims more available than total space.
pub open spec fn spec_used_space(total: u64, available: u64) -> u64 {
    if available <= total {
        (total - available) as u64
    } else {
        0
    }
}

/// Derive a volume's used space without underflow.
pub fn used_space(total: u64, available: u64) -> (r: u64)
    ensures
        r == spec_used_space(total, available),
{
    if available <= total {
        total - available
    } else {
        0
    }
}

/// The snapshot label of a disk kind.
pub open spec fn spec_kind_label(kind: DiskKind) -> Seq<char> {
    match kind {
        DiskKind::Hdd => "HDD"@,
        DiskKind::Ssd => "SSD"@,
        DiskKind::Unknown => "Unknown"@,
    }
}

/// Render a disk kind as its snapshot label.
pub fn kind_label(kind: &DiskKind) -> (r: String)
    ensures
        r@ == spec_kind_label(*kind),
{
    match kind {
        DiskKind::Hdd => "HDD".to_owned(),
        DiskKind::Ssd => "SSD".to_owned(),
        DiskKind::Unknown => "Unknown".to_owned(),
    }
}

// ---------------------------------------------------------------------------
// MAC address rendering
// ---------------------------------------------------------------------------

/// The ASCII code of the lowercase hexadecimal digit of `n`.
pub open spec fn spec_hex_digit(n: u8) -> u8
    recommends
        n < 16,
{
    if n < 10 {
        (48 + n) as u8
    } else {
        (87 + n) as u8
    }
}

/// The two lowercase hexadecimal digits of a byte, as ASCII codes.
pub open spec fn byte_hex(b: u8) -> Seq<u8> {
    seq![spec_hex_digit(b / 16), spec_hex_digit(b % 16)]
}

/// The ASCII codes of a MAC address rendered as six colon-separated
/// lowercase hexadecimal byte values.
pub open spec fn mac_ascii(m: Seq<u8>) -> Seq<u8>
    recommends
        m.len() == 6,
{
    byte_hex(m[0]) + seq![58u8] + byte_hex(m[1]) + seq![58u8] + byte_hex(m[2]) + seq![58u8]
        + byte_hex(m[3]) + seq![58u8] + byte_hex(m[4]) + seq![58u8] + byte_hex(m[5])
}

/// The canonical text of a MAC address.
pub open spec fn mac_text(m: Seq<u8>) -> Seq<char> {
    mac_ascii(m).map_values(|b: u8| b as char)
}

fn hex_digit(n: u8) -> (r: u8)
    requires
        n < 16,
    ensures
        r == spec_hex_digit(n),
        r < 128,
{
    if n < 10 {
        48 + n
    } else {
        87 + n
    }
}

/// Relies on `String::from_utf8`: ASCII bytes are valid UTF-8 and decode to
/// the characters with the same code points.
#[verifier::external_body]
fn ascii_to_string(bytes: Vec<u8>) -> (r: String)
    requires
        forall|i: int| 0 <= i < bytes@.len() ==> bytes@[i] < 128,
    ensures
        r@.len() == bytes@.len(),
        forall|i: int| 0 <= i < bytes@.len() ==> r@[i] == bytes@[i] as char,
{
    String::from_utf8(bytes).unwrap_or_default()
}

fn push_byte_hex(out: &mut Vec<u8>, b: u8)
    ensures
        final(out)@ == old(out)@ + byte_hex(b),
        final(out)@.len() == old(out)@.len() + 2,
{
    out.push(hex_digit(b / 16));
    out.push(hex_digit(b % 16));
    proof {
        assert(out@ =~= old(out)@ + byte_hex(b));
    }
}

/// Render a MAC address in its canonical colon-separated lowercase
/// hexadecimal form.
pub fn mac_address_string(mac: &[u8; 6]) -> (r: String)
    ensures
        r@ == mac_text(mac@),
{
    let mut bytes: Vec<u8> = Vec::new();
    push_byte_hex(&mut bytes, mac[0]);
    bytes.push(58);
    push_byte_hex(&mut bytes, mac[1]);
    bytes.push(58);
    push_byte_hex(&mut bytes, mac[2]);
    bytes.push(58);
    push_byte_hex(&mut bytes, mac[3]);
    bytes.push(58);
    push_byte_hex(&mut bytes, mac[4]);
    bytes.push(58);
    push_byte_hex(&mut bytes, mac[5]);
    proof {
        assert(bytes@ =~= mac_ascii(mac@));
        assert forall|i: int| 0 <= i < bytes@.len() implies bytes@[i] < 128 by {
            assert(spec_hex_digit(0) == 48);
        }
    }
    let r = ascii_to_string(bytes);
    proof {
        assert(r@ =~= mac_text(mac@));
    }
    r
}

// ---------------------------------------------------------------------------
// Building the snapshot
// ---------------------------------------------------------------------------

/// The views of a list of raw network readings.
pub open spec fn net_views(s: Seq<NetEntry>) -> Seq<NetEntryV> {
    s.map_values(|e: NetEntry| e@)
}

/// The views of a list of raw volume readings.
pub open spec fn disk_views(s: Seq<DiskEntry>) -> Seq<DiskEntryV> {
    s.map_values(|e: DiskEntry| e@)
}

/// The `network` map pair made from one raw interface reading.
pub open spec fn spec_network_pair(e: NetEntryV) -> (Seq<char>, NetworkInfoV) {
    (
        e.name,
        NetworkInfoV {
            mac_address: mac_text(e.mac),
            bytes_in: e.bytes_in,
            bytes_out: e.bytes_out,
            errors_in: e.errors_in,
            errors_out: e.errors_out,
        },
    )
}

/// The `volumes` map pair made from one raw volume reading.
pub open spec fn spec_volume_pair(e: DiskEntryV) -> (Seq<char>, DiskInfoV) {
    (
        e.mount_point,
        DiskInfoV {
            device: e.device,
            kind: spec_kind_label(e.kind),
            total: e.total,
            available: e.available,
            used: spec_used_space(e.total, e.available),
        },
    )
}

/// The sorted `network` map of a list of raw interface readings; a repeated
/// name overwrites in list order, last write wins.
pub open spec fn spec_network_map(nets: Seq<NetEntryV>) -> Seq<(Seq<char>, NetworkInfoV)> {
    map_insert_all(
        Seq::<(Seq<char>, NetworkInfoV)>::empty(),
        nets.map_values(|e: NetEntryV| spec_network_pair(e)),
    )
}

/// The sorted `volumes` map of a list of raw volume readings.
pub open spec fn spec_volume_map(disks: Seq<DiskEntryV>) -> Seq<(Seq<char>, DiskInfoV)> {
    map_insert_all(
        Seq::<(Seq<char>, DiskInfoV)>::empty(),
        disks.map_values(|e: DiskEntryV| spec_volume_pair(e)),
    )
}

/// The snapshot built from one consistent set of readings at one instant.
pub open spec fn spec_build(
    facts: SystemFactsV,
    nets: Seq<NetEntryV>,
    disks: Seq<DiskEntryV>,
    timestamp: u64,
) -> SelectionInputV {
    SelectionInputV {
        system_name: facts.system_name,
        hostname: facts.hostname,
        kernel_version: facts.kernel_version,
        os_version: facts.os_version,
        uptime: facts.uptime,
        timestamp: timestamp,
        total_memory: facts.total_memory,
        used_memory: facts.used_memory,
        total_swap: facts.total_swap,
        used_swap: facts.used_swap,
        num_cpus: facts.num_cpus,
        cpu_usage_bits: facts.cpu_usage_bits,
        load_average_bits: facts.load_average_bits,
        network: spec_network_map(nets),
        volumes: spec_volume_map(disks),
    }
}

/// Every volume of a well-formed snapshot derives its used space from its
/// own total and available space, so `used <= total` always holds.
pub open spec fn volumes_wf(vols: Seq<(Seq<char>, DiskInfoV)>) -> bool {
    forall|i: int|
        0 <= i < vols.len() ==> (#[trigger] vols[i]).1.used == spec_used_space(
            vols[i].1.total,
            vols[i].1.available,
        ) && vols[i].1.used <= vols[i].1.total
}

/// A well-formed snapshot: both maps sorted by key, volume fields consistent.
pub open spec fn snapshot_wf(v: SelectionInputV) -> bool {
    &&& sorted_keys(v.network)
    &&& sorted_keys(v.volumes)
    &&& volumes_wf(v.volumes)
}

/// Law: a built snapshot is well-formed — its `network` and `volumes` keys
/// strictly increase in lexicographic (UTF-8 byte) order, and every volume's
/// used space is the clamped difference of its total and available space.
pub proof fn lemma_build_wf(
    facts: SystemFactsV,
    nets: Seq<NetEntryV>,
    disks: Seq<DiskEntryV>,
    timestamp: u64,
)
    ensures
        snapshot_wf(spec_build(facts, nets, disks, timestamp)),
{
    let net_entries = nets.map_values(|e: NetEntryV| spec_network_pair(e));
    let disk_entries = disks.map_values(|e: DiskEntryV| spec_volume_pair(e));
    lemma_map_insert_all_sorted(Seq::<(Seq<char>, NetworkInfoV)>::empty(), net_entries);
    lemma_map_insert_all_sorted(Seq::<(Seq<char>, DiskInfoV)>::empty(), disk_entries);
    let p = |pr: (Seq<char>, DiskInfoV)|
        pr.1.used == spec_used_space(pr.1.total, pr.1.available);
    lemma_map_insert_all_pairs(Seq::<(Seq<char>, DiskInfoV)>::empty(), disk_entries, p);
    let vols = spec_volume_map(disks);
    assert forall|i: int| 0 <= i < vols.len() implies (#[trigger] vols[i]).1.used
        == spec_used_space(vols[i].1.total, vols[i].1.available) by {
        assert(p(vols[i]));
    }
}

/// The UTF-8 encodings of the interface names of a list of readings.
pub open spec fn net_name_set(nets: Seq<NetEntryV>) -> Set<Seq<u8>> {
    Set::new(
        |b: Seq<u8>|
            exists|i: int|
                0 <= i < nets.len() && b == vstd::utf8::encode_utf8((#[trigger] nets[i]).name),
    )
}

/// The UTF-8 encodings of the mount points of a list of volume readings.
pub open spec fn disk_mount_set(disks: Seq<DiskEntryV>) -> Set<Seq<u8>> {
    Set::new(
        |b: Seq<u8>|
            exists|i: int|
                0 <= i < disks.len() && b == vstd::utf8::encode_utf8(
                    (#[trigger] disks[i]).mount_point,
                ),
    )
}

/// Law: the built maps hold exactly the input keys — every reported
/// interface name is a key of `network`, every mount point a key of
/// `volumes`, and no others.
pub proof fn lemma_build_key_sets(
    facts: SystemFactsV,
    nets: Seq<NetEntryV>,
    disks: Seq<DiskEntryV>,
    timestamp: u64,
)
    ensures
        key_set(spec_build(facts, nets, disks, timestamp).network) == net_name_set(nets),
        key_set(spec_build(facts, nets, disks, timestamp).volumes) == disk_mount_set(disks),
{
    let ne = nets.map_values(|e: NetEntryV| spec_network_pair(e));
    lemma_map_insert_all_key_set(Seq::<(Seq<char>, NetworkInfoV)>::empty(), ne);
    assert(key_set(Seq::<(Seq<char>, NetworkInfoV)>::empty()) =~= Set::<Seq<u8>>::empty());
    assert forall|b: Seq<u8>| key_set(ne).contains(b) implies net_name_set(nets).contains(b) by {
        let i = choose|i: int| 0 <= i < ne.len() && b == vstd::utf8::encode_utf8(ne[i].0);
        assert(b == vstd::utf8::encode_utf8(nets[i].name));
    }
    assert forall|b: Seq<u8>| net_name_set(nets).contains(b) implies key_set(ne).contains(b) by {
        let i = choose|i: int|
            0 <= i < nets.len() && b == vstd::utf8::encode_utf8((#[trigger] nets[i]).name);
        assert(ne[i].0 == nets[i].name);
    }
    assert(key_set(ne) =~= net_name_set(nets));
    assert(Set::<Seq<u8>>::empty().union(key_set(ne)) =~= key_set(ne));
    let de = disks.map_values(|e: DiskEntryV| spec_volume_pair(e));
    lemma_map_insert_all_key_set(Seq::<(Seq<char>, DiskInfoV)>::empty(), de);
    assert(key_set(Seq::<(Seq<char>, DiskInfoV)>::empty()) =~= Set::<Seq<u8>>::empty());
    assert forall|b: Seq<u8>| key_set(de).contains(b) implies disk_mount_set(disks).contains(
        b,
    ) by {
        let i = choose|i: int| 0 <= i < de.len() && b == vstd::utf8::encode_utf8(de[i].0);
        assert(b == vstd::utf8::encode_utf8(disks[i].mount_point));
    }
    assert forall|b: Seq<u8>| disk_mount_set(disks).contains(b) implies key_set(de).contains(
        b,
    ) by {
        let i = choose|i: int|
            0 <= i < disks.len() && b == vstd::utf8::encode_utf8(
                (#[trigger] disks[i]).mount_point,
            );
        assert(de[i].0 == disks[i].mount_point);
    }
    assert(key_set(de) =~= disk_mount_set(disks));
    assert(Set::<Seq<u8>>::empty().union(key_set(de)) =~= key_set(de));
}

/// Law: building is deterministic — two snapshots built from equal readings
/// agree in every field except `timestamp`, which is the build instant each
/// was handed.
pub proof fn lemma_build_deterministic(
    facts: SystemFactsV,
    nets: Seq<NetEntryV>,
    disks: Seq<DiskEntryV>,
    t1: u64,
    t2: u64,
)
    ensures
        spec_build(facts, nets, disks, t1).timestamp == t1,
        spec_build(facts, nets, disks, t2).timestamp == t2,
        spec_build(facts, nets, disks, t2) == (SelectionInputV {
            timestamp: t2,
            ..spec_build(facts, nets, disks, t1)
        }),
{
}

/// Build the snapshot of one consistent set of readings, taken at the
/// instant `timestamp` (seconds since the Unix epoch).
pub fn build_selection_input(
    facts: SystemFacts,
    nets: Vec<NetEntry>,
    disks: Vec<DiskEntry>,
    timestamp: u64,
) -> (r: SelectionInput)
    ensures
        r@ == spec_build(facts@, net_views(nets@), disk_views(disks@), timestamp),
        snapshot_wf(r@),
{
    proof {
        lemma_build_wf(facts@, net_views(nets@), disk_views(disks@), timestamp);
    }
    let ghost net_entries = net_views(nets@).map_values(|e: NetEntryV| spec_network_pair(e));
    let mut network: Vec<(String, NetworkInfo)> = Vec::new();
    let mut i: usize = 0;
    proof {
        assert(net_entries.take(0) =~= Seq::<(Seq<char>, NetworkInfoV)>::empty());
    }
    while i < nets.len()
        invariant
            i <= nets.len(),
            net_entries == net_views(nets@).map_values(|e: NetEntryV| spec_network_pair(e)),
            sorted_keys(pairs_view(network@)),
            pairs_view(network@) == map_insert_all(
                Seq::<(Seq<char>, NetworkInfoV)>::empty(),
                net_entries.take(i as int),
            ),
        decreases nets.len() - i,
    {
        let e = &nets[i];
        let info = NetworkInfo {
            mac_address: mac_address_string(&e.mac),
            bytes_in: e.bytes_in,
            bytes_out: e.bytes_out,
            errors_in: e.errors_in,
            errors_out: e.errors_out,
        };
        let name = e.name.clone();
        proof {
            assert((name@, info@) == net_entries[i as int]);
        }
        assoc_insert(&mut network, name, info);
        proof {
            assert(net_entries.take(i + 1).drop_last() =~= net_entries.take(i as int));
            assert(net_entries.take(i + 1).last() == net_entries[i as int]);
        }
        i = i + 1;
    }
    proof {
        assert(net_entries.take(nets@.len() as int) =~= net_entries);
    }
    let ghost disk_entries = disk_views(disks@).map_values(|e: DiskEntryV| spec_volume_pair(e));
    let mut volumes: Vec<(String, DiskInfo)> = Vec::new();
    let mut j: usize = 0;
    proof {
        assert(disk_entries.take(0) =~= Seq::<(Seq<char>, DiskInfoV)>::empty());
    }
    while j < disks.len()
        invariant
            j <= disks.len(),
            disk_entries == disk_views(disks@).map_values(|e: DiskEntryV| spec_volume_pair(e)),
            sorted_keys(pairs_view(volumes@)),
            pairs_view(volumes@) == map_insert_all(
                Seq::<(Seq<char>, DiskInfoV)>::empty(),
                disk_entries.take(j as int),
            ),
        decreases disks.len() - j,
    {
        let d = &disks[j];
        let info = DiskInfo {
            device: d.device.clone(),
            kind: kind_label(&d.kind),
            total: d.total,
            available: d.available,
            used: used_space(d.total, d.available),
        };
        let mount = d.mount_point.clone();
        proof {
            assert((mount@, info@) =~= disk_entries[j as int]);
        }
        assoc_insert(&mut volumes, mount, info);
        proof {
            assert(disk_entries.take(j + 1).drop_last() =~= disk_entries.take(j as int));
            assert(disk_entries.take(j + 1).last() == disk_entries[j as int]);
        }
        j = j + 1;
    }
    proof {
        assert(disk_entries.take(disks@.len() as int) =~= disk_entries);
    }
    let r = SelectionInput {
        system_name: facts.system_name,
        hostname: facts.hostname,
        kernel_version: facts.kernel_version,
        os_version: facts.os_version,
        uptime: facts.uptime,
        timestamp,
        total_memory: facts.total_memory,
        used_memory: facts.used_memory,
        total_swap: facts.total_swap,
        used_swap: facts.used_swap,
        num_cpus: facts.num_cpus,
        cpu_usage_bits: facts.cpu_usage_bits,
        load_average_bits: facts.load_average_bits,
        network,
        volumes,
    };
    proof {
        assert(r@ =~= spec_build(facts@, net_views(nets@), disk_views(disks@), timestamp));
    }
    r
}

/// A snapshot is an honest build: some consistent set of readings, taken
/// at the snapshot's own timestamp, yields exactly its content.
pub open spec fn is_built_snapshot(v: SelectionInputV) -> bool {
    exists|facts: SystemFactsV, nets: Seq<NetEntryV>, disks: Seq<DiskEntryV>|
        v == spec_build(facts, nets, disks, v.timestamp)
}

/// The zero-valued snapshot sent to a caller that is refused access.
pub open spec fn spec_default_selection_input() -> SelectionInputV {
    SelectionInputV {
        system_name: Seq::<char>::empty(),
        hostname: Seq::<char>::empty(),
        kernel_version: Seq::<char>::empty(),
        os_version: Seq::<char>::empty(),
        uptime: 0,
        timestamp: 0,
        total_memory: 0,
        used_memory: 0,
        total_swap: 0,
        used_swap: 0,
        num_cpus: 0,
        cpu_usage_bits: 0,
        load_average_bits: (0, 0, 0),
        network: Seq::<(Seq<char>, NetworkInfoV)>::empty(),
        volumes: Seq::<(Seq<char>, DiskInfoV)>::empty(),
    }
}

impl Default for SelectionInput {
    /// The zero-valued snapshot: empty strings, zero gauges, empty maps.
    fn default() -> (r: Self)
        ensures
            r@ == spec_default_selection_input(),
    {
        let r = SelectionInput {
            system_name: String::new(),
            hostname: String::new(),
            kernel_version: String::new(),
            os_version: String::new(),
            uptime: 0,
            timestamp: 0,
            total_memory: 0,
            used_memory: 0,
            total_swap: 0,
            used_swap: 0,
            num_cpus: 0,
            cpu_usage_bits: 0,
            load_average_bits: (0, 0, 0),
            network: Vec::new(),
            volumes: Vec::new(),
        };
        proof {
            assert(pairs_view(r.network@) =~= Seq::<(Seq<char>, NetworkInfoV)>::empty());
            assert(pairs_view(r.volumes@) =~= Seq::<(Seq<char>, DiskInfoV)>::empty());
            assert(r@ =~= spec_default_selection_input());
        }
        r
    }
}

} // verus!
