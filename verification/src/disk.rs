//! Disk inventory: the data model for disks and partitions, disk-type
//! resolution, and the builder that turns platform-reported device metadata
//! into `Disk` records.
//!
//! The platform probing itself (walking sysfs, reading attribute files,
//! querying filesystem statistics) happens outside this crate; it hands the
//! builder plain values: a `DeviceDescriptor` per block device and a
//! `MountEntry` per mounted filesystem.

use vstd::prelude::*;

verus! {

/// Closed set of device classes the tool distinguishes.
#[derive(Clone, Copy, Debug, PartialEq, Eq, Structural)]
pub enum DiskType {
    HDD,
    SSD,
    Partition,
    Removable,
    RAID,
    Unknown,
}

/// Resolution policy for a device's class from its platform attributes.
///
/// `removable` and `rotational` are `None` when the corresponding attribute
/// file could not be read.
pub open spec fn spec_resolve_disk_type(
    removable: Option<bool>,
    rotational: Option<bool>,
) -> DiskType {
    match removable {
        None => DiskType::Unknown,
        Some(true) => DiskType::Removable,
        Some(false) => match rotational {
            Some(true) => DiskType::HDD,
            Some(false) => DiskType::SSD,
            None => DiskType::Unknown,
        },
    }
}

/// Deduces a device's type from its `removable` and `rotational` attributes:
/// removable devices are `Removable`; otherwise a readable rotational flag
/// separates `HDD` from `SSD`, and an unreadable one yields `Unknown`.
pub fn resolve_disk_type(removable: Option<bool>, rotational: Option<bool>) -> (t: DiskType)
    ensures
        t == spec_resolve_disk_type(removable, rotational),
{
    match removable {
        None => DiskType::Unknown,
        Some(true) => DiskType::Removable,
        Some(false) => match rotational {
            Some(true) => DiskType::HDD,
            Some(false) => DiskType::SSD,
            None => DiskType::Unknown,
        },
    }
}

/// A mounted filesystem belonging to a disk.
pub struct Partition {
    pub name: String,
    pub mount_point: String,
    pub file_system: String,
    pub total: u64,
    pub free: u64,
    pub read_only: bool,
}

/// Mathematical image of a `Partition`: strings as character sequences.
pub struct PartitionView {
    pub name: Seq<char>,
    pub mount_point: Seq<char>,
    pub file_system: Seq<char>,
    pub total: u64,
    pub free: u64,
    pub read_only: bool,
}

impl View for Partition {
    type V = PartitionView;

    open spec fn view(&self) -> PartitionView {
        PartitionView {
            name: self.name@,
            mount_point: self.mount_point@,
            file_system: self.file_system@,
            total: self.total,
            free: self.free,
            read_only: self.read_only,
        }
    }
}

impl DeepView for Partition {
    type V = PartitionView;

    open spec fn deep_view(&self) -> PartitionView {
        self.view()
    }
}

/// A partition never reports more free space than its size.
pub open spec fn partition_wf(p: PartitionView) -> bool {
    p.free <= p.total
}

/// One physical or logical storage device with its metadata.
pub struct Disk {
    pub name: String,
    pub model: String,
    pub serial_number: String,
    pub disk_type: DiskType,
    pub partitions: Vec<Partition>,
    pub version: String,
    pub total_space: u64,
    pub used_space: u64,
    pub free_space: u64,
}

/// Mathematical image of a `Disk`.
pub struct DiskView {
    pub name: Seq<char>,
    pub model: Seq<char>,
    pub serial_number: Seq<char>,
    pub disk_type: DiskType,
    pub partitions: Seq<PartitionView>,
    pub version: Seq<char>,
    pub total_space: u64,
    pub used_space: u64,
    pub free_space: u64,
}

impl View for Disk {
    type V = DiskView;

    open spec fn view(&self) -> DiskView {
        DiskView {
            name: self.name@,
            model: self.model@,
            serial_number: self.serial_number@,
            disk_type: self.disk_type,
            partitions: self.partitions.deep_view(),
            version: self.version@,
            total_space: self.total_space,
            used_space: self.used_space,
            free_space: self.free_space,
        }
    }
}

impl DeepView for Disk {
    type V = DiskView;

    open spec fn deep_view(&self) -> DiskView {
        self.view()
    }
}

/// One line of the platform's mount table, together with the filesystem
/// statistics already queried for its mount point.
pub struct MountEntry {
    pub device_name: String,
    pub mount_point: String,
    pub file_system: String,
    pub total: u64,
    pub free: u64,
}

/// Raw metadata for one block device, as read by the platform layer.
///
/// An attribute that could not be read is `None`; the inventory builder
/// decides what an unreadable attribute means for the device.
pub struct DeviceDescriptor {
    /// The OS handle for the whole device, e.g. a `/dev` path.
    pub name: String,
    /// Components of the device's resolved sysfs ancestry, root first.
    pub device_path: Vec<String>,
    pub removable: Option<bool>,
    pub rotational: Option<bool>,
    pub model: Option<String>,
    pub serial_number: Option<String>,
    pub version: Option<String>,
}

/// `prefix` is an initial segment of `s`.
pub open spec fn spec_starts_with(s: Seq<char>, prefix: Seq<char>) -> bool {
    prefix.len() <= s.len() && s.take(prefix.len() as int) == prefix
}

/// Character-wise prefix test on string slices.
pub fn str_starts_with(s: &str, prefix: &str) -> (r: bool)
    ensures
        r == spec_starts_with(s@, prefix@),
{
    let n = prefix.unicode_len();
    if n > s.unicode_len() {
        return false;
    }
    let mut i: usize = 0;
    while i < n
        invariant
            i <= n,
            n == prefix@.len(),
            n <= s@.len(),
            forall|j: int| 0 <= j < i ==> s@[j] == prefix@[j],
        decreases n - i,
    {
        if s.get_char(i) != prefix.get_char(i) {
            proof {
                assert(s@.take(n as int)[i as int] == s@[i as int]);
            }
            return false;
        }
        i += 1;
    }
    proof {
        assert(s@.take(n as int) =~= prefix@);
    }
    true
}

/// The partition a mount entry stands for.  Free space is clamped to the
/// partition's size, so every partition the builder produces is well formed.
pub open spec fn spec_partition_of(e: MountEntry) -> PartitionView {
    PartitionView {
        name: e.device_name@,
        mount_point: e.mount_point@,
        file_system: e.file_system@,
        total: e.total,
        free: if e.free <= e.total {
            e.free
        } else {
            e.total
        },
        read_only: false,
    }
}

/// The partitions of the device called `name`: the mount entries whose device
/// name begins with `name`, in mount-table order.
pub open spec fn spec_read_partitions(name: Seq<char>, mounts: Seq<MountEntry>) -> Seq<
    PartitionView,
>
    decreases mounts.len(),
{
    if mounts.len() == 0 {
        Seq::empty()
    } else {
        let init = spec_read_partitions(name, mounts.drop_last());
        if spec_starts_with(mounts.last().device_name@, name) {
            init.push(spec_partition_of(mounts.last()))
        } else {
            init
        }
    }
}

/// Every partition that `spec_read_partitions` produces is well formed.
pub proof fn lemma_read_partitions_wf(name: Seq<char>, mounts: Seq<MountEntry>)
    ensures
        forall|i: int|
            0 <= i < spec_read_partitions(name, mounts).len() ==> partition_wf(
                #[trigger] spec_read_partitions(name, mounts)[i],
            ),
    decreases mounts.len(),
{
    if mounts.len() > 0 {
        lemma_read_partitions_wf(name, mounts.drop_last());
        let init = spec_read_partitions(name, mounts.drop_last());
        let whole = spec_read_partitions(name, mounts);
        if spec_starts_with(mounts.last().device_name@, name) {
            assert(whole == init.push(spec_partition_of(mounts.last())));
            assert(partition_wf(spec_partition_of(mounts.last())));
            assert(forall|i: int| 0 <= i < init.len() ==> whole[i] == init[i]);
        }
    }
}

/// Collects the partitions of the device called `name` by matching the
/// device-name prefix of each mount entry.
pub fn read_partitions(name: &str, mounts: &Vec<MountEntry>) -> (parts: Vec<Partition>)
    ensures
        parts.deep_view() == spec_read_partitions(name@, mounts@),
{
    let mut parts: Vec<Partition> = Vec::new();
    let mut i: usize = 0;
    while i < mounts.len()
        invariant
            i <= mounts@.len(),
            parts.deep_view() == spec_read_partitions(name@, mounts@.take(i as int)),
        decreases mounts@.len() - i,
    {
        let e = &mounts[i];
        if str_starts_with(e.device_name.as_str(), name) {
            let p = Partition {
                name: e.device_name.clone(),
                mount_point: e.mount_point.clone(),
                file_system: e.file_system.clone(),
                total: e.total,
                free: if e.free <= e.total {
                    e.free
                } else {
                    e.total
                },
                read_only: false,
            };
            proof {
                assert(p@ == spec_partition_of(mounts@[i as int]));
            }
            parts.push(p);
        }
        proof {
            assert(mounts@.take(i + 1).drop_last() =~= mounts@.take(i as int));
            assert(mounts@.take(i + 1).last() == mounts@[i as int]);
            assert(parts.deep_view() =~= spec_read_partitions(name@, mounts@.take(i + 1)));
        }
        i += 1;
    }
    proof {
        assert(mounts@.take(mounts@.len() as int) =~= mounts@);
    }
    parts
}

/// Sum of the partitions' total bytes.
pub open spec fn sum_total(parts: Seq<PartitionView>) -> int
    decreases parts.len(),
{
    if parts.len() == 0 {
        0
    } else {
        sum_total(parts.drop_last()) + parts.last().total
    }
}

/// Sum of the partitions' free bytes.
pub open spec fn sum_free(parts: Seq<PartitionView>) -> int
    decreases parts.len(),
{
    if parts.len() == 0 {
        0
    } else {
        sum_free(parts.drop_last()) + parts.last().free
    }
}

/// All partitions in the sequence are well formed.
pub open spec fn parts_wf(parts: Seq<PartitionView>) -> bool {
    forall|i: int| 0 <= i < parts.len() ==> partition_wf(#[trigger] parts[i])
}

/// Well-formed partitions never report more free than total space in sum.
pub proof fn lemma_sum_free_le_total(parts: Seq<PartitionView>)
    requires
        parts_wf(parts),
    ensures
        0 <= sum_free(parts) <= sum_total(parts),
    decreases parts.len(),
{
    if parts.len() > 0 {
        assert(parts_wf(parts.drop_last())) by {
            assert(forall|i: int|
                0 <= i < parts.drop_last().len() ==> parts.drop_last()[i] == parts[i]);
        }
        lemma_sum_free_le_total(parts.drop_last());
    }
}

/// The aggregated capacity of a disk, as a mathematical triple
/// `(total, free, used)`: zeros without partitions, the single partition's
/// numbers with exactly one, and the per-partition sums otherwise.
pub open spec fn spec_disk_usage(parts: Seq<PartitionView>) -> (int, int, int) {
    if parts.len() == 0 {
        (0, 0, 0)
    } else if parts.len() == 1 {
        (parts[0].total as int, parts[0].free as int, parts[0].total - parts[0].free)
    } else {
        (sum_total(parts), sum_free(parts), sum_total(parts) - sum_free(parts))
    }
}

/// Adds up the allocated space of a device's partitions.
///
/// Returns `(total, free, used)`, or `None` when the summed totals do not fit
/// in a `u64`.  Whenever a value is returned, `used + free == total`.
pub fn calculate_disk_usage(partitions: &Vec<Partition>) -> (r: Option<(u64, u64, u64)>)
    requires
        parts_wf(partitions.deep_view()),
    ensures
        r is Some <==> sum_total(partitions.deep_view()) <= u64::MAX,
        r matches Some(v) ==> {
            let s = spec_disk_usage(partitions.deep_view());
            v.0 == s.0 && v.1 == s.1 && v.2 == s.2
        },
        r matches Some(v) ==> v.2 + v.1 == v.0,
{
    proof {
        lemma_sum_free_le_total(partitions.deep_view());
    }
    if partitions.len() == 0 {
        return Some((0, 0, 0));
    }
    if partitions.len() == 1 {
        let p = &partitions[0];
        proof {
            let pv = partitions.deep_view();
            assert(partition_wf(pv[0]));
            assert(pv.drop_last() =~= Seq::<PartitionView>::empty());
            assert(sum_total(pv) == sum_total(pv.drop_last()) + pv.last().total);
            assert(pv.last() == pv[0]);
        }
        return Some((p.total, p.free, p.total - p.free));
    }
    let ghost pv = partitions.deep_view();
    let mut total: u128 = 0;
    let mut free: u128 = 0;
    let mut i: usize = 0;
    while i < partitions.len()
        invariant
            i <= partitions@.len(),
            pv == partitions.deep_view(),
            parts_wf(pv),
            pv.len() == partitions@.len(),
            total == sum_total(pv.take(i as int)),
            free == sum_free(pv.take(i as int)),
            0 <= free <= total,
            total <= i * 0xffff_ffff_ffff_ffffu128,
        decreases partitions@.len() - i,
    {
        proof {
            lemma_sum_free_le_total(pv.take(i as int));
            assert(pv.take(i + 1).drop_last() =~= pv.take(i as int));
            assert(pv.take(i + 1).last() == pv[i as int]);
            assert(partition_wf(pv[i as int]));
        }
        let p = &partitions[i];
        total = total + p.total as u128;
        free = free + p.free as u128;
        i += 1;
    }
    proof {
        assert(pv.take(pv.len() as int) =~= pv);
        lemma_sum_free_le_total(pv);
    }
    if total <= u64::MAX as u128 {
        Some((total as u64, free as u64, (total - free) as u64))
    } else {
        None
    }
}

/// Some component of the device's sysfs ancestry begins with `"usb"`.
pub open spec fn spec_is_usb_device(path: Seq<String>) -> bool {
    exists|i: int| 0 <= i < path.len() && spec_starts_with(path[i]@, "usb"@)
}

/// Classifies a device as external by its sysfs ancestry: the device hangs
/// off a USB bus segment exactly when one path component begins with `"usb"`.
pub fn is_usb_device(path: &Vec<String>) -> (r: bool)
    ensures
        r == spec_is_usb_device(path@),
{
    let mut i: usize = 0;
    while i < path.len()
        invariant
            i <= path@.len(),
            forall|j: int| 0 <= j < i ==> !spec_starts_with(path@[j]@, "usb"@),
        decreases path@.len() - i,
    {
        if str_starts_with(path[i].as_str(), "usb") {
            return true;
        }
        i += 1;
    }
    false
}

/// Finds the innermost ancestor directory that exposes all identifying
/// attribute files.
///
/// `has_attrs[i]` says whether the ancestor ending at path component `i`
/// carries the `manufacturer`, `product` and `serial` attributes; the walk
/// starts at the full path and moves towards the root, as an ancestor
/// iteration does.
pub fn disk_attributes(path: &Vec<String>, has_attrs: &Vec<bool>) -> (r: Option<usize>)
    requires
        has_attrs@.len() == path@.len(),
    ensures
        r matches Some(i) ==> i < path@.len() && has_attrs@[i as int] && (forall|j: int|
            i < j < path@.len() ==> !has_attrs@[j]),
        r is None ==> forall|j: int| 0 <= j < path@.len() ==> !has_attrs@[j],
{
    let mut i: usize = path.len();
    while i > 0
        invariant
            i <= path@.len(),
            has_attrs@.len() == path@.len(),
            forall|j: int| i <= j < path@.len() ==> !has_attrs@[j],
        decreases i,
    {
        i -= 1;
        if has_attrs[i] {
            return Some(i);
        }
    }
    None
}

/// A descriptor yields a `Disk` exactly when the device is on a USB bus, all
/// three identifying attributes were read, and its summed partition totals
/// fit in a `u64`.
pub open spec fn spec_device_eligible(d: DeviceDescriptor, mounts: Seq<MountEntry>) -> bool {
    &&& spec_is_usb_device(d.device_path@)
    &&& d.model is Some
    &&& d.serial_number is Some
    &&& d.version is Some
    &&& sum_total(spec_read_partitions(d.name@, mounts)) <= u64::MAX
}

/// The `Disk` record an eligible descriptor yields.
pub open spec fn spec_disk_of(d: DeviceDescriptor, mounts: Seq<MountEntry>) -> DiskView {
    let parts = spec_read_partitions(d.name@, mounts);
    let usage = spec_disk_usage(parts);
    DiskView {
        name: d.name@,
        model: d.model->0@,
        serial_number: d.serial_number->0@,
        disk_type: spec_resolve_disk_type(d.removable, d.rotational),
        partitions: parts,
        version: d.version->0@,
        total_space: usage.0 as u64,
        used_space: usage.2 as u64,
        free_space: usage.1 as u64,
    }
}

/// The inventory built from a sequence of device descriptors: the eligible
/// devices' `Disk` records, in enumeration order.
pub open spec fn spec_find_external_disks(
    devices: Seq<DeviceDescriptor>,
    mounts: Seq<MountEntry>,
) -> Seq<DiskView>
    decreases devices.len(),
{
    if devices.len() == 0 {
        Seq::empty()
    } else {
        let init = spec_find_external_disks(devices.drop_last(), mounts);
        if spec_device_eligible(devices.last(), mounts) {
            init.push(spec_disk_of(devices.last(), mounts))
        } else {
            init
        }
    }
}

/// Every disk in the inventory accounts for its space: with partitions
/// present, `used_space + free_space == total_space`.
pub proof fn lemma_inventory_capacity(devices: Seq<DeviceDescriptor>, mounts: Seq<MountEntry>)
    ensures
        forall|k: int|
            0 <= k < spec_find_external_disks(devices, mounts).len() ==> {
                let d = #[trigger] spec_find_external_disks(devices, mounts)[k];
                d.partitions.len() > 0 ==> d.used_space + d.free_space == d.total_space
            },
    decreases devices.len(),
{
    if devices.len() > 0 {
        lemma_inventory_capacity(devices.drop_last(), mounts);
        let init = spec_find_external_disks(devices.drop_last(), mounts);
        let whole = spec_find_external_disks(devices, mounts);
        let last = devices.last();
        if spec_device_eligible(last, mounts) {
            assert(forall|k: int| 0 <= k < init.len() ==> whole[k] == init[k]);
            let parts = spec_read_partitions(last.name@, mounts);
            let d = spec_disk_of(last, mounts);
            if parts.len() > 0 {
                lemma_read_partitions_wf(last.name@, mounts);
                assert(parts_wf(parts));
                lemma_sum_free_le_total(parts);
                if parts.len() == 1 {
                    assert(parts.drop_last() =~= Seq::<PartitionView>::empty());
                    assert(sum_total(parts) == sum_total(parts.drop_last()) + parts.last().total);
                    assert(sum_total(Seq::<PartitionView>::empty()) == 0);
                    assert(parts.last() == parts[0]);
                    assert(partition_wf(parts[0]));
                }
                assert(d.used_space + d.free_space == d.total_space);
            }
        }
    }
}

/// Builds the inventory of external disks from the platform's raw device
/// descriptors and mount table.
///
/// A device is emitted only when its sysfs ancestry passes through a USB bus
/// segment and its model, serial number and version attributes were all
/// readable; a device whose summed partition sizes overflow a `u64` is
/// excluded rather than reported wrongly.  One bad device never suppresses
/// the rest of the scan.
pub fn find_external_disks(devices: &Vec<DeviceDescriptor>, mounts: &Vec<MountEntry>) -> (disks:
    Vec<Disk>)
    ensures
        disks.deep_view() == spec_find_external_disks(devices@, mounts@),
        forall|k: int|
            0 <= k < disks@.len() ==> {
                let d = #[trigger] disks.deep_view()[k];
                d.partitions.len() > 0 ==> d.used_space + d.free_space == d.total_space
            },
{
    let mut disks: Vec<Disk> = Vec::new();
    let mut i: usize = 0;
    while i < devices.len()
        invariant
            i <= devices@.len(),
            disks.deep_view() == spec_find_external_disks(devices@.take(i as int), mounts@),
        decreases devices@.len() - i,
    {
        let d = &devices[i];
        let usb = is_usb_device(&d.device_path);
        if usb {
            if let (Some(model), Some(serial), Some(version)) = (
                &d.model,
                &d.serial_number,
                &d.version,
            ) {
                let parts = read_partitions(d.name.as_str(), mounts);
                proof {
                    lemma_read_partitions_wf(d.name@, mounts@);
                }
                if let Some((total, free, used)) = calculate_disk_usage(&parts) {
                    let disk_type = resolve_disk_type(d.removable, d.rotational);
                    let disk = Disk {
                        name: d.name.clone(),
                        model: model.clone(),
                        serial_number: serial.clone(),
                        disk_type,
                        partitions: parts,
                        version: version.clone(),
                        total_space: total,
                        used_space: used,
                        free_space: free,
                    };
                    proof {
                        assert(spec_device_eligible(devices@[i as int], mounts@));
                        assert(disk@ =~= spec_disk_of(devices@[i as int], mounts@));
                    }
                    disks.push(disk);
                } else {
                    proof {
                        assert(!spec_device_eligible(devices@[i as int], mounts@));
                    }
                }
            }
        }
        proof {
            assert(devices@.take(i + 1).drop_last() =~= devices@.take(i as int));
            assert(devices@.take(i + 1).last() == devices@[i as int]);
            assert(disks.deep_view() =~= spec_find_external_disks(
                devices@.take(i + 1),
                mounts@,
            ));
        }
        i += 1;
    }
    proof {
        assert(devices@.take(devices@.len() as int) =~= devices@);
        lemma_inventory_capacity(devices@, mounts@);
    }
    disks
}

} // verus!
