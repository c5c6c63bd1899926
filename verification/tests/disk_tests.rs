//! Inventory building: disk-type resolution, partition matching, capacity
//! aggregation and device exclusion rules.

use minuteman::disk::{
    calculate_disk_usage, disk_attributes, find_external_disks, is_usb_device, read_partitions,
    resolve_disk_type, DeviceDescriptor, DiskType, MountEntry, Partition,
};

fn mount(device: &str, point: &str, fs: &str, total: u64, free: u64) -> MountEntry {
    MountEntry {
        device_name: device.to_owned(),
        mount_point: point.to_owned(),
        file_system: fs.to_owned(),
        total,
        free,
    }
}

fn usb_descriptor(name: &str) -> DeviceDescriptor {
    DeviceDescriptor {
        name: name.to_owned(),
        device_path: vec![
            "sys".to_owned(),
            "devices".to_owned(),
            "pci0000:00".to_owned(),
            "usb2".to_owned(),
            "2-1".to_owned(),
        ],
        removable: Some(true),
        rotational: None,
        model: Some("DataTraveler".to_owned()),
        serial_number: Some("0019E06B9380".to_owned()),
        version: Some("1.00".to_owned()),
    }
}

#[test]
fn disk_type_resolution_covers_every_combination() {
    let cases = [
        (Some(true), Some(true), DiskType::Removable),
        (Some(true), Some(false), DiskType::Removable),
        (Some(true), None, DiskType::Removable),
        (Some(false), Some(true), DiskType::HDD),
        (Some(false), Some(false), DiskType::SSD),
        (Some(false), None, DiskType::Unknown),
        (None, Some(true), DiskType::Unknown),
        (None, Some(false), DiskType::Unknown),
        (None, None, DiskType::Unknown),
    ];
    for (removable, rotational, expect) in cases {
        assert_eq!(resolve_disk_type(removable, rotational), expect);
    }
}

#[test]
fn usage_of_no_partitions_is_zero() {
    assert_eq!(calculate_disk_usage(&vec![]), Some((0, 0, 0)));
}

#[test]
fn usage_of_one_partition_is_taken_directly() {
    let parts = vec![Partition {
        name: "/dev/sdb1".to_owned(),
        mount_point: "/mnt/stick".to_owned(),
        file_system: "ext4".to_owned(),
        total: 1000,
        free: 300,
        read_only: false,
    }];
    assert_eq!(calculate_disk_usage(&parts), Some((1000, 300, 700)));
}

#[test]
fn usage_of_many_partitions_is_summed() {
    let mk = |total: u64, free: u64| Partition {
        name: "/dev/sdb1".to_owned(),
        mount_point: "/mnt".to_owned(),
        file_system: "ext4".to_owned(),
        total,
        free,
        read_only: false,
    };
    let parts = vec![mk(1000, 300), mk(500, 500), mk(10, 0)];
    let (total, free, used) = calculate_disk_usage(&parts).unwrap();
    assert_eq!((total, free, used), (1510, 800, 710));
    assert_eq!(used + free, total);
}

#[test]
fn usage_overflow_is_reported_not_wrapped() {
    let mk = |total: u64| Partition {
        name: "p".to_owned(),
        mount_point: "/m".to_owned(),
        file_system: "ext4".to_owned(),
        total,
        free: 0,
        read_only: false,
    };
    let parts = vec![mk(u64::MAX), mk(u64::MAX)];
    assert_eq!(calculate_disk_usage(&parts), None);
}

#[test]
fn partitions_match_by_device_name_prefix() {
    let mounts = vec![
        mount("/dev/sdb1", "/mnt/a", "ext4", 100, 40),
        mount("/dev/sdc1", "/mnt/b", "vfat", 200, 50),
        mount("/dev/sdb2", "/mnt/c", "xfs", 300, 60),
        mount("proc", "/proc", "proc", 0, 0),
    ];
    let parts = read_partitions("/dev/sdb", &mounts);
    assert_eq!(parts.len(), 2);
    assert_eq!(parts[0].name, "/dev/sdb1");
    assert_eq!(parts[0].mount_point, "/mnt/a");
    assert_eq!(parts[0].file_system, "ext4");
    assert_eq!((parts[0].total, parts[0].free), (100, 40));
    assert_eq!(parts[1].name, "/dev/sdb2");
    assert!(!parts[0].read_only);
}

#[test]
fn partition_free_space_is_clamped_to_total() {
    let mounts = vec![mount("/dev/sdb1", "/mnt/a", "ext4", 100, 150)];
    let parts = read_partitions("/dev/sdb", &mounts);
    assert_eq!((parts[0].total, parts[0].free), (100, 100));
}

#[test]
fn usb_ancestry_is_detected_by_component_prefix() {
    let usb = vec!["sys".to_owned(), "devices".to_owned(), "usb1".to_owned(), "1-4".to_owned()];
    assert!(is_usb_device(&usb));
    let sata = vec!["sys".to_owned(), "devices".to_owned(), "ata1".to_owned()];
    assert!(!is_usb_device(&sata));
    assert!(!is_usb_device(&vec![]));
}

#[test]
fn attribute_walk_finds_the_innermost_ancestor() {
    let path = vec!["sys".to_owned(), "devices".to_owned(), "usb1".to_owned(), "1-4".to_owned()];
    assert_eq!(disk_attributes(&path, &vec![false, true, true, false]), Some(2));
    assert_eq!(disk_attributes(&path, &vec![false, false, false, false]), None);
}

#[test]
fn inventory_builds_a_full_disk_record() {
    let mounts = vec![
        mount("/dev/sdb1", "/mnt/a", "ext4", 1000, 300),
        mount("/dev/sdb2", "/mnt/b", "vfat", 500, 500),
        mount("/dev/sda1", "/", "ext4", 999, 1),
    ];
    let devices = vec![usb_descriptor("/dev/sdb")];
    let disks = find_external_disks(&devices, &mounts);
    assert_eq!(disks.len(), 1);
    let d = &disks[0];
    assert_eq!(d.name, "/dev/sdb");
    assert_eq!(d.model, "DataTraveler");
    assert_eq!(d.serial_number, "0019E06B9380");
    assert_eq!(d.version, "1.00");
    assert_eq!(d.disk_type, DiskType::Removable);
    assert_eq!(d.partitions.len(), 2);
    assert_eq!(d.total_space, 1500);
    assert_eq!(d.free_space, 800);
    assert_eq!(d.used_space, 700);
    assert_eq!(d.used_space + d.free_space, d.total_space);
}

#[test]
fn inventory_excludes_non_usb_and_incomplete_devices() {
    let mounts = vec![mount("/dev/sdb1", "/mnt/a", "ext4", 100, 40)];
    let mut internal = usb_descriptor("/dev/sda");
    internal.device_path = vec!["sys".to_owned(), "devices".to_owned(), "ata1".to_owned()];
    let mut no_serial = usb_descriptor("/dev/sdc");
    no_serial.serial_number = None;
    let good = usb_descriptor("/dev/sdb");
    let disks = find_external_disks(&vec![internal, no_serial, good], &mounts);
    assert_eq!(disks.len(), 1);
    assert_eq!(disks[0].name, "/dev/sdb");
}

#[test]
fn one_bad_device_does_not_abort_the_scan() {
    let mounts = vec![
        mount("/dev/sdb1", "/m1", "ext4", u64::MAX, 0),
        mount("/dev/sdb2", "/m2", "ext4", u64::MAX, 0),
        mount("/dev/sdc1", "/m3", "ext4", 10, 5),
    ];
    let overflowing = usb_descriptor("/dev/sdb");
    let fine = usb_descriptor("/dev/sdc");
    let disks = find_external_disks(&vec![overflowing, fine], &mounts);
    assert_eq!(disks.len(), 1);
    assert_eq!(disks[0].name, "/dev/sdc");
    assert_eq!(disks[0].total_space, 10);
}

#[test]
fn unreadable_rotational_attribute_yields_unknown() {
    let mut d = usb_descriptor("/dev/sdb");
    d.removable = Some(false);
    d.rotational = None;
    let disks = find_external_disks(&vec![d], &vec![]);
    assert_eq!(disks[0].disk_type, DiskType::Unknown);
    assert_eq!(disks[0].total_space, 0);
    assert_eq!(disks[0].partitions.len(), 0);
}
