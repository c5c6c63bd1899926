//! Raw copier scenarios, including the byte-for-byte cloning round trip.

use minuteman::clone::{burn_disk, copy, memory_is_available, WritePath, CHUNK_SIZE,
    INTERRUPT_RETRY_LIMIT};
use minuteman::device::{DeviceError, FlakyDevice, MemDevice};

#[test]
fn clone_full_device_is_byte_for_byte() {
    let n = 3 * CHUNK_SIZE as usize + 12345;
    let source_bytes: Vec<u8> = (0..n).map(|i| (i * 31 % 251) as u8).collect();
    let mut source = MemDevice::from_vec(source_bytes.clone());
    let mut image = MemDevice::from_vec(Vec::new());
    let copied = copy(&mut source, &mut image, n as u64).unwrap();
    assert_eq!(copied, n as u64);
    assert_eq!(image.into_vec(), source_bytes);
    assert_eq!(source.into_vec(), source_bytes);
}

#[test]
fn copy_stops_at_byte_limit() {
    let mut source = MemDevice::from_vec(vec![1, 2, 3, 4, 5, 6, 7, 8]);
    let mut image = MemDevice::from_vec(Vec::new());
    let copied = copy(&mut source, &mut image, 5).unwrap();
    assert_eq!(copied, 5);
    assert_eq!(image.into_vec(), vec![1, 2, 3, 4, 5]);
}

#[test]
fn copy_stops_at_end_of_source() {
    let mut source = MemDevice::from_vec(vec![9, 8, 7]);
    let mut image = MemDevice::from_vec(Vec::new());
    let copied = copy(&mut source, &mut image, 100).unwrap();
    assert_eq!(copied, 3);
    assert_eq!(image.into_vec(), vec![9, 8, 7]);
}

#[test]
fn copy_overwrites_prefix_and_keeps_longer_tail() {
    let mut source = MemDevice::from_vec(vec![1, 2]);
    let mut image = MemDevice::from_vec(vec![9, 9, 9, 9]);
    let copied = copy(&mut source, &mut image, 2).unwrap();
    assert_eq!(copied, 2);
    assert_eq!(image.into_vec(), vec![1, 2, 9, 9]);
}

#[test]
fn write_path_keeps_endpoints() {
    let p = WritePath::new("/dev/sdb".to_owned(), "backup.iso".to_owned());
    assert_eq!(p.source, "/dev/sdb");
    assert_eq!(p.destination, "backup.iso");
    assert!(memory_is_available());
    burn_disk("/dev/sdb".to_owned());
}

#[test]
fn copy_retries_interrupted_reads_and_gives_up_eventually() {
    // A few interruptions are retried transparently.
    let mut source = FlakyDevice::new(
        MemDevice::from_vec(vec![1, 2, 3]),
        vec![DeviceError::Interrupted; 3],
        vec![],
    );
    let mut image = MemDevice::from_vec(Vec::new());
    assert_eq!(copy(&mut source, &mut image, 3), Ok(3));
    assert_eq!(image.into_vec(), vec![1, 2, 3]);

    // An unbroken run of interruptions past the retry budget ends the copy.
    let mut source = FlakyDevice::new(
        MemDevice::from_vec(vec![1, 2, 3]),
        vec![DeviceError::Interrupted; INTERRUPT_RETRY_LIMIT as usize + 1],
        vec![],
    );
    let mut image = MemDevice::from_vec(Vec::new());
    assert_eq!(copy(&mut source, &mut image, 3), Err(DeviceError::Interrupted));

    // A hard read error is handed back at once.
    let mut source =
        FlakyDevice::new(MemDevice::from_vec(vec![1, 2, 3]), vec![DeviceError::Io], vec![]);
    let mut image = MemDevice::from_vec(Vec::new());
    assert_eq!(copy(&mut source, &mut image, 3), Err(DeviceError::Io));
}
