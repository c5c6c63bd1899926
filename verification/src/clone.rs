//! Raw device cloning: the chunked copy primitive shared by disk backup and
//! the sanitization engine's I/O discipline.

use vstd::prelude::*;

use crate::device::{DeviceError, DriveAccessor, spec_write_at};

verus! {

/// Bytes moved per chunk: about one mebibyte.
pub const CHUNK_SIZE: u64 = 1048576;

/// How many consecutive interrupted reads are retried before the copy gives
/// up instead of spinning forever.
pub const INTERRUPT_RETRY_LIMIT: u64 = 1024;

/// A pair of endpoints for a copy: where to read and where to write.
pub struct WritePath {
    pub source: String,
    pub destination: String,
}

impl WritePath {
    /// Bundles a source and a destination path.
    pub fn new(source: String, destination: String) -> (r: WritePath)
        ensures
            r.source@ == source@,
            r.destination@ == destination@,
    {
        WritePath { source, destination }
    }
}

/// Deliberately inert entry point: destructive overwriting goes through the
/// sanitization engine, never through this call.
pub fn burn_disk(device: String) {
    let _ = device;
}

/// Whether the destination has room for a backup; this build does not probe
/// the destination and reports room unconditionally.
pub fn memory_is_available() -> (r: bool)
    ensures
        r,
{
    true
}

/// The smaller of `max_bytes` and the source's size: how many bytes a
/// completed copy moves.
pub open spec fn spec_copy_len(src: Seq<u8>, max_bytes: u64) -> int {
    if max_bytes <= src.len() {
        max_bytes as int
    } else {
        src.len() as int
    }
}

/// Copies the source's bytes from position zero into the destination,
/// chunk by chunk, stopping at `max_bytes` or at end-of-source.
///
/// On success the destination's prefix is byte-for-byte the source's prefix
/// of the returned length, which is exactly `min(max_bytes, source size)`;
/// no byte is dropped or reordered.  In particular, copying a device of size
/// `N` under `max_bytes == N` into an empty destination reproduces the
/// device exactly.  An interrupted read is retried, a bounded number of
/// times, without advancing; any other device error ends the copy and is
/// handed back, with the source untouched.
pub fn copy<S: DriveAccessor, D: DriveAccessor>(
    source: &mut S,
    destination: &mut D,
    max_bytes: u64,
) -> (r: Result<u64, DeviceError>)
    ensures
        final(source).contents() == old(source).contents(),
        r matches Ok(n) ==> {
            &&& n == spec_copy_len(old(source).contents(), max_bytes)
            &&& final(destination).contents() == spec_write_at(
                old(destination).contents(),
                0,
                old(source).contents().take(n as int),
            )
            &&& final(destination).contents().take(n as int) == old(source).contents().take(
                n as int,
            )
        },
        old(destination).contents().len() == 0 ==> (r matches Ok(n)
            ==> final(destination).contents() == old(source).contents().take(n as int)),
        old(destination).contents().len() == 0 && max_bytes == old(source).contents().len() ==> (r
            matches Ok(n) ==> n == max_bytes && final(destination).contents() == old(
            source,
        ).contents()),
{
    let ghost src0 = source.contents();
    let ghost dest0 = destination.contents();
    match source.seek(0) {
        Ok(_) => {},
        Err(e) => {
            return Err(e);
        },
    }
    match destination.seek(0) {
        Ok(_) => {},
        Err(e) => {
            return Err(e);
        },
    }
    let mut copied: u64 = 0;
    let mut retries: u64 = 0;
    let mut result: Result<u64, DeviceError> = Ok(0);
    let mut done = false;
    while !done
        invariant
            copied <= max_bytes,
            source.contents() == src0,
            destination.contents() == spec_write_at(dest0, 0, src0.take(copied as int)),
            !done ==> source.cursor() == copied,
            !done ==> destination.cursor() == copied,
            !done ==> copied <= src0.len(),
            destination.cursor() <= destination.contents().len(),
            source.cursor() <= source.contents().len(),
            retries <= INTERRUPT_RETRY_LIMIT,
            done ==> (result matches Ok(n) ==> n == copied && copied == spec_copy_len(
                src0,
                max_bytes,
            )),
        decreases max_bytes - copied, (if done {
            0int
        } else {
            1int
        }), 1int + INTERRUPT_RETRY_LIMIT - retries,
    {
        if copied == max_bytes {
            result = Ok(copied);
            done = true;
        } else {
            let remaining = max_bytes - copied;
            let want: u64 = if CHUNK_SIZE <= remaining {
                CHUNK_SIZE
            } else {
                remaining
            };
            match source.read(want as usize) {
                Ok(buf) => {
                    if buf.len() == 0 {
                        proof {
                            assert(copied == src0.len());
                        }
                        result = Ok(copied);
                        done = true;
                    } else {
                        retries = 0;
                        let len = buf.len() as u64;
                        match destination.write(buf.as_slice()) {
                            Ok(_) => {
                                proof {
                                    assert(destination.contents() =~= spec_write_at(
                                        dest0,
                                        0,
                                        src0.take((copied + len) as int),
                                    ));
                                }
                                copied = copied + len;
                            },
                            Err(e) => {
                                result = Err(e);
                                done = true;
                            },
                        }
                    }
                },
                Err(DeviceError::Interrupted) => {
                    if retries == INTERRUPT_RETRY_LIMIT {
                        result = Err(DeviceError::Interrupted);
                        done = true;
                    } else {
                        retries = retries + 1;
                    }
                },
                Err(e) => {
                    result = Err(e);
                    done = true;
                },
            }
        }
    }
    proof {
        match result {
            Ok(n) => {
                assert(destination.contents().take(n as int) =~= src0.take(n as int));
                if dest0.len() == 0 {
                    assert(destination.contents() =~= src0.take(n as int));
                    if max_bytes == src0.len() {
                        assert(src0.take(max_bytes as int) =~= src0);
                    }
                }
            },
            Err(_) => {},
        }
    }
    result
}

} // verus!
