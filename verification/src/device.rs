//! Raw device access.
//!
//! `DriveAccessor` is the capability the sanitization engine and the raw
//! copier work against: a position-seekable byte store.  Its contract speaks
//! of two abstract quantities, the device's `contents` and the `cursor`
//! offset.  `MemDevice` is the crate's own in-memory implementation, used to
//! simulate a raw device; implementations over real OS handles live outside
//! the verified library and are trusted to meet the same contract.

use vstd::prelude::*;

verus! {

/// Failure of a single device operation.
///
/// `Interrupted` marks a transient failure (an interrupted system call) whose
/// chunk may be retried; every other failure is `Io` and fatal to the
/// operation in progress.
#[derive(Clone, Copy, Debug, PartialEq, Eq, Structural)]
pub enum DeviceError {
    Interrupted,
    Io,
}

/// The contents after writing `data` at offset `pos`: bytes before `pos` and
/// after the written range keep their values, and the store grows when the
/// write runs past its current end.
pub open spec fn spec_write_at(contents: Seq<u8>, pos: int, data: Seq<u8>) -> Seq<u8>
    recommends
        0 <= pos <= contents.len(),
{
    Seq::new(
        if pos + data.len() > contents.len() {
            (pos + data.len()) as nat
        } else {
            contents.len()
        },
        |i: int|
            if pos <= i < pos + data.len() {
                data[i - pos]
            } else {
                contents[i]
            },
    )
}

/// Position-seekable access to a raw device or image file.
///
/// Every operation may fail; on failure the store and the cursor are
/// unchanged.  A successful `read` returns exactly the requested bytes,
/// shortened only by the end of the store, so a zero-length result signals
/// end-of-device.
pub trait DriveAccessor: Sized {
    /// The device's byte contents.
    spec fn contents(&self) -> Seq<u8>;

    /// The current offset of the read/write cursor.
    spec fn cursor(&self) -> u64;

    /// Reports the current cursor offset.
    fn position(&mut self) -> (r: Result<u64, DeviceError>)
        ensures
            final(self).contents() == old(self).contents(),
            final(self).cursor() == old(self).cursor(),
            r matches Ok(p) ==> p == old(self).cursor(),
    ;

    /// Moves the cursor to `position` (counted from the start).
    fn seek(&mut self, position: u64) -> (r: Result<u64, DeviceError>)
        requires
            position <= old(self).contents().len(),
        ensures
            final(self).contents() == old(self).contents(),
            r matches Ok(p) ==> p == position && final(self).cursor() == position,
            r is Err ==> final(self).cursor() == old(self).cursor(),
    ;

    /// Reads up to `max_len` bytes at the cursor, advancing it past the bytes
    /// read.  The result is shorter than `max_len` only at end-of-device.
    fn read(&mut self, max_len: usize) -> (r: Result<Vec<u8>, DeviceError>)
        requires
            old(self).cursor() <= old(self).contents().len(),
        ensures
            final(self).contents() == old(self).contents(),
            r matches Ok(buf) ==> {
                let start = old(self).cursor() as int;
                let end = if start + max_len <= old(self).contents().len() {
                    start + max_len
                } else {
                    old(self).contents().len() as int
                };
                buf@ == old(self).contents().subrange(start, end) && final(self).cursor() as int
                    == end
            },
            r is Err ==> final(self).cursor() == old(self).cursor(),
    ;

    /// Writes all of `data` at the cursor, advancing it past the bytes
    /// written; no short writes are dropped silently.
    fn write(&mut self, data: &[u8]) -> (r: Result<(), DeviceError>)
        requires
            old(self).cursor() <= old(self).contents().len(),
            old(self).cursor() + data@.len() <= u64::MAX,
        ensures
            r is Ok ==> final(self).contents() == spec_write_at(
                old(self).contents(),
                old(self).cursor() as int,
                data@,
            ) && final(self).cursor() == old(self).cursor() + data@.len(),
            r is Err ==> final(self).contents() == old(self).contents() && final(self).cursor()
                == old(self).cursor(),
    ;

    /// Forces buffered writes out; the contents and cursor are unaffected.
    fn flush(&mut self) -> (r: Result<(), DeviceError>)
        ensures
            final(self).contents() == old(self).contents(),
            final(self).cursor() == old(self).cursor(),
    ;
}

/// An in-memory simulated raw device.
pub struct MemDevice {
    data: Vec<u8>,
    pos: u64,
}

impl MemDevice {
    /// A device holding exactly the given bytes, cursor at the start.
    pub fn from_vec(data: Vec<u8>) -> (d: MemDevice)
        ensures
            d.contents() == data@,
            d.cursor() == 0,
    {
        MemDevice { data, pos: 0 }
    }

    /// A device of `size` bytes, each initialized to `fill`.
    pub fn filled(size: usize, fill: u8) -> (d: MemDevice)
        ensures
            d.contents().len() == size,
            forall|i: int| 0 <= i < size ==> d.contents()[i] == fill,
            d.cursor() == 0,
    {
        let mut data: Vec<u8> = Vec::new();
        let mut i: usize = 0;
        while i < size
            invariant
                i <= size,
                data@.len() == i,
                forall|j: int| 0 <= j < i ==> data@[j] == fill,
            decreases size - i,
        {
            data.push(fill);
            i += 1;
        }
        MemDevice { data, pos: 0 }
    }

    /// The device's size in bytes.
    pub fn len(&self) -> (n: usize)
        ensures
            n == self.contents().len(),
    {
        self.data.len()
    }

    /// Reads one byte without moving the cursor.
    pub fn byte_at(&self, i: usize) -> (b: u8)
        requires
            i < self.contents().len(),
        ensures
            b == self.contents()[i as int],
    {
        self.data[i]
    }

    /// Overwrites one byte in place, leaving the cursor alone.  This is the
    /// simulation's fault-injection hook: it lets a caller corrupt the store
    /// behind the engine's back, the way failing media would.
    pub fn set_byte(&mut self, i: usize, b: u8)
        requires
            i < old(self).contents().len(),
        ensures
            final(self).contents() == old(self).contents().update(i as int, b),
            final(self).cursor() == old(self).cursor(),
    {
        self.data.set(i, b);
    }

    /// Consumes the device and hands back its bytes.
    pub fn into_vec(self) -> (v: Vec<u8>)
        ensures
            v@ == self.contents(),
    {
        self.data
    }
}

/// An in-memory device whose next read and write attempts fail with
/// scripted errors.
///
/// This is the simulation's second fault-injection hook: it lets a test or a
/// rehearsal drive the engine and the copier through interrupted and failing
/// system calls.  Errors are consumed from the back of each script, one per
/// attempt; the bytes themselves come from the wrapped `MemDevice`.
pub struct FlakyDevice {
    inner: MemDevice,
    read_errors: Vec<DeviceError>,
    write_errors: Vec<DeviceError>,
}

impl FlakyDevice {
    /// A device over `inner` that fails its next read and write attempts
    /// with the scripted errors, last element first.
    pub fn new(
        inner: MemDevice,
        read_errors: Vec<DeviceError>,
        write_errors: Vec<DeviceError>,
    ) -> (d: FlakyDevice)
        ensures
            d.contents() == inner.contents(),
            d.cursor() == inner.cursor(),
    {
        FlakyDevice { inner, read_errors, write_errors }
    }

    /// Consumes the device and hands back its bytes.
    pub fn into_vec(self) -> (v: Vec<u8>)
        ensures
            v@ == self.contents(),
    {
        self.inner.into_vec()
    }
}

impl DriveAccessor for FlakyDevice {
    closed spec fn contents(&self) -> Seq<u8> {
        self.inner.contents()
    }

    closed spec fn cursor(&self) -> u64 {
        self.inner.cursor()
    }

    fn position(&mut self) -> (r: Result<u64, DeviceError>) {
        self.inner.position()
    }

    fn seek(&mut self, position: u64) -> (r: Result<u64, DeviceError>) {
        self.inner.seek(position)
    }

    fn read(&mut self, max_len: usize) -> (r: Result<Vec<u8>, DeviceError>) {
        match self.read_errors.pop() {
            Some(e) => Err(e),
            None => self.inner.read(max_len),
        }
    }

    fn write(&mut self, data: &[u8]) -> (r: Result<(), DeviceError>) {
        match self.write_errors.pop() {
            Some(e) => Err(e),
            None => self.inner.write(data),
        }
    }

    fn flush(&mut self) -> (r: Result<(), DeviceError>) {
        self.inner.flush()
    }
}

impl DriveAccessor for MemDevice {
    closed spec fn contents(&self) -> Seq<u8> {
        self.data@
    }

    closed spec fn cursor(&self) -> u64 {
        self.pos
    }

    fn position(&mut self) -> (r: Result<u64, DeviceError>) {
        Ok(self.pos)
    }

    fn seek(&mut self, position: u64) -> (r: Result<u64, DeviceError>) {
        self.pos = position;
        Ok(position)
    }

    fn read(&mut self, max_len: usize) -> (r: Result<Vec<u8>, DeviceError>) {
        let len = self.data.len();
        let start = self.pos as usize;
        let count = if max_len <= len - start {
            max_len
        } else {
            len - start
        };
        let mut buf: Vec<u8> = Vec::new();
        let mut j: usize = 0;
        while j < count
            invariant
                j <= count,
                start + count <= self.data@.len(),
                self.data@.len() <= usize::MAX,
                buf@.len() == j,
                forall|k: int| 0 <= k < j ==> buf@[k] == self.data@[start + k],
            decreases count - j,
        {
            buf.push(self.data[start + j]);
            j += 1;
        }
        self.pos = (start + count) as u64;
        proof {
            assert(buf@ =~= self.data@.subrange(start as int, start + count));
        }
        Ok(buf)
    }

    fn write(&mut self, data: &[u8]) -> (r: Result<(), DeviceError>) {
        let ghost orig = self.data@;
        let len = self.data.len();
        let start = self.pos as usize;
        let dlen = data.len();
        let overlap = if dlen <= len - start {
            dlen
        } else {
            len - start
        };
        let mut j: usize = 0;
        while j < overlap
            invariant
                j <= overlap,
                dlen == data@.len(),
                overlap <= dlen,
                start == self.pos,
                start + overlap <= len,
                len == orig.len(),
                self.data@.len() == orig.len(),
                self.data@ =~= spec_write_at(orig, start as int, data@.take(j as int)),
            decreases overlap - j,
        {
            let b = *vstd::slice::slice_index_get(data, j);
            self.data.set(start + j, b);
            proof {
                assert(self.data@ =~= spec_write_at(orig, start as int, data@.take(j + 1)));
            }
            j += 1;
        }
        while j < dlen
            invariant
                overlap <= j <= dlen,
                dlen == data@.len(),
                start == self.pos,
                start as int + overlap <= orig.len(),
                overlap < dlen ==> start + overlap == orig.len(),
                start + dlen <= u64::MAX,
                self.data@ =~= spec_write_at(orig, start as int, data@.take(j as int)),
            decreases dlen - j,
        {
            let b = *vstd::slice::slice_index_get(data, j);
            self.data.push(b);
            proof {
                assert(self.data@ =~= spec_write_at(orig, start as int, data@.take(j + 1)));
            }
            j += 1;
        }
        self.pos = self.pos + dlen as u64;
        proof {
            assert(data@.take(dlen as int) =~= data@);
        }
        Ok(())
    }

    fn flush(&mut self) -> (r: Result<(), DeviceError>) {
        Ok(())
    }
}

} // verus!
