//! The sanitization engine.
//!
//! A `SanitizationJob` holds the run-time state of one sanitization: the
//! method's pass plan, the current pass and phase, and the byte counters that
//! drive progress reporting.  The engine is a cooperative step function: each
//! `step` performs at most one chunk of device work, so a control loop can
//! interleave progress observation and cancellation with the pass I/O.
//!
//! The step invariant ties the job to the device it owns: while a pass is
//! writing, the bytes written so far carry the pass's pattern; while it is
//! verifying, the bytes compared so far do; and a `Succeeded` job leaves the
//! whole device carrying the final pass's pattern.

use vstd::prelude::*;

use crate::device::{DeviceError, DriveAccessor, spec_write_at};
use crate::method::{
    method_passes_wf, spec_expected_byte, expected_byte, fill_pattern, SanitizationMethod,
};

verus! {

/// Why a sanitization run stopped without succeeding.
///
/// A `VerificationMismatch` records the first offset whose read-back byte
/// differed from the expected pattern; it is distinct from `IoError` so the
/// operator learns that the wipe did not verify rather than that the disk
/// failed.
#[derive(Clone, Copy, Debug, PartialEq, Eq, Structural)]
pub enum FailureReason {
    IoError,
    VerificationMismatch { offset: u64 },
}

/// The state of a sanitization run.
#[derive(Clone, Copy, Debug, PartialEq, Eq, Structural)]
pub enum Outcome {
    Running,
    Succeeded,
    Failed(FailureReason),
    Cancelled,
}

/// Which half of the current pass is in progress.
#[derive(Clone, Copy, Debug, PartialEq, Eq, Structural)]
pub enum PassPhase {
    Writing,
    Verifying,
}

/// Mutable run-time state of one sanitization.
pub struct SanitizationJob {
    /// The OS handle of the device this job exclusively owns.
    pub device_path: String,
    /// The device's addressable size in bytes.
    pub device_size: u64,
    /// How many bytes one step moves at most.
    pub chunk_size: u64,
    /// The standard being executed.
    pub method: SanitizationMethod,
    /// Index of the pass in progress (the 1-based round is one higher).
    pub current_pass_index: usize,
    /// Whether the current pass is writing or verifying.
    pub phase: PassPhase,
    /// Bytes of the current pass already written.
    pub bytes_written_this_pass: u64,
    /// Bytes of the current pass already read back and compared.
    pub bytes_verified_this_pass: u64,
    /// Where the run stands.
    pub outcome: Outcome,
}

/// Internal consistency of a job's counters.
pub open spec fn job_wf(j: SanitizationJob) -> bool {
    let n = j.method.passes@.len() as int;
    &&& method_passes_wf(j.method.passes@)
    &&& j.device_size > 0
    &&& j.chunk_size > 0
    &&& j.chunk_size <= usize::MAX
    &&& n * j.device_size <= u64::MAX
    &&& j.current_pass_index <= n
    &&& j.bytes_written_this_pass <= j.device_size
    &&& j.bytes_verified_this_pass <= j.device_size
    &&& (j.outcome == Outcome::Succeeded <==> j.current_pass_index == n)
    &&& (j.outcome == Outcome::Succeeded ==> j.bytes_written_this_pass == 0)
    &&& (j.outcome != Outcome::Succeeded && j.phase == PassPhase::Writing
        ==> j.bytes_written_this_pass < j.device_size)
    &&& (j.outcome != Outcome::Succeeded && j.phase == PassPhase::Verifying
        ==> j.bytes_written_this_pass == j.device_size)
    &&& (j.outcome == Outcome::Running && j.phase == PassPhase::Verifying
        ==> j.bytes_verified_this_pass < j.device_size && j.method.passes@[j.current_pass_index
        as int].verify)
}

/// Numerator of the job's progress fraction: full passes done, plus the bytes
/// written in the current pass.
pub open spec fn spec_progress_num(j: SanitizationJob) -> int {
    j.current_pass_index * j.device_size + j.bytes_written_this_pass
}

/// Denominator of the job's progress fraction: the whole device, once per
/// pass.
pub open spec fn spec_progress_den(j: SanitizationJob) -> int {
    j.method.passes@.len() * j.device_size
}

/// Progress stays inside `[0, 1]`, and it reaches `1` exactly on success,
/// with one exception: a job in its final pass's read-back comparison also
/// shows full progress, since all its bytes are written and only their
/// verification is outstanding.
pub proof fn lemma_progress_bounds(j: SanitizationJob)
    requires
        job_wf(j),
    ensures
        0 <= spec_progress_num(j) <= spec_progress_den(j),
        j.outcome == Outcome::Succeeded ==> spec_progress_num(j) == spec_progress_den(j),
        j.phase == PassPhase::Writing && j.outcome != Outcome::Succeeded ==> spec_progress_num(j)
            < spec_progress_den(j),
        j.phase == PassPhase::Verifying && j.current_pass_index + 1 < j.method.passes@.len()
            ==> spec_progress_num(j) < spec_progress_den(j),
        spec_progress_num(j) == spec_progress_den(j) ==> j.outcome == Outcome::Succeeded || (
        j.phase == PassPhase::Verifying && j.current_pass_index + 1 == j.method.passes@.len()),
{
    let n = j.method.passes@.len() as int;
    let i = j.current_pass_index as int;
    let s = j.device_size as int;
    assert(i * s <= n * s) by (nonlinear_arith)
        requires
            0 <= i <= n,
            s >= 0,
    ;
    if j.outcome == Outcome::Succeeded {
        assert(spec_progress_num(j) == n * s);
    } else {
        assert(i < n);
        assert((i + 1) * s <= n * s) by (nonlinear_arith)
            requires
                i + 1 <= n,
                s >= 0,
        ;
        assert(i * s + s == (i + 1) * s) by (nonlinear_arith);
        if j.phase == PassPhase::Verifying && i + 1 < n {
            assert((i + 1) * s < n * s) by (nonlinear_arith)
                requires
                    i + 1 < n,
                    s > 0,
            ;
        }
    }
}

/// The bytes one writing step moves: a full chunk, or the remainder of the
/// pass when less is left.
pub open spec fn spec_write_chunk(j: SanitizationJob) -> int {
    if j.chunk_size <= j.device_size - j.bytes_written_this_pass {
        j.chunk_size as int
    } else {
        j.device_size - j.bytes_written_this_pass
    }
}

/// The agreement between a job and the device it owns.
///
/// The device has exactly the job's size; while writing, the pass's pattern
/// stands on the bytes already written; while verifying, on the bytes already
/// compared; and on success the final pass's pattern covers the device.
pub open spec fn step_inv<D: DriveAccessor>(j: SanitizationJob, dev: D) -> bool {
    let passes = j.method.passes@;
    let i = j.current_pass_index as int;
    &&& job_wf(j)
    &&& dev.contents().len() == j.device_size
    &&& dev.cursor() <= dev.contents().len()
    &&& (j.outcome == Outcome::Running && j.phase == PassPhase::Writing ==> forall|k: int|
        0 <= k < j.bytes_written_this_pass ==> dev.contents()[k] == spec_expected_byte(
            passes,
            i,
            k as u64,
        ))
    &&& (j.outcome == Outcome::Running && j.phase == PassPhase::Verifying ==> forall|k: int|
        0 <= k < j.bytes_verified_this_pass ==> dev.contents()[k] == spec_expected_byte(
            passes,
            i,
            k as u64,
        ))
    &&& (j.outcome == Outcome::Succeeded ==> forall|k: int|
        0 <= k < j.device_size ==> dev.contents()[k] == spec_expected_byte(
            passes,
            passes.len() - 1,
            k as u64,
        ))
}

impl SanitizationJob {
    /// Starts a fresh job: first pass, nothing written, `Running`.
    ///
    /// Returns `None` exactly when the inputs cannot make a job: an empty or
    /// `Complement`-led pass plan, a zero-sized device, a zero chunk size, a
    /// chunk size beyond the platform's buffer limit, or a total workload
    /// beyond the progress counters' range.
    pub fn new(
        device_path: String,
        device_size: u64,
        chunk_size: u64,
        method: SanitizationMethod,
    ) -> (r: Option<SanitizationJob>)
        ensures
            r is Some <==> {
                &&& method_passes_wf(method.passes@)
                &&& device_size > 0
                &&& chunk_size > 0
                &&& chunk_size <= usize::MAX
                &&& method.passes@.len() * device_size <= u64::MAX
            },
            r matches Some(j) ==> {
                &&& job_wf(j)
                &&& j.device_path == device_path
                &&& j.device_size == device_size
                &&& j.chunk_size == chunk_size
                &&& j.method.name@ == method.name@
                &&& j.method.passes@ == method.passes@
                &&& j.current_pass_index == 0
                &&& j.phase == PassPhase::Writing
                &&& j.bytes_written_this_pass == 0
                &&& j.bytes_verified_this_pass == 0
                &&& j.outcome == Outcome::Running
                &&& spec_progress_num(j) == 0
            },
    {
        if method.passes.len() == 0 {
            return None;
        }
        if matches!(method.passes[0].pattern, crate::method::PassPattern::Complement) {
            return None;
        }
        if device_size == 0 || chunk_size == 0 {
            return None;
        }
        if chunk_size > usize::MAX as u64 {
            return None;
        }
        proof {
            assert((method.passes@.len() as int) * (device_size as int) <= 0xffff_ffff_ffff_ffff
                * 0xffff_ffff_ffff_ffff) by (nonlinear_arith)
                requires
                    0 <= method.passes@.len() as int <= 0xffff_ffff_ffff_ffff,
                    0 <= device_size as int <= 0xffff_ffff_ffff_ffff,
            ;
        }
        let workload: u128 = method.passes.len() as u128 * device_size as u128;
        if workload > u64::MAX as u128 {
            return None;
        }
        Some(
            SanitizationJob {
                device_path,
                device_size,
                chunk_size,
                method,
                current_pass_index: 0,
                phase: PassPhase::Writing,
                bytes_written_this_pass: 0,
                bytes_verified_this_pass: 0,
                outcome: Outcome::Running,
            },
        )
    }

    /// The 1-based round shown to the operator.
    pub fn current_round(&self) -> (r: u64)
        requires
            job_wf(*self),
        ensures
            self.current_pass_index < self.method.passes@.len() ==> r == self.current_pass_index
                + 1,
            self.current_pass_index >= self.method.passes@.len() ==> r
                == self.method.passes@.len(),
    {
        proof {
            lemma_progress_bounds(*self);
        }
        if self.current_pass_index < self.method.passes.len() {
            self.current_pass_index as u64 + 1
        } else {
            self.method.passes.len() as u64
        }
    }

    /// The progress fraction as a numerator/denominator pair of byte counts.
    pub fn progress_parts(&self) -> (r: (u64, u64))
        requires
            job_wf(*self),
        ensures
            r.0 == spec_progress_num(*self),
            r.1 == spec_progress_den(*self),
            r.0 <= r.1,
    {
        proof {
            lemma_progress_bounds(*self);
            assert(self.current_pass_index * self.device_size <= spec_progress_num(*self));
        }
        let num: u128 = self.current_pass_index as u128 * self.device_size as u128
            + self.bytes_written_this_pass as u128;
        let den: u128 = self.method.passes.len() as u128 * self.device_size as u128;
        (num as u64, den as u64)
    }
}

/// Moves the job past the pass just completed: next pass from byte zero, or
/// `Succeeded` after the final pass.
fn advance_pass(job: &mut SanitizationJob)
    requires
        old(job).outcome == Outcome::Running,
        old(job).current_pass_index < old(job).method.passes@.len(),
        old(job).device_size > 0,
        old(job).chunk_size > 0,
        old(job).chunk_size <= usize::MAX,
        method_passes_wf(old(job).method.passes@),
        old(job).method.passes@.len() * old(job).device_size <= u64::MAX,
    ensures
        final(job).current_pass_index == old(job).current_pass_index + 1,
        final(job).bytes_written_this_pass == 0,
        final(job).bytes_verified_this_pass == 0,
        final(job).phase == PassPhase::Writing,
        final(job).outcome == (if old(job).current_pass_index + 1 == old(
            job,
        ).method.passes@.len() {
            Outcome::Succeeded
        } else {
            Outcome::Running
        }),
        final(job).method == old(job).method,
        final(job).device_path == old(job).device_path,
        final(job).device_size == old(job).device_size,
        final(job).chunk_size == old(job).chunk_size,
        job_wf(*final(job)),
{
    let n = job.method.passes.len();
    job.current_pass_index = job.current_pass_index + 1;
    job.bytes_written_this_pass = 0;
    job.bytes_verified_this_pass = 0;
    job.phase = PassPhase::Writing;
    if job.current_pass_index == n {
        job.outcome = Outcome::Succeeded;
    }
}

/// Performs one bounded step of the sanitization: observes cancellation,
/// then writes or verifies at most one chunk.
///
/// Progress never decreases; a cancellation request takes effect within this
/// one step and freezes the counters, so a job cancelled while writing shows
/// progress strictly below complete; a transient `Interrupted` device error
/// leaves the job unchanged, to be retried; any other device error ends the
/// job as `Failed(IoError)`; and a read-back byte that differs from the
/// pattern ends it as `Failed(VerificationMismatch)` carrying a genuinely
/// differing offset.
pub fn step<D: DriveAccessor>(job: &mut SanitizationJob, dev: &mut D, cancel: bool)
    requires
        step_inv(*old(job), *old(dev)),
    ensures
        step_inv(*final(job), *final(dev)),
        final(job).method == old(job).method,
        final(job).device_path == old(job).device_path,
        final(job).device_size == old(job).device_size,
        final(job).chunk_size == old(job).chunk_size,
        final(dev).contents().len() == old(dev).contents().len(),
        spec_progress_num(*final(job)) >= spec_progress_num(*old(job)),
        spec_progress_den(*final(job)) == spec_progress_den(*old(job)),
        old(job).outcome != Outcome::Running ==> *final(job) == *old(job)
            && final(dev).contents() == old(dev).contents(),
        old(job).outcome == Outcome::Running && cancel ==> {
            &&& final(job).outcome == Outcome::Cancelled
            &&& final(job).current_pass_index == old(job).current_pass_index
            &&& final(job).bytes_written_this_pass == old(job).bytes_written_this_pass
            &&& final(dev).contents() == old(dev).contents()
            &&& spec_progress_num(*final(job)) == spec_progress_num(*old(job))
        },
        old(job).outcome == Outcome::Running && cancel && old(job).phase == PassPhase::Writing
            ==> spec_progress_num(*final(job)) < spec_progress_den(*final(job)),
        old(job).outcome == Outcome::Running && !cancel ==> final(job).outcome
            != Outcome::Cancelled,
        old(job).outcome == Outcome::Running && !cancel && old(job).phase == PassPhase::Writing
            ==> spec_progress_num(*final(job)) == spec_progress_num(*old(job))
            || spec_progress_num(*final(job)) == spec_progress_num(*old(job)) + spec_write_chunk(
            *old(job),
        ),
        old(job).outcome == Outcome::Running && !cancel && old(job).phase == PassPhase::Writing
            && final(job).outcome == Outcome::Succeeded ==> spec_progress_num(*final(job))
            == spec_progress_num(*old(job)) + spec_write_chunk(*old(job)),
        old(job).outcome == Outcome::Running && !cancel && old(job).phase == PassPhase::Verifying
            ==> spec_progress_num(*final(job)) == spec_progress_num(*old(job)),
        old(job).outcome == Outcome::Running ==> (final(job).outcome matches Outcome::Failed(
            FailureReason::VerificationMismatch { offset },
        ) ==> offset < final(job).device_size && final(dev).contents()[offset as int]
            != spec_expected_byte(
            final(job).method.passes@,
            final(job).current_pass_index as int,
            offset,
        )),
{
    proof {
        lemma_progress_bounds(*old(job));
    }
    if !matches!(job.outcome, Outcome::Running) {
        return ;
    }
    if cancel {
        job.outcome = Outcome::Cancelled;
        return ;
    }
    let size = job.device_size;
    match job.phase {
        PassPhase::Writing => {
            let w = job.bytes_written_this_pass;
            let remaining = size - w;
            let chunk = if job.chunk_size <= remaining {
                job.chunk_size
            } else {
                remaining
            };
            let buf = fill_pattern(
                &job.method.passes,
                job.current_pass_index,
                w,
                chunk as usize,
            );
            match dev.seek(w) {
                Ok(_) => {},
                Err(_) => {
                    job.outcome = Outcome::Failed(FailureReason::IoError);
                    return ;
                },
            }
            let ghost pre = dev.contents();
            match dev.write(buf.as_slice()) {
                Ok(_) => {
                    proof {
                        assert(dev.contents() =~= spec_write_at(pre, w as int, buf@));
                        assert(dev.contents().len() == pre.len());
                        let passes = job.method.passes@;
                        let i = job.current_pass_index as int;
                        assert forall|k: int| 0 <= k < w + chunk implies dev.contents()[k]
                            == spec_expected_byte(passes, i, k as u64) by {
                            if k < w {
                                assert(dev.contents()[k] == pre[k]);
                            } else {
                                assert(dev.contents()[k] == buf@[k - w]);
                                assert(buf@[k - w] == spec_expected_byte(
                                    passes,
                                    i,
                                    (w + (k - w)) as u64,
                                ));
                                assert((w + (k - w)) as u64 == k as u64);
                            }
                        }
                    }
                    job.bytes_written_this_pass = w + chunk;
                    if job.bytes_written_this_pass == size {
                        let verify = job.method.passes[job.current_pass_index].verify;
                        if verify {
                            job.phase = PassPhase::Verifying;
                            job.bytes_verified_this_pass = 0;
                        } else {
                            proof {
                                let i = job.current_pass_index as int;
                                let s = job.device_size as int;
                                assert((i + 1) * s == i * s + s) by (nonlinear_arith);
                            }
                            advance_pass(job);
                        }
                    }
                },
                Err(DeviceError::Interrupted) => {},
                Err(DeviceError::Io) => {
                    job.outcome = Outcome::Failed(FailureReason::IoError);
                },
            }
        },
        PassPhase::Verifying => {
            let v = job.bytes_verified_this_pass;
            let remaining = size - v;
            let chunk = if job.chunk_size <= remaining {
                job.chunk_size
            } else {
                remaining
            };
            match dev.seek(v) {
                Ok(_) => {},
                Err(_) => {
                    job.outcome = Outcome::Failed(FailureReason::IoError);
                    return ;
                },
            }
            match dev.read(chunk as usize) {
                Ok(buf) => {
                    let ghost passes = job.method.passes@;
                    let pass_index = job.current_pass_index;
                    let count = buf.len();
                    let mut mismatch: Option<u64> = None;
                    let mut k: usize = 0;
                    while k < count
                        invariant
                            k <= count,
                            count == buf@.len(),
                            passes == job.method.passes@,
                            pass_index == job.current_pass_index,
                            pass_index < passes.len(),
                            v + count <= u64::MAX,
                            mismatch is None ==> forall|m: int|
                                0 <= m < k ==> buf@[m] == spec_expected_byte(
                                    passes,
                                    pass_index as int,
                                    (v + m) as u64,
                                ),
                            mismatch matches Some(off) ==> v <= off < v + count && buf@[off - v]
                                != spec_expected_byte(passes, pass_index as int, off),
                        decreases count - k,
                    {
                        if mismatch.is_none() {
                            let expect = expected_byte(&job.method.passes, pass_index, v + k as u64);
                            if buf[k] != expect {
                                mismatch = Some(v + k as u64);
                            }
                        }
                        k += 1;
                    }
                    match mismatch {
                        Some(off) => {
                            proof {
                                assert(buf@[off - v] == dev.contents()[v + (off - v)]);
                                assert(v + (off - v) == off as int);
                            }
                            job.outcome = Outcome::Failed(
                                FailureReason::VerificationMismatch { offset: off },
                            );
                        },
                        None => {
                            proof {
                                let i = job.current_pass_index as int;
                                assert forall|m: int| 0 <= m < v + chunk implies dev.contents()[m]
                                    == spec_expected_byte(passes, i, m as u64) by {
                                    if m >= v {
                                        assert(buf@[m - v] == dev.contents()[v + (m - v)]);
                                        assert(buf@[m - v] == spec_expected_byte(
                                            passes,
                                            i,
                                            (v + (m - v)) as u64,
                                        ));
                                        assert((v + (m - v)) as u64 == m as u64);
                                    }
                                }
                            }
                            job.bytes_verified_this_pass = v + chunk;
                            if job.bytes_verified_this_pass == size {
                                proof {
                                    let i = job.current_pass_index as int;
                                    let s = job.device_size as int;
                                    assert((i + 1) * s == i * s + s) by (nonlinear_arith);
                                }
                                advance_pass(job);
                            }
                        },
                    }
                },
                Err(DeviceError::Interrupted) => {},
                Err(DeviceError::Io) => {
                    job.outcome = Outcome::Failed(FailureReason::IoError);
                },
            }
        },
    }
}

/// Steps the job without cancellation until it leaves `Running`, but at most
/// `max_steps` times.  One step moves at most one chunk, so a caller bounds
/// the work per call; progress never decreases and no cancellation appears.
pub fn run<D: DriveAccessor>(job: &mut SanitizationJob, dev: &mut D, max_steps: usize)
    requires
        step_inv(*old(job), *old(dev)),
    ensures
        step_inv(*final(job), *final(dev)),
        final(job).method == old(job).method,
        final(job).device_path == old(job).device_path,
        final(job).device_size == old(job).device_size,
        final(job).chunk_size == old(job).chunk_size,
        final(dev).contents().len() == old(dev).contents().len(),
        spec_progress_num(*final(job)) >= spec_progress_num(*old(job)),
        spec_progress_den(*final(job)) == spec_progress_den(*old(job)),
        final(job).outcome == Outcome::Cancelled ==> old(job).outcome == Outcome::Cancelled,
{
    let mut t: usize = 0;
    let mut running = matches!(job.outcome, Outcome::Running);
    while running && t < max_steps
        invariant
            t <= max_steps,
            running == (job.outcome == Outcome::Running),
            step_inv(*job, *dev),
            job.method == old(job).method,
            job.device_path == old(job).device_path,
            job.device_size == old(job).device_size,
            job.chunk_size == old(job).chunk_size,
            dev.contents().len() == old(dev).contents().len(),
            spec_progress_num(*job) >= spec_progress_num(*old(job)),
            spec_progress_den(*job) == spec_progress_den(*old(job)),
            job.outcome == Outcome::Cancelled ==> old(job).outcome == Outcome::Cancelled,
        decreases max_steps - t,
    {
        step(job, dev, false);
        running = matches!(job.outcome, Outcome::Running);
        t += 1;
    }
}

} // verus!
