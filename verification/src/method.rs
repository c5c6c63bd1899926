//! Sanitization methods: overwrite patterns, the expected byte stream of a
//! pass, and the fixed catalog of named multi-pass standards.

use vstd::prelude::*;

verus! {

/// The byte pattern one pass writes across the device.
///
/// `PseudoRandom` carries its seed, fixed per pass, so a verification sweep
/// can regenerate the exact stream.  `Complement` writes the bitwise
/// complement of the immediately preceding pass's bytes.
#[derive(Clone, Copy, Debug, PartialEq, Eq, Structural)]
pub enum PassPattern {
    Zeros,
    Ones,
    PseudoRandom(u64),
    Complement,
}

/// One full sweep over the device: a pattern, optionally followed by a
/// read-back comparison of the whole device.
#[derive(Clone, Copy, Debug, PartialEq, Eq, Structural)]
pub struct Pass {
    pub pattern: PassPattern,
    pub verify: bool,
}

/// A named standard: an ordered, non-empty sequence of passes.
pub struct SanitizationMethod {
    pub name: String,
    pub passes: Vec<Pass>,
}

/// A usable method has at least one pass, and its first pass cannot be a
/// `Complement`, which needs a predecessor.
pub open spec fn method_passes_wf(passes: Seq<Pass>) -> bool {
    passes.len() > 0 && passes[0].pattern != PassPattern::Complement
}

/// The deterministic pseudo-random byte for a given seed and offset.
pub open spec fn spec_prng_byte(seed: u64, offset: u64) -> u8 {
    (((seed as int) + (offset as int) * 167 + ((seed as int) / 0x1_0000_0000) * 13 + ((
    offset as int) / 251) * 29) % 256) as u8
}

/// Regenerates the pseudo-random stream byte at `offset` for `seed`.
pub fn prng_byte(seed: u64, offset: u64) -> (b: u8)
    ensures
        b == spec_prng_byte(seed, offset),
{
    let s = seed as u128;
    let k = offset as u128;
    let v = (s + k * 167 + (s / 0x1_0000_0000) * 13 + (k / 251) * 29) % 256;
    v as u8
}

/// The byte pass number `i` of `passes` writes at `offset`.
///
/// A `Complement` pass writes the bitwise complement of its predecessor's
/// byte at the same offset; out-of-range pass numbers are read as zeros.
pub open spec fn spec_expected_byte(passes: Seq<Pass>, i: int, offset: u64) -> u8
    decreases i,
{
    if i < 0 || i >= passes.len() {
        0
    } else {
        match passes[i].pattern {
            PassPattern::Zeros => 0,
            PassPattern::Ones => 0xff,
            PassPattern::PseudoRandom(seed) => spec_prng_byte(seed, offset),
            PassPattern::Complement => if i == 0 {
                0
            } else {
                (255 - spec_expected_byte(passes, i - 1, offset)) as u8
            },
        }
    }
}

/// Computes the byte pass number `i` writes at `offset`.
pub fn expected_byte(passes: &Vec<Pass>, i: usize, offset: u64) -> (b: u8)
    requires
        i < passes@.len(),
    ensures
        b == spec_expected_byte(passes@, i as int, offset),
    decreases i,
{
    match passes[i].pattern {
        PassPattern::Zeros => 0,
        PassPattern::Ones => 0xff,
        PassPattern::PseudoRandom(seed) => prng_byte(seed, offset),
        PassPattern::Complement => if i == 0 {
            0
        } else {
            255 - expected_byte(passes, i - 1, offset)
        },
    }
}

/// Produces the `count` pattern bytes of pass `i` beginning at `start`.
pub fn fill_pattern(passes: &Vec<Pass>, i: usize, start: u64, count: usize) -> (buf: Vec<u8>)
    requires
        i < passes@.len(),
        start + count <= u64::MAX,
    ensures
        buf@.len() == count,
        forall|j: int|
            0 <= j < count ==> buf@[j] == spec_expected_byte(passes@, i as int, (start + j) as u64),
{
    let mut buf: Vec<u8> = Vec::new();
    let mut j: usize = 0;
    while j < count
        invariant
            j <= count,
            i < passes@.len(),
            start + count <= u64::MAX,
            buf@.len() == j,
            forall|k: int|
                0 <= k < j ==> buf@[k] == spec_expected_byte(passes@, i as int, (start + k) as u64),
        decreases count - j,
    {
        buf.push(expected_byte(passes, i, start + j as u64));
        j += 1;
    }
    buf
}

/// Copies a method: same name, same passes.
pub fn clone_method(m: &SanitizationMethod) -> (r: SanitizationMethod)
    ensures
        r.name@ == m.name@,
        r.passes@ == m.passes@,
{
    let mut passes: Vec<Pass> = Vec::new();
    let mut i: usize = 0;
    while i < m.passes.len()
        invariant
            i <= m.passes@.len(),
            passes@ == m.passes@.take(i as int),
        decreases m.passes@.len() - i,
    {
        passes.push(m.passes[i]);
        proof {
            assert(passes@ =~= m.passes@.take(i + 1));
        }
        i += 1;
    }
    proof {
        assert(m.passes@.take(m.passes@.len() as int) =~= m.passes@);
    }
    SanitizationMethod { name: m.name.clone(), passes }
}

/// A pass writing zeros.
pub open spec fn pass_zeros(verify: bool) -> Pass {
    Pass { pattern: PassPattern::Zeros, verify }
}

/// A pass writing ones.
pub open spec fn pass_ones(verify: bool) -> Pass {
    Pass { pattern: PassPattern::Ones, verify }
}

/// A pseudo-random pass with the given per-pass seed.
pub open spec fn pass_random(seed: u64, verify: bool) -> Pass {
    Pass { pattern: PassPattern::PseudoRandom(seed), verify }
}

/// The pass plan of catalog entry `i`, reproducing the historical standards'
/// pass and verify counts.
pub open spec fn spec_catalog_passes(i: int) -> Seq<Pass> {
    if i == 0 {
        seq![pass_zeros(true)]
    } else if i == 1 {
        seq![pass_zeros(false), pass_random(2, false)]
    } else if i == 2 {
        seq![pass_ones(false), pass_zeros(false), pass_random(3, true)]
    } else if i == 3 {
        seq![pass_zeros(false), pass_ones(false), pass_random(3, true)]
    } else if i == 4 {
        seq![pass_zeros(true), pass_ones(true), pass_random(3, true)]
    } else if i == 5 {
        seq![
            pass_zeros(false),
            pass_ones(false),
            pass_random(3, false),
            pass_zeros(false),
            pass_ones(false),
            pass_random(6, false),
            pass_zeros(true),
        ]
    } else if i == 6 || i == 7 {
        seq![
            pass_zeros(false),
            pass_ones(false),
            pass_zeros(false),
            pass_ones(false),
            pass_zeros(false),
            pass_ones(false),
            pass_random(7, true),
        ]
    } else {
        Seq::empty()
    }
}

/// Number of verifying passes in `passes`, counted from position `i` on.
pub open spec fn count_verify_from(passes: Seq<Pass>, i: int) -> int
    decreases passes.len() - i,
{
    if i < 0 || i >= passes.len() {
        0
    } else {
        (if passes[i].verify {
            1int
        } else {
            0int
        }) + count_verify_from(passes, i + 1)
    }
}

/// Number of passes flagged `verify` in `passes`.
pub open spec fn spec_verify_count(passes: Seq<Pass>) -> int {
    count_verify_from(passes, 0)
}

/// For every entry of the fixed catalog, the total pass count matches the
/// standard's rewrite count and the number of verifying passes matches its
/// verify count: one rewrite with one verify; two rewrites unverified; the
/// two three-rewrite schemes with one final verify; three rewrites each
/// verified; and the three seven-rewrite schemes, each verifying once at the
/// end.  Every entry is a well-formed pass plan.
pub proof fn lemma_catalog_counts()
    ensures
        spec_catalog_passes(0).len() == 1 && spec_verify_count(spec_catalog_passes(0)) == 1,
        spec_catalog_passes(1).len() == 2 && spec_verify_count(spec_catalog_passes(1)) == 0,
        spec_catalog_passes(2).len() == 3 && spec_verify_count(spec_catalog_passes(2)) == 1,
        spec_catalog_passes(3).len() == 3 && spec_verify_count(spec_catalog_passes(3)) == 1,
        spec_catalog_passes(4).len() == 3 && spec_verify_count(spec_catalog_passes(4)) == 3,
        spec_catalog_passes(5).len() == 7 && spec_verify_count(spec_catalog_passes(5)) == 1,
        spec_catalog_passes(6).len() == 7 && spec_verify_count(spec_catalog_passes(6)) == 1,
        spec_catalog_passes(7).len() == 7 && spec_verify_count(spec_catalog_passes(7)) == 1,
        forall|i: int| 0 <= i < 8 ==> method_passes_wf(#[trigger] spec_catalog_passes(i)),
{
    reveal_with_fuel(count_verify_from, 9);
}

/// Builds the fixed catalog of sanitization standards, in display order.
pub fn sanitization_methods() -> (r: Vec<SanitizationMethod>)
    ensures
        r@.len() == 8,
        forall|i: int| 0 <= i < 8 ==> (#[trigger] r@[i]).passes@ == spec_catalog_passes(i),
        forall|i: int| 0 <= i < 8 ==> method_passes_wf(#[trigger] r@[i].passes@),
        r@[0].name@ == "British HMG IS5 (1 rewrite and 1 verify)"@,
        r@[1].name@ == "Russian GOST P50739-95 (2 rewrites)"@,
        r@[2].name@ == "NAVSO P-5239-26 (RLL), (3 rewrites and 1 verify)"@,
        r@[3].name@ == "NAVSO P-5239-26 (ALT), (3 rewrites and 1 verify)"@,
        r@[4].name@ == "Department of Defense (DoD, USA 5220.22-M) (3 rewrites and 3 verify)"@,
        r@[5].name@ == "Department of Defense (DoD, USA 5220.22-M ECE) (7 rewrites)"@,
        r@[6].name@ == "Canadian RCMP TSSIT OPS-II (7 rewrites)"@,
        r@[7].name@ == "German VSITR (7 rewrites)"@,
{
    let mut r: Vec<SanitizationMethod> = Vec::new();
    r.push(SanitizationMethod {
        name: "British HMG IS5 (1 rewrite and 1 verify)".to_owned(),
        passes: vec![Pass { pattern: PassPattern::Zeros, verify: true }],
    });
    r.push(SanitizationMethod {
        name: "Russian GOST P50739-95 (2 rewrites)".to_owned(),
        passes: vec![
            Pass { pattern: PassPattern::Zeros, verify: false },
            Pass { pattern: PassPattern::PseudoRandom(2), verify: false },
        ],
    });
    r.push(SanitizationMethod {
        name: "NAVSO P-5239-26 (RLL), (3 rewrites and 1 verify)".to_owned(),
        passes: vec![
            Pass { pattern: PassPattern::Ones, verify: false },
            Pass { pattern: PassPattern::Zeros, verify: false },
            Pass { pattern: PassPattern::PseudoRandom(3), verify: true },
        ],
    });
    r.push(SanitizationMethod {
        name: "NAVSO P-5239-26 (ALT), (3 rewrites and 1 verify)".to_owned(),
        passes: vec![
            Pass { pattern: PassPattern::Zeros, verify: false },
            Pass { pattern: PassPattern::Ones, verify: false },
            Pass { pattern: PassPattern::PseudoRandom(3), verify: true },
        ],
    });
    r.push(SanitizationMethod {
        name: "Department of Defense (DoD, USA 5220.22-M) (3 rewrites and 3 verify)".to_owned(),
        passes: vec![
            Pass { pattern: PassPattern::Zeros, verify: true },
            Pass { pattern: PassPattern::Ones, verify: true },
            Pass { pattern: PassPattern::PseudoRandom(3), verify: true },
        ],
    });
    r.push(SanitizationMethod {
        name: "Department of Defense (DoD, USA 5220.22-M ECE) (7 rewrites)".to_owned(),
        passes: vec![
            Pass { pattern: PassPattern::Zeros, verify: false },
            Pass { pattern: PassPattern::Ones, verify: false },
            Pass { pattern: PassPattern::PseudoRandom(3), verify: false },
            Pass { pattern: PassPattern::Zeros, verify: false },
            Pass { pattern: PassPattern::Ones, verify: false },
            Pass { pattern: PassPattern::PseudoRandom(6), verify: false },
            Pass { pattern: PassPattern::Zeros, verify: true },
        ],
    });
    r.push(SanitizationMethod {
        name: "Canadian RCMP TSSIT OPS-II (7 rewrites)".to_owned(),
        passes: vec![
            Pass { pattern: PassPattern::Zeros, verify: false },
            Pass { pattern: PassPattern::Ones, verify: false },
            Pass { pattern: PassPattern::Zeros, verify: false },
            Pass { pattern: PassPattern::Ones, verify: false },
            Pass { pattern: PassPattern::Zeros, verify: false },
            Pass { pattern: PassPattern::Ones, verify: false },
            Pass { pattern: PassPattern::PseudoRandom(7), verify: true },
        ],
    });
    r.push(SanitizationMethod {
        name: "German VSITR (7 rewrites)".to_owned(),
        passes: vec![
            Pass { pattern: PassPattern::Zeros, verify: false },
            Pass { pattern: PassPattern::Ones, verify: false },
            Pass { pattern: PassPattern::Zeros, verify: false },
            Pass { pattern: PassPattern::Ones, verify: false },
            Pass { pattern: PassPattern::Zeros, verify: false },
            Pass { pattern: PassPattern::Ones, verify: false },
            Pass { pattern: PassPattern::PseudoRandom(7), verify: true },
        ],
    });
    proof {
        assert(r@[0].passes@ =~= spec_catalog_passes(0));
        assert(r@[1].passes@ =~= spec_catalog_passes(1));
        assert(r@[2].passes@ =~= spec_catalog_passes(2));
        assert(r@[3].passes@ =~= spec_catalog_passes(3));
        assert(r@[4].passes@ =~= spec_catalog_passes(4));
        assert(r@[5].passes@ =~= spec_catalog_passes(5));
        assert(r@[6].passes@ =~= spec_catalog_passes(6));
        assert(r@[7].passes@ =~= spec_catalog_passes(7));
        lemma_catalog_counts();
    }
    r
}

} // verus!
