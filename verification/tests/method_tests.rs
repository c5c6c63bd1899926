//! The fixed catalog and the deterministic pattern streams.

use minuteman::method::{
    expected_byte, fill_pattern, prng_byte, Pass, PassPattern, sanitization_methods,
};

fn verify_count(passes: &[Pass]) -> usize {
    passes.iter().filter(|p| p.verify).count()
}

#[test]
fn catalog_names_are_the_display_names() {
    let methods = sanitization_methods();
    let names: Vec<&str> = methods.iter().map(|m| m.name.as_str()).collect();
    assert_eq!(
        names,
        vec![
            "British HMG IS5 (1 rewrite and 1 verify)",
            "Russian GOST P50739-95 (2 rewrites)",
            "NAVSO P-5239-26 (RLL), (3 rewrites and 1 verify)",
            "NAVSO P-5239-26 (ALT), (3 rewrites and 1 verify)",
            "Department of Defense (DoD, USA 5220.22-M) (3 rewrites and 3 verify)",
            "Department of Defense (DoD, USA 5220.22-M ECE) (7 rewrites)",
            "Canadian RCMP TSSIT OPS-II (7 rewrites)",
            "German VSITR (7 rewrites)",
        ]
    );
}

#[test]
fn catalog_pass_and_verify_counts_match_the_standards() {
    let methods = sanitization_methods();
    let counts: Vec<(usize, usize)> =
        methods.iter().map(|m| (m.passes.len(), verify_count(&m.passes))).collect();
    assert_eq!(
        counts,
        vec![(1, 1), (2, 0), (3, 1), (3, 1), (3, 3), (7, 1), (7, 1), (7, 1)]
    );
}

#[test]
fn catalog_pass_shapes_follow_the_table() {
    let methods = sanitization_methods();
    // British HMG IS5: a single verified zero pass.
    assert_eq!(methods[0].passes, vec![Pass { pattern: PassPattern::Zeros, verify: true }]);
    // Russian GOST: zeros then pseudo-random, unverified.
    assert!(matches!(methods[1].passes[0].pattern, PassPattern::Zeros));
    assert!(matches!(methods[1].passes[1].pattern, PassPattern::PseudoRandom(_)));
    // DoD 5220.22-M: zeros, ones, random, each verified.
    assert!(matches!(methods[4].passes[0].pattern, PassPattern::Zeros));
    assert!(matches!(methods[4].passes[1].pattern, PassPattern::Ones));
    assert!(matches!(methods[4].passes[2].pattern, PassPattern::PseudoRandom(_)));
    // The seven-pass schemes verify only on their final pass.
    for m in &methods[5..8] {
        assert_eq!(m.passes.len(), 7);
        for p in &m.passes[..6] {
            assert!(!p.verify);
        }
        assert!(m.passes[6].verify);
    }
    // RCMP and VSITR alternate zeros and ones, then one random pass.
    for m in &methods[6..8] {
        for (i, p) in m.passes[..6].iter().enumerate() {
            if i % 2 == 0 {
                assert!(matches!(p.pattern, PassPattern::Zeros));
            } else {
                assert!(matches!(p.pattern, PassPattern::Ones));
            }
        }
        assert!(matches!(m.passes[6].pattern, PassPattern::PseudoRandom(_)));
    }
}

#[test]
fn pattern_bytes_are_deterministic() {
    assert_eq!(prng_byte(5, 1000), prng_byte(5, 1000));
    let passes = vec![
        Pass { pattern: PassPattern::PseudoRandom(5), verify: false },
        Pass { pattern: PassPattern::Complement, verify: false },
    ];
    for k in 0..64 {
        let a = expected_byte(&passes, 0, k);
        let b = expected_byte(&passes, 1, k);
        assert_eq!(a, prng_byte(5, k));
        assert_eq!(b, 255 - a);
    }
}

#[test]
fn fill_pattern_produces_exact_bytes() {
    let passes = vec![
        Pass { pattern: PassPattern::Zeros, verify: false },
        Pass { pattern: PassPattern::Ones, verify: false },
    ];
    let zeros = fill_pattern(&passes, 0, 100, 8);
    assert_eq!(zeros, vec![0u8; 8]);
    let ones = fill_pattern(&passes, 1, 0, 5);
    assert_eq!(ones, vec![0xFFu8; 5]);
}

#[test]
fn prng_byte_has_an_exact_known_value() {
    // The stream formula pinned to one concrete input:
    // (seed + offset*167 + (seed / 2^32)*13 + (offset / 251)*29) mod 256.
    let seed: u64 = 0x1_0000_0007;
    let offset: u64 = 502;
    let expect = ((seed as u128 + 502 * 167 + 1 * 13 + 2 * 29) % 256) as u8;
    assert_eq!(prng_byte(seed, offset), expect);
}
