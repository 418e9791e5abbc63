use mypitch::bits::{clamp_unit, finite, positive, reaches, INFINITY, ONE, SIGN, ZERO};
use mypitch::pitch::{clears_gate, usable_frequency, CONFIDENCE_GATE, SEARCH_THRESHOLD};

fn sweep() -> Vec<u32> {
    let mut patterns = vec![
        0u32,
        1,
        0x007F_FFFF,
        0x0080_0000,
        0x3DA3_D709,
        0x3DA3_D70A,
        0x3DA3_D70B,
        0x3F7F_FFFF,
        0x3F80_0000,
        0x3F80_0001,
        0x7F7F_FFFF,
        0x7F80_0000,
        0x7F80_0001,
        0x7FC0_0000,
        0x7FFF_FFFF,
        0x8000_0000,
        0x8000_0001,
        0xBF80_0000,
        0xFF7F_FFFF,
        0xFF80_0000,
        0xFF80_0001,
        0xFFC0_0000,
        0xFFFF_FFFF,
    ];
    let mut p: u32 = 0;
    loop {
        patterns.push(p);
        match p.checked_add(0x0003_1337) {
            Some(next) => p = next,
            None => break,
        }
    }
    patterns
}

#[test]
fn named_patterns_are_the_numbers() {
    assert_eq!(ZERO, 0.0f32.to_bits());
    assert_eq!(ONE, 1.0f32.to_bits());
    assert_eq!(INFINITY, f32::INFINITY.to_bits());
    assert_eq!(SIGN, (-0.0f32).to_bits());
    assert_eq!(CONFIDENCE_GATE, 0.08f32.to_bits());
    assert_eq!(SEARCH_THRESHOLD, 0.15f64.to_bits());
}

#[test]
fn finite_agrees_with_the_numbers() {
    for b in sweep() {
        assert_eq!(finite(b), f32::from_bits(b).is_finite(), "pattern {:#x}", b);
    }
}

#[test]
fn positive_agrees_with_the_numbers() {
    for b in sweep() {
        assert_eq!(positive(b), f32::from_bits(b) > 0.0, "pattern {:#x}", b);
    }
}

#[test]
fn reaches_agrees_with_the_numbers() {
    let thresholds = [
        0.0f32,
        -0.0,
        0.08,
        0.5,
        1.0,
        440.0,
        -0.5,
        -440.0,
        f32::MIN_POSITIVE,
        f32::INFINITY,
        f32::NEG_INFINITY,
        f32::NAN,
    ];
    for t in thresholds {
        for b in sweep() {
            assert_eq!(
                reaches(b, t.to_bits()),
                f32::from_bits(b) >= t,
                "pattern {:#x} against {}",
                b,
                t
            );
        }
    }
}

#[test]
fn gate_agrees_with_the_numbers() {
    for b in sweep() {
        assert_eq!(clears_gate(b), f32::from_bits(b) >= 0.08, "pattern {:#x}", b);
    }
    assert!(clears_gate(0.08f32.to_bits()));
    assert!(!clears_gate(0.079999f32.to_bits()));
    assert!(clears_gate(1.0f32.to_bits()));
    assert!(!clears_gate(f32::NAN.to_bits()));
    assert!(!clears_gate((-1.0f32).to_bits()));
}

#[test]
fn usable_frequency_agrees_with_the_numbers() {
    for b in sweep() {
        let f = f32::from_bits(b);
        assert_eq!(usable_frequency(b), f.is_finite() && f > 0.0, "pattern {:#x}", b);
    }
    assert!(usable_frequency(440.0f32.to_bits()));
    assert!(!usable_frequency(0.0f32.to_bits()));
    assert!(!usable_frequency(f32::INFINITY.to_bits()));
    assert!(!usable_frequency(f32::NAN.to_bits()));
    assert!(!usable_frequency((-440.0f32).to_bits()));
}

#[test]
fn clamp_agrees_with_the_numbers() {
    for b in sweep() {
        let f = f32::from_bits(b);
        let clamped = f.clamp(0.0, 1.0);
        if f.is_nan() {
            assert_eq!(clamp_unit(b), b, "pattern {:#x}", b);
        } else {
            assert_eq!(clamp_unit(b), clamped.to_bits(), "pattern {:#x}", b);
            let back = f32::from_bits(clamp_unit(b));
            assert!(back >= 0.0 && back <= 1.0);
        }
    }
}

#[test]
fn clamp_exact_values() {
    assert_eq!(clamp_unit(2.5f32.to_bits()), 1.0f32.to_bits());
    assert_eq!(clamp_unit((-0.25f32).to_bits()), 0.0f32.to_bits());
    assert_eq!(clamp_unit(0.25f32.to_bits()), 0.25f32.to_bits());
    assert_eq!(clamp_unit(f32::INFINITY.to_bits()), 1.0f32.to_bits());
    assert_eq!(clamp_unit(f32::NEG_INFINITY.to_bits()), 0.0f32.to_bits());
}
