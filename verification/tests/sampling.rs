use frame_sampler::sampler::is_selected;
use frame_sampler::text::{decimal_text, hex_text};
use frame_sampler::timing::presentation_seconds;

#[test]
fn stride_of_three_takes_every_third_frame() {
    let mut taken: Vec<u128> = Vec::new();
    for ordinal in 1..=10u128 {
        if is_selected(ordinal, 3) {
            taken.push(ordinal);
        }
    }
    assert_eq!(taken, vec![3, 6, 9]);
}

#[test]
fn stride_of_one_takes_every_frame() {
    for ordinal in 1..=20u128 {
        assert!(is_selected(ordinal, 1));
    }
}

#[test]
fn stride_of_zero_takes_nothing() {
    for ordinal in 0..=20u128 {
        assert!(!is_selected(ordinal, 0));
    }
}

#[test]
fn stride_larger_than_the_run_takes_nothing() {
    for ordinal in 1..=29u128 {
        assert!(!is_selected(ordinal, 30));
    }
    assert!(is_selected(30, 30));
}

#[test]
fn taken_ordinals_are_the_multiples_of_the_stride() {
    for stride in 1..=12u32 {
        for frames in 0..=60u128 {
            let mut taken: Vec<u128> = Vec::new();
            for ordinal in 1..=frames {
                if is_selected(ordinal, stride) {
                    taken.push(ordinal);
                }
            }
            let mut multiples: Vec<u128> = Vec::new();
            let mut k: u128 = 1;
            while k * (stride as u128) <= frames {
                multiples.push(k * (stride as u128));
                k += 1;
            }
            assert_eq!(taken, multiples);
        }
    }
}

#[test]
fn gate_holds_at_the_top_of_the_counter() {
    assert!(is_selected(u128::MAX, 1));
    assert!(is_selected(u128::MAX, 3));
    assert!(!is_selected(u128::MAX, 2));
    assert!(is_selected(u128::MAX - 1, 2));
}

#[test]
fn decimal_of_small_and_large_numbers() {
    assert_eq!(decimal_text(0), "0");
    assert_eq!(decimal_text(7), "7");
    assert_eq!(decimal_text(10), "10");
    assert_eq!(decimal_text(12345), "12345");
    assert_eq!(decimal_text(1_000_000_007), "1000000007");
    assert_eq!(decimal_text(u128::MAX), "340282366920938463463374607431768211455");
}

#[test]
fn decimal_agrees_with_the_standard_rendering() {
    let mut n: u128 = 1;
    for _ in 0..38 {
        assert_eq!(decimal_text(n), format!("{}", n));
        assert_eq!(decimal_text(n - 1), format!("{}", n - 1));
        n *= 10;
    }
}

#[test]
fn hex_of_bytes() {
    assert_eq!(hex_text(&[]), "");
    assert_eq!(hex_text(&[0x00]), "00");
    assert_eq!(hex_text(&[0x0f, 0xf0]), "0ff0");
    assert_eq!(hex_text(&[0xde, 0xad, 0xbe, 0xef]), "deadbeef");
    assert_eq!(hex_text(&[0x01, 0x23, 0x45, 0x67, 0x89, 0xab, 0xcd, 0xef]), "0123456789abcdef");
}

#[test]
fn hex_agrees_with_the_standard_rendering() {
    for b in 0..=255u8 {
        assert_eq!(hex_text(&[b]), format!("{:02x}", b));
    }
}

#[test]
fn seconds_of_a_ninety_kilohertz_clock() {
    assert_eq!(presentation_seconds(0, 1, 90000), Some(0));
    assert_eq!(presentation_seconds(90000, 1, 90000), Some(1));
    assert_eq!(presentation_seconds(450000, 1, 90000), Some(5));
    assert_eq!(presentation_seconds(89999, 1, 90000), Some(0));
    assert_eq!(presentation_seconds(179999, 1, 90000), Some(1));
}

#[test]
fn seconds_round_toward_zero() {
    assert_eq!(presentation_seconds(7, 1, 2), Some(3));
    assert_eq!(presentation_seconds(-7, 1, 2), Some(-3));
    assert_eq!(presentation_seconds(7, 1, -2), Some(-3));
    assert_eq!(presentation_seconds(-7, 1, -2), Some(3));
    assert_eq!(presentation_seconds(7, -1, 2), Some(-3));
    assert_eq!(presentation_seconds(-1, 1, 2), Some(0));
}

#[test]
fn seconds_with_a_numerator() {
    assert_eq!(presentation_seconds(30, 1001, 30000), Some(1));
    assert_eq!(presentation_seconds(100, 3, 4), Some(75));
    assert_eq!(presentation_seconds(12, 0, 5), Some(0));
}

#[test]
fn seconds_of_a_linear_clock_are_the_seconds_since_start() {
    for t in 0..200i64 {
        assert_eq!(presentation_seconds(t * 90000, 1, 90000), Some(t));
        assert_eq!(presentation_seconds(t * 30, 1, 30), Some(t));
        assert_eq!(presentation_seconds(t * 1000, 2, 2000), Some(t));
    }
}

#[test]
fn seconds_without_a_denominator() {
    assert_eq!(presentation_seconds(90000, 1, 0), None);
    assert_eq!(presentation_seconds(0, 0, 0), None);
}

#[test]
fn seconds_that_do_not_fit() {
    assert_eq!(presentation_seconds(i64::MAX, 2, 1), None);
    assert_eq!(presentation_seconds(i64::MIN, 2, 1), None);
    assert_eq!(presentation_seconds(i64::MIN, 1, -1), None);
    assert_eq!(presentation_seconds(i64::MAX, i32::MAX, 1), None);
}

#[test]
fn seconds_at_the_edges_of_the_range() {
    assert_eq!(presentation_seconds(i64::MAX, 1, 1), Some(i64::MAX));
    assert_eq!(presentation_seconds(i64::MIN, 1, 1), Some(i64::MIN));
    assert_eq!(presentation_seconds(i64::MAX, -1, -1), Some(i64::MAX));
    assert_eq!(presentation_seconds(i64::MAX, 2, 2), Some(i64::MAX));
    assert_eq!(presentation_seconds(i64::MIN, i32::MIN, i32::MIN), Some(i64::MIN));
}
