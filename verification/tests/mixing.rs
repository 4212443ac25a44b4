use photolibrariancore::repro::mixing::{
    hex_digit_text, mix64, synthetic_attempt_id, unit_fraction,
};

#[test]
fn mixer_values() {
    assert_eq!(mix64(0), 0xe220a8397b1dcdaf);
    assert_eq!(mix64(1), 0x910a2dec89025cc1);
    assert_eq!(mix64(42), 0xbdd732262feb6e95);
    assert_eq!(mix64(u64::MAX), 0xe4d971771b652c20);
}

#[test]
fn mixer_keeps_values_apart() {
    let mut seen: Vec<u64> = (0u64..2000).map(mix64).collect();
    seen.sort_unstable();
    seen.dedup();
    assert_eq!(seen.len(), 2000);
}

#[test]
fn fractions_are_the_top_bits() {
    assert_eq!(unit_fraction(mix64(7), 1), 2155282925591136);
    assert!(unit_fraction(u64::MAX, 11) < 1 << 53);
}

#[test]
fn attempt_identifiers() {
    assert_eq!(synthetic_attempt_id(None, 0, 0), "444F91FA-07CD-C2C5-9281-98FF12C6B8C1");
    assert_eq!(
        synthetic_attempt_id(Some(1700000000123456789), 4242, 3),
        "E87A0573-194F-0E6F-85A2-BACA092C3D8E"
    );
}

#[test]
fn attempt_identifiers_take_the_low_bits_of_the_clock() {
    assert_eq!(
        synthetic_attempt_id(Some((1u128 << 64) + 5), 1, 1),
        "86A72558-A4E2-4ECD-D40F-9381162EFA55"
    );
    assert_eq!(synthetic_attempt_id(Some(5), 1, 1), synthetic_attempt_id(Some((1u128 << 64) + 5), 1, 1));
}

#[test]
fn attempt_identifiers_differ_between_passes() {
    assert_ne!(synthetic_attempt_id(Some(9), 8, 1), synthetic_attempt_id(Some(9), 8, 2));
}

#[test]
fn attempt_identifiers_are_upper_case_uuids() {
    let id = synthetic_attempt_id(Some(12345), 77, 2);
    assert_eq!(id.len(), 36);
    for (i, c) in id.chars().enumerate() {
        if i == 8 || i == 13 || i == 18 || i == 23 {
            assert_eq!(c, '-');
        } else {
            assert!(c.is_ascii_digit() || ('A'..='F').contains(&c));
        }
    }
}

#[test]
fn hexadecimal_digits_are_upper_case() {
    let all: String = (0u8..16).map(hex_digit_text).collect();
    assert_eq!(all, "0123456789ABCDEF");
}
