use hid_report::output::{build, build_with_random_colors, oscillator_phase, OUTPUT_REPORT_LEN};

#[test]
fn header_and_fixed_bytes() {
    let r = build(1, 9, [1, 2, 3, 4, 5, 6]);
    assert_eq!(r.bytes.len(), OUTPUT_REPORT_LEN);
    assert_eq!(&r.bytes[0..3], &[0x02, 0xff, 0xf7]);
    assert_eq!(r.motors(), (9, 9));
    assert_eq!(r.bytes[45], 0xff);
    assert_eq!(r.player_led(), 1);
}

#[test]
fn same_inputs_give_identical_reports() {
    for tick in [0u64, 25, 26, 49, 300, 12345] {
        assert_eq!(build(tick, 100, [7, 8, 9, 10, 11, 12]), build(tick, 100, [7, 8, 9, 10, 11, 12]));
    }
}

#[test]
fn random_reports_differ_only_in_colors() {
    let mut differing = 0;
    for tick in 0..200u64 {
        let a = build_with_random_colors(tick, 50);
        let b = build_with_random_colors(tick, 50);
        for i in 0..OUTPUT_REPORT_LEN {
            if !(23..29).contains(&i) {
                assert_eq!(a.bytes[i], b.bytes[i]);
            }
        }
        assert_eq!(a, build(tick, 50, a.colors()));
        if (tick % 50) > 25 && a.colors() != b.colors() {
            differing += 1;
        }
    }
    assert!(differing > 0);
}

#[test]
fn flash_boundary_25_dark_26_flashing() {
    let dark = build(25, 0, [1, 2, 3, 4, 5, 6]);
    assert_eq!(dark.flash_enable(), 0);
    assert_eq!(dark.colors(), [0; 6]);
    let lit = build(26, 0, [1, 2, 3, 4, 5, 6]);
    assert_eq!(lit.flash_enable(), 0xfd);
    assert_eq!(lit.colors(), [1, 2, 3, 4, 5, 6]);
    assert_eq!(build(75, 0, [1; 6]).flash_enable(), 0);
    assert_eq!(build(76, 0, [1; 6]).flash_enable(), 0xfd);
    assert_eq!(build(49, 0, [1; 6]).flash_enable(), 0xfd);
    assert_eq!(build(50, 0, [1; 6]).flash_enable(), 0);
}

#[test]
fn dark_random_report_has_zero_colors() {
    let r = build_with_random_colors(10, 3);
    assert_eq!(r.colors(), [0; 6]);
    assert_eq!(r.flash_enable(), 0);
}

#[test]
fn player_led_cycles_modulo_255() {
    for tick in 0..300u64 {
        assert_eq!(build(tick, 0, [0; 6]).player_led() as u64, tick % 255);
    }
    assert_eq!(build(255, 0, [0; 6]).player_led(), 0);
    assert_eq!(build(254, 0, [0; 6]).player_led(), 254);
}

#[test]
fn oscillator_phase_wraps() {
    assert_eq!(oscillator_phase(9999), 9999);
    assert_eq!(oscillator_phase(10000), 0);
    assert_eq!(oscillator_phase(10003), 3);
}
