use hid_report::decoder::{decode, decode_report, DecodedValue};
use hid_report::schema::{controller_schema, Field, FieldProblem, Interpretation, Schema, SchemaError, INPUT_REPORT_LEN};

fn report_with(byte_index: usize, value: u8) -> Vec<u8> {
    let mut r = vec![0u8; INPUT_REPORT_LEN];
    r[byte_index] = value;
    r
}

fn pressed(report: &[u8], field: &Field) -> bool {
    match decode(report, field) {
        Some(DecodedValue::Pressed(b)) => b,
        other => panic!("unexpected {:?}", other),
    }
}

fn field_named(schema: &Schema, name: &str) -> Field {
    schema.fields.iter().find(|f| f.name == name).unwrap().clone()
}

#[test]
fn flag_reads_bit_of_extracted_value() {
    let f = Field::new("b".to_string(), 4, 4, Interpretation::Flag(2)).unwrap();
    assert!(pressed(&[0b0100_0000], &f));
    assert!(!pressed(&[0b1011_1111], &f));
}

#[test]
fn flag_bit_beyond_width_is_a_configuration_error() {
    let r = Field::new("b".to_string(), 4, 4, Interpretation::Flag(4));
    assert_eq!(r.unwrap_err(), FieldProblem::FlagBitOutOfRange);
    let ok = Field::new("b".to_string(), 4, 4, Interpretation::Flag(3));
    assert!(ok.is_ok());
}

#[test]
fn invalid_widths_are_rejected() {
    assert_eq!(Field::new("z".to_string(), 0, 0, Interpretation::Magnitude).unwrap_err(), FieldProblem::InvalidWidth);
    assert_eq!(Field::new("z".to_string(), 0, 9, Interpretation::Magnitude).unwrap_err(), FieldProblem::InvalidWidth);
    assert_eq!(Field::new("z".to_string(), 6, 4, Interpretation::Magnitude).unwrap_err(), FieldProblem::CrossesByteBoundary);
}

#[test]
fn schema_rejects_field_outside_report() {
    let inside = Field::new("a".to_string(), 8, 8, Interpretation::Magnitude).unwrap();
    let outside = Field::new("b".to_string(), 16, 8, Interpretation::Magnitude).unwrap();
    let err = Schema::new(2, vec![inside.clone(), outside]).unwrap_err();
    assert_eq!(err, SchemaError { index: 1, problem: FieldProblem::OutsideReport });
    assert!(Schema::new(2, vec![inside]).is_ok());
}

#[test]
fn dpad_set_membership() {
    let s = controller_schema();
    let names = ["arrow_up", "arrow_right", "arrow_down", "arrow_left"];
    let read = |raw: u8| -> Vec<bool> {
        let r = report_with(8, raw);
        names.iter().map(|n| pressed(&r, &field_named(&s, n))).collect()
    };
    assert_eq!(read(0), vec![true, false, false, false]);
    assert_eq!(read(2), vec![false, true, false, false]);
    assert_eq!(read(8), vec![false, false, false, false]);
    assert_eq!(read(3), vec![false, true, true, false]);
    assert_eq!(read(7), vec![true, false, false, true]);
}

#[test]
fn magnitude_is_raw_byte_for_every_value() {
    let f = Field::new("L2".to_string(), 40, 8, Interpretation::Magnitude).unwrap();
    for v in 0..=255u8 {
        let r = report_with(5, v);
        assert_eq!(decode(&r, &f), Some(DecodedValue::Magnitude(v)));
    }
}

#[test]
fn other_bits_do_not_change_decoded_value() {
    let f = Field::new("n".to_string(), 10, 3, Interpretation::Magnitude).unwrap();
    // bits 10..13 are bits 2..5 of byte 1
    let base = vec![0u8, 0b0001_0100, 0];
    let noisy = vec![0xffu8, 0b1111_0111, 0xff];
    assert_eq!(decode(&base, &f), Some(DecodedValue::Magnitude(0b101)));
    assert_eq!(decode(&noisy, &f), Some(DecodedValue::Magnitude(0b101)));
}

#[test]
fn face_buttons_triangle_only() {
    let s = controller_schema();
    let r = report_with(8, 0b1000_1000);
    assert!(pressed(&r, &field_named(&s, "triangle")));
    assert!(!pressed(&r, &field_named(&s, "circle")));
    assert!(!pressed(&r, &field_named(&s, "cross")));
    assert!(!pressed(&r, &field_named(&s, "square")));
}

#[test]
fn face_buttons_low_bit_of_high_nibble_is_square() {
    let s = controller_schema();
    let r = report_with(8, 0b0001_1000);
    assert!(!pressed(&r, &field_named(&s, "triangle")));
    assert!(!pressed(&r, &field_named(&s, "circle")));
    assert!(!pressed(&r, &field_named(&s, "cross")));
    assert!(pressed(&r, &field_named(&s, "square")));
}

#[test]
fn short_report_is_skipped() {
    let s = controller_schema();
    let f = field_named(&s, "triangle");
    assert_eq!(decode(&[0u8; 8], &f), None);
    assert!(decode_report(&[0u8; 8], &s).is_none());
}

#[test]
fn full_report_decodes_every_field_in_order() {
    let s = controller_schema();
    let mut r = report_with(8, 0b0100_0010);
    r[5] = 200;
    r[6] = 17;
    let st = decode_report(&r, &s).unwrap();
    let got: Vec<(String, DecodedValue)> = st.readings.iter().map(|x| (x.name.clone(), x.value)).collect();
    let p = DecodedValue::Pressed;
    assert_eq!(
        got,
        vec![
            ("triangle".to_string(), p(false)),
            ("circle".to_string(), p(true)),
            ("cross".to_string(), p(false)),
            ("square".to_string(), p(false)),
            ("arrow_up".to_string(), p(false)),
            ("arrow_right".to_string(), p(true)),
            ("arrow_down".to_string(), p(false)),
            ("arrow_left".to_string(), p(false)),
            ("L2".to_string(), DecodedValue::Magnitude(200)),
            ("R2".to_string(), DecodedValue::Magnitude(17)),
        ]
    );
}

#[test]
fn readings_are_looked_up_by_name() {
    let s = controller_schema();
    let mut r = report_with(8, 0b1000_1000);
    r[6] = 250;
    let st = decode_report(&r, &s).unwrap();
    assert_eq!(st.value_of(&"triangle".to_string()), Some(DecodedValue::Pressed(true)));
    assert_eq!(st.value_of(&"square".to_string()), Some(DecodedValue::Pressed(false)));
    assert_eq!(st.value_of(&"arrow_up".to_string()), Some(DecodedValue::Pressed(false)));
    assert_eq!(st.value_of(&"R2".to_string()), Some(DecodedValue::Magnitude(250)));
    assert_eq!(st.value_of(&"touchpad".to_string()), None);
}

#[test]
fn controller_schema_matches_the_table() {
    let s = controller_schema();
    assert_eq!(s.report_len, 64);
    let got: Vec<(String, u32, u8)> = s.fields.iter().map(|f| (f.name.clone(), f.bit_offset, f.bit_width)).collect();
    let want: Vec<(String, u32, u8)> = vec![
        ("triangle", 68, 4), ("circle", 68, 4), ("cross", 68, 4), ("square", 68, 4),
        ("arrow_up", 64, 4), ("arrow_right", 64, 4), ("arrow_down", 64, 4), ("arrow_left", 64, 4),
        ("L2", 40, 8), ("R2", 48, 8),
    ]
    .into_iter()
    .map(|(n, o, w)| (n.to_string(), o, w))
    .collect();
    assert_eq!(got, want);
}

#[test]
fn nine_bytes_cover_the_schema_eight_do_not() {
    let s = controller_schema();
    assert!(decode_report(&[0u8; 9], &s).is_some());
    assert!(decode_report(&[0u8; 8], &s).is_none());
}
