use vstd::prelude::*;
use crate::schema::{is_controller_schema, Field, Interpretation, Schema};

verus! {

/// A decoded field: a button level, or an unscaled analog reading.
#[derive(Debug, Clone, Copy, PartialEq, Eq, Structural)]
pub enum DecodedValue {
    Pressed(bool),
    Magnitude(u8),
}

/// The `width` lowest bits set.
pub open spec fn low_mask(width: u8) -> u8 {
    0xffu8 >> ((8 - width) as u8)
}

/// The `width` bits of `byte` starting at bit `shift`, moved down to bit 0.
pub open spec fn extract_bits(byte: u8, shift: u8, width: u8) -> u8 {
    (byte >> shift) & low_mask(width)
}

/// Bit `k` of `value` is set.
pub open spec fn bit_set(value: u8, k: u8) -> bool {
    (value >> k) & 1u8 == 1u8
}

/// The field's raw bits in the report, as an unsigned value.
pub open spec fn field_raw(report: Seq<u8>, field: Field) -> u8 {
    extract_bits(report[field.byte_index() as int], field.bit_shift(), field.bit_width)
}

/// The field's value, read from its raw bits as its interpretation says.
pub open spec fn field_value(report: Seq<u8>, field: Field) -> DecodedValue {
    let raw = field_raw(report, field);
    match field.interpretation {
        Interpretation::Flag(k) => DecodedValue::Pressed(bit_set(raw, k)),
        Interpretation::SetMembership(values) => DecodedValue::Pressed(values@.contains(raw)),
        Interpretation::Magnitude => DecodedValue::Magnitude(raw),
    }
}

/// The report is long enough to hold the field's byte.
pub open spec fn covers(report: Seq<u8>, field: Field) -> bool {
    field.byte_index() < report.len()
}

/// Decodes one field of a report; `None` when the report is too short to
/// hold it. The report is only read.
pub fn decode(report: &[u8], field: &Field) -> (r: Option<DecodedValue>)
    requires
        field.wf(),
    ensures
        r == (if covers(report@, *field) {
            Some(field_value(report@, *field))
        } else {
            None
        }),
{
    let byte_index = (field.bit_offset / 8) as usize;
    if byte_index >= report.len() {
        return None;
    }
    let shift = (field.bit_offset % 8) as u8;
    let width = field.bit_width;
    let raw = (report[byte_index] >> shift) & (0xffu8 >> (8 - width));
    match &field.interpretation {
        Interpretation::Flag(k) => Some(DecodedValue::Pressed((raw >> *k) & 1 == 1)),
        Interpretation::SetMembership(values) => Some(DecodedValue::Pressed(contains_value(values, raw))),
        Interpretation::Magnitude => Some(DecodedValue::Magnitude(raw)),
    }
}

fn contains_value(values: &Vec<u8>, x: u8) -> (r: bool)
    ensures
        r == values@.contains(x),
{
    let mut i: usize = 0;
    while i < values.len()
        invariant
            i <= values@.len(),
            forall|j: int| 0 <= j < i ==> values@[j] != x,
        decreases values@.len() - i,
    {
        if values[i] == x {
            assert(values@[i as int] == x);
            return true;
        }
        i = i + 1;
    }
    false
}

/// One decoded field of a report, under the field's name.
#[derive(Debug, Clone)]
pub struct Reading {
    pub name: String,
    pub value: DecodedValue,
}

/// The decoded state of every field of a schema, in schema order. Rebuilt
/// from each report; nothing carries over between reports.
#[derive(Debug, Clone)]
pub struct ControllerState {
    pub readings: Vec<Reading>,
}

impl ControllerState {
    /// The value of the first reading with the given name.
    pub fn value_of(&self, name: &String) -> (r: Option<DecodedValue>)
        ensures
            r is None <==> (forall|i: int| 0 <= i < self.readings@.len() ==> (#[trigger] self.readings@[i]).name@ != name@),
            r is Some ==> exists|i: int| 0 <= i < self.readings@.len()
                && (#[trigger] self.readings@[i]).name@ == name@
                && r == Some(self.readings@[i].value)
                && forall|j: int| 0 <= j < i ==> (#[trigger] self.readings@[j]).name@ != name@,
    {
        let mut i: usize = 0;
        while i < self.readings.len()
            invariant
                i <= self.readings@.len(),
                forall|j: int| 0 <= j < i ==> (#[trigger] self.readings@[j]).name@ != name@,
            decreases self.readings@.len() - i,
        {
            if self.readings[i].name == *name {
                return Some(self.readings[i].value);
            }
            i = i + 1;
        }
        None
    }
}

/// The report holds the byte of every field of the schema.
pub open spec fn covers_schema(report: Seq<u8>, schema: Schema) -> bool {
    forall|i: int| 0 <= i < schema.fields@.len() ==> covers(report, #[trigger] schema.fields@[i])
}

/// The state holds, in order, each field's name and its value in the report.
pub open spec fn decodes_to(report: Seq<u8>, schema: Schema, state: ControllerState) -> bool {
    &&& state.readings@.len() == schema.fields@.len()
    &&& forall|i: int| 0 <= i < schema.fields@.len() ==> {
        &&& (#[trigger] state.readings@[i]).name == schema.fields@[i].name
        &&& state.readings@[i].value == field_value(report, schema.fields@[i])
    }
}

/// Decodes every field of the schema from one report. A report too short for
/// any field yields `None`: the whole report is skipped, not decoded in part.
pub fn decode_report(report: &[u8], schema: &Schema) -> (r: Option<ControllerState>)
    requires
        schema.wf(),
    ensures
        r is Some <==> covers_schema(report@, *schema),
        r is Some ==> decodes_to(report@, *schema, r->Some_0),
{
    let mut readings: Vec<Reading> = Vec::new();
    let mut i: usize = 0;
    while i < schema.fields.len()
        invariant
            schema.wf(),
            i <= schema.fields@.len(),
            readings@.len() == i,
            forall|j: int| 0 <= j < i ==> covers(report@, #[trigger] schema.fields@[j]),
            forall|j: int| 0 <= j < i ==> {
                &&& (#[trigger] readings@[j]).name == schema.fields@[j].name
                &&& readings@[j].value == field_value(report@, schema.fields@[j])
            },
        decreases schema.fields@.len() - i,
    {
        let field = &schema.fields[i];
        assert(crate::schema::field_problem(schema.fields@[i as int], schema.report_len as nat).is_none());
        match decode(report, field) {
            Some(value) => {
                readings.push(Reading { name: field.name.clone(), value });
            },
            None => {
                return None;
            },
        }
        i = i + 1;
    }
    Some(ControllerState { readings })
}

/// Bit `j` of the report, counting from bit 0 of byte 0.
pub open spec fn report_bit(report: Seq<u8>, j: nat) -> bool {
    bit_set(report[(j / 8) as int], (j % 8) as u8)
}

proof fn lemma_extract_by_bits(x: u8, y: u8, s: u8, w: u8)
    by (bit_vector)
    requires
        1 <= w <= 8,
        s + w <= 8,
        bit_set(x, s) == bit_set(y, s),
        w > 1 ==> bit_set(x, (s + 1) as u8) == bit_set(y, (s + 1) as u8),
        w > 2 ==> bit_set(x, (s + 2) as u8) == bit_set(y, (s + 2) as u8),
        w > 3 ==> bit_set(x, (s + 3) as u8) == bit_set(y, (s + 3) as u8),
        w > 4 ==> bit_set(x, (s + 4) as u8) == bit_set(y, (s + 4) as u8),
        w > 5 ==> bit_set(x, (s + 5) as u8) == bit_set(y, (s + 5) as u8),
        w > 6 ==> bit_set(x, (s + 6) as u8) == bit_set(y, (s + 6) as u8),
        w > 7 ==> bit_set(x, (s + 7) as u8) == bit_set(y, (s + 7) as u8),
    ensures
        extract_bits(x, s, w) == extract_bits(y, s, w),
{
}

proof fn lemma_field_bit_agrees(a: Seq<u8>, b: Seq<u8>, field: Field, k: u8)
    requires
        field.wf(),
        k < field.bit_width,
        forall|j: nat| field.bit_offset <= j < field.bit_offset + field.bit_width ==> #[trigger] report_bit(a, j) == report_bit(b, j),
    ensures
        bit_set(a[field.byte_index() as int], (field.bit_shift() + k) as u8)
            == bit_set(b[field.byte_index() as int], (field.bit_shift() + k) as u8),
{
    let j = (field.bit_offset + k) as nat;
    assert(report_bit(a, j) == report_bit(b, j));
    assert(j / 8 == field.byte_index() && j % 8 == field.bit_shift() + k);
}

/// Decoding reads the field's own bits and no others: two reports that agree
/// on bits `bit_offset .. bit_offset + bit_width` decode the field alike,
/// whatever else they hold.
pub proof fn decode_reads_only_field_bits(a: Seq<u8>, b: Seq<u8>, field: Field)
    requires
        field.wf(),
        covers(a, field),
        covers(b, field),
        forall|j: nat| field.bit_offset <= j < field.bit_offset + field.bit_width ==> #[trigger] report_bit(a, j) == report_bit(b, j),
    ensures
        field_value(a, field) == field_value(b, field),
{
    let w = field.bit_width;
    lemma_field_bit_agrees(a, b, field, 0);
    if w > 1 { lemma_field_bit_agrees(a, b, field, 1); }
    if w > 2 { lemma_field_bit_agrees(a, b, field, 2); }
    if w > 3 { lemma_field_bit_agrees(a, b, field, 3); }
    if w > 4 { lemma_field_bit_agrees(a, b, field, 4); }
    if w > 5 { lemma_field_bit_agrees(a, b, field, 5); }
    if w > 6 { lemma_field_bit_agrees(a, b, field, 6); }
    if w > 7 { lemma_field_bit_agrees(a, b, field, 7); }
    lemma_extract_by_bits(a[field.byte_index() as int], b[field.byte_index() as int], field.bit_shift(), w);
}

proof fn lemma_nibble_bits(x: u8)
    by (bit_vector)
    ensures
        bit_set(extract_bits(x, 4, 4), 3) == bit_set(x, 7),
        bit_set(extract_bits(x, 4, 4), 2) == bit_set(x, 6),
        bit_set(extract_bits(x, 4, 4), 1) == bit_set(x, 5),
        bit_set(extract_bits(x, 4, 4), 0) == bit_set(x, 4),
        extract_bits(x, 0, 4) == x & 0x0fu8,
        extract_bits(x, 0, 8) == x,
{
}

/// A report covers the controller's schema exactly when it reaches byte 8,
/// the highest byte any of its fields reads; a shorter report is skipped.
pub proof fn controller_report_coverage(report: Seq<u8>, schema: Schema)
    requires
        is_controller_schema(schema),
    ensures
        covers_schema(report, schema) <==> report.len() >= 9,
{
    if !covers_schema(report, schema) {
        let i = choose|i: int| 0 <= i < schema.fields@.len() && !covers(report, #[trigger] schema.fields@[i]);
        assert(schema.fields@[i].bit_offset / 8 <= 8);
    }
    if report.len() < 9 {
        assert(!covers(report, schema.fields@[0]));
    }
}

/// What the controller's readings say in terms of report bytes: the face
/// buttons are bits 7 to 4 of byte 8, the arrows are set membership of its
/// low nibble, and the triggers are bytes 5 and 6 unchanged.
pub proof fn controller_readings(report: Seq<u8>, schema: Schema, state: ControllerState)
    requires
        is_controller_schema(schema),
        decodes_to(report, schema, state),
        report.len() >= 9,
    ensures
        state.readings@.len() == 10,
        state.readings@[0].name@ == "triangle"@ && state.readings@[0].value == DecodedValue::Pressed(bit_set(report[8], 7)),
        state.readings@[1].name@ == "circle"@ && state.readings@[1].value == DecodedValue::Pressed(bit_set(report[8], 6)),
        state.readings@[2].name@ == "cross"@ && state.readings@[2].value == DecodedValue::Pressed(bit_set(report[8], 5)),
        state.readings@[3].name@ == "square"@ && state.readings@[3].value == DecodedValue::Pressed(bit_set(report[8], 4)),
        state.readings@[4].name@ == "arrow_up"@
            && state.readings@[4].value == DecodedValue::Pressed(seq![0u8, 7u8, 1u8].contains(report[8] & 0x0fu8)),
        state.readings@[5].name@ == "arrow_right"@
            && state.readings@[5].value == DecodedValue::Pressed(seq![1u8, 2u8, 3u8].contains(report[8] & 0x0fu8)),
        state.readings@[6].name@ == "arrow_down"@
            && state.readings@[6].value == DecodedValue::Pressed(seq![3u8, 4u8, 5u8].contains(report[8] & 0x0fu8)),
        state.readings@[7].name@ == "arrow_left"@
            && state.readings@[7].value == DecodedValue::Pressed(seq![5u8, 6u8, 7u8].contains(report[8] & 0x0fu8)),
        state.readings@[8].name@ == "L2"@ && state.readings@[8].value == DecodedValue::Magnitude(report[5]),
        state.readings@[9].name@ == "R2"@ && state.readings@[9].value == DecodedValue::Magnitude(report[6]),
{
    lemma_nibble_bits(report[8]);
    lemma_nibble_bits(report[5]);
    lemma_nibble_bits(report[6]);
    assert(state.readings@[4].value == field_value(report, schema.fields@[4]));
    assert(state.readings@[5].value == field_value(report, schema.fields@[5]));
    assert(state.readings@[6].value == field_value(report, schema.fields@[6]));
    assert(state.readings@[7].value == field_value(report, schema.fields@[7]));
    assert(state.readings@[8].value == field_value(report, schema.fields@[8]));
    assert(state.readings@[9].value == field_value(report, schema.fields@[9]));
    assert(state.readings@[1].value == field_value(report, schema.fields@[1]));
    assert(state.readings@[2].value == field_value(report, schema.fields@[2]));
    assert(state.readings@[3].value == field_value(report, schema.fields@[3]));
}

/// A byte-aligned eight-bit magnitude field reads its byte unchanged, for
/// every one of the 256 byte values.
pub proof fn aligned_byte_magnitude_is_identity(report: Seq<u8>, field: Field)
    requires
        field.bit_width == 8,
        field.bit_offset % 8 == 0,
        field.interpretation is Magnitude,
        covers(report, field),
    ensures
        field_value(report, field) == DecodedValue::Magnitude(report[field.byte_index() as int]),
{
    let x = report[field.byte_index() as int];
    assert((x >> 0u8) & (0xffu8 >> 0u8) == x) by (bit_vector);
}

} // verus!
