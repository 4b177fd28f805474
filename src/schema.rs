use vstd::prelude::*;

verus! {

/// How the raw bits of a field are read.
#[derive(Debug, Clone)]
pub enum Interpretation {
    /// The field is pressed when this bit of the extracted value is set.
    Flag(u8),
    /// The field is active when the extracted value is one of these.
    SetMembership(Vec<u8>),
    /// The extracted value is the reading itself.
    Magnitude,
}

/// One logical control packed into a report.
#[derive(Debug, Clone)]
pub struct Field {
    pub name: String,
    /// Absolute bit position from the start of the report (`byte * 8 + bit`).
    pub bit_offset: u32,
    /// Number of bits the field occupies, within a single byte.
    pub bit_width: u8,
    pub interpretation: Interpretation,
}

/// Why a field definition is rejected.
#[derive(Debug, Clone, Copy, PartialEq, Eq, Structural)]
pub enum FieldProblem {
    /// The width is zero or larger than a byte.
    InvalidWidth,
    /// The bits run over the end of the byte they start in.
    CrossesByteBoundary,
    /// A flag names a bit at or beyond the field's width.
    FlagBitOutOfRange,
    /// The bits run past the end of the report.
    OutsideReport,
}

/// A rejected schema: the first offending field and what is wrong with it.
#[derive(Debug, Clone, Copy, PartialEq, Eq, Structural)]
pub struct SchemaError {
    pub index: usize,
    pub problem: FieldProblem,
}

/// What is wrong with a field's layout on its own, if anything.
pub open spec fn layout_problem(bit_offset: u32, bit_width: u8, interpretation: Interpretation) -> Option<FieldProblem> {
    if bit_width == 0 || bit_width > 8 {
        Some(FieldProblem::InvalidWidth)
    } else if bit_offset % 8 + bit_width > 8 {
        Some(FieldProblem::CrossesByteBoundary)
    } else if interpretation is Flag && interpretation->Flag_0 >= bit_width {
        Some(FieldProblem::FlagBitOutOfRange)
    } else {
        None
    }
}

/// What is wrong with a field inside a report of `report_len` bytes, if anything.
pub open spec fn field_problem(field: Field, report_len: nat) -> Option<FieldProblem> {
    match layout_problem(field.bit_offset, field.bit_width, field.interpretation) {
        Some(p) => Some(p),
        None => if field.bit_offset + field.bit_width > 8 * report_len {
            Some(FieldProblem::OutsideReport)
        } else {
            None
        },
    }
}

impl Field {
    /// The field's bits form a valid run inside one byte.
    pub open spec fn wf(&self) -> bool {
        layout_problem(self.bit_offset, self.bit_width, self.interpretation).is_none()
    }

    /// Index of the byte that holds the field.
    pub open spec fn byte_index(&self) -> nat {
        (self.bit_offset / 8) as nat
    }

    /// Position of the field's lowest bit within its byte.
    pub open spec fn bit_shift(&self) -> u8 {
        (self.bit_offset % 8) as u8
    }

    /// A field with the given layout, or the first problem with it.
    pub fn new(name: String, bit_offset: u32, bit_width: u8, interpretation: Interpretation) -> (r: Result<Field, FieldProblem>)
        ensures
            match layout_problem(bit_offset, bit_width, interpretation) {
                Some(p) => r == Err::<Field, FieldProblem>(p),
                None => r is Ok && r->Ok_0 == (Field { name, bit_offset, bit_width, interpretation }),
            },
    {
        match check_layout(bit_offset, bit_width, &interpretation) {
            Some(p) => Err(p),
            None => Ok(Field { name, bit_offset, bit_width, interpretation }),
        }
    }
}

fn check_layout(bit_offset: u32, bit_width: u8, interpretation: &Interpretation) -> (r: Option<FieldProblem>)
    ensures
        r == layout_problem(bit_offset, bit_width, *interpretation),
{
    if bit_width == 0 || bit_width > 8 {
        Some(FieldProblem::InvalidWidth)
    } else if bit_offset % 8 + bit_width as u32 > 8 {
        Some(FieldProblem::CrossesByteBoundary)
    } else {
        match interpretation {
            Interpretation::Flag(k) => if *k >= bit_width {
                Some(FieldProblem::FlagBitOutOfRange)
            } else {
                None
            },
            _ => None,
        }
    }
}

/// The ordered field layout of an input report of a fixed byte length.
#[derive(Debug, Clone)]
pub struct Schema {
    pub report_len: usize,
    pub fields: Vec<Field>,
}

impl Schema {
    /// Every field is well formed and lies inside the report.
    pub open spec fn wf(&self) -> bool {
        forall|i: int| 0 <= i < self.fields@.len() ==> field_problem(#[trigger] self.fields@[i], self.report_len as nat).is_none()
    }

    /// A schema over the given fields, or the first field that does not fit.
    pub fn new(report_len: usize, fields: Vec<Field>) -> (r: Result<Schema, SchemaError>)
        ensures
            match r {
                Ok(s) => s.report_len == report_len && s.fields@ == fields@ && s.wf(),
                Err(e) => {
                    &&& e.index < fields@.len()
                    &&& field_problem(fields@[e.index as int], report_len as nat) == Some(e.problem)
                    &&& forall|j: int| 0 <= j < e.index ==> field_problem(#[trigger] fields@[j], report_len as nat).is_none()
                },
            },
            r is Ok <==> (forall|j: int| 0 <= j < fields@.len() ==> field_problem(#[trigger] fields@[j], report_len as nat).is_none()),
    {
        let mut i: usize = 0;
        while i < fields.len()
            invariant
                i <= fields@.len(),
                forall|j: int| 0 <= j < i ==> field_problem(#[trigger] fields@[j], report_len as nat).is_none(),
            decreases fields@.len() - i,
        {
            match check_field(&fields[i], report_len) {
                Some(p) => {
                    return Err(SchemaError { index: i, problem: p });
                },
                None => {},
            }
            i = i + 1;
        }
        Ok(Schema { report_len, fields })
    }
}

fn check_field(field: &Field, report_len: usize) -> (r: Option<FieldProblem>)
    ensures
        r == field_problem(*field, report_len as nat),
{
    match check_layout(field.bit_offset, field.bit_width, &field.interpretation) {
        Some(p) => Some(p),
        None => {
            let byte_index = field.bit_offset / 8;
            proof {
                let o = field.bit_offset as int;
                assert(o == 8 * (o / 8) + o % 8);
            }
            if (byte_index as usize) < report_len {
                None
            } else {
                Some(FieldProblem::OutsideReport)
            }
        },
    }
}

/// The field has this name and occupies these bits.
pub open spec fn field_at(f: Field, name: Seq<char>, bit_offset: u32, bit_width: u8) -> bool {
    f.name@ == name && f.bit_offset == bit_offset && f.bit_width == bit_width
}

/// A flag field reading bit `k` of its extracted value.
pub open spec fn flag_field(f: Field, name: Seq<char>, bit_offset: u32, bit_width: u8, k: u8) -> bool {
    field_at(f, name, bit_offset, bit_width) && f.interpretation == Interpretation::Flag(k)
}

/// A set-membership field with exactly these listed values, in this order.
pub open spec fn set_field(f: Field, name: Seq<char>, bit_offset: u32, bit_width: u8, values: Seq<u8>) -> bool {
    &&& field_at(f, name, bit_offset, bit_width)
    &&& f.interpretation is SetMembership
    &&& f.interpretation->SetMembership_0@ == values
}

/// A magnitude field.
pub open spec fn magnitude_field(f: Field, name: Seq<char>, bit_offset: u32, bit_width: u8) -> bool {
    field_at(f, name, bit_offset, bit_width) && f.interpretation is Magnitude
}

/// The controller's input layout, field by field.
pub open spec fn is_controller_schema(s: Schema) -> bool {
    &&& s.report_len == INPUT_REPORT_LEN
    &&& s.fields@.len() == 10
    &&& flag_field(s.fields@[0], "triangle"@, 68, 4, 3)
    &&& flag_field(s.fields@[1], "circle"@, 68, 4, 2)
    &&& flag_field(s.fields@[2], "cross"@, 68, 4, 1)
    &&& flag_field(s.fields@[3], "square"@, 68, 4, 0)
    &&& set_field(s.fields@[4], "arrow_up"@, 64, 4, seq![0u8, 7u8, 1u8])
    &&& set_field(s.fields@[5], "arrow_right"@, 64, 4, seq![1u8, 2u8, 3u8])
    &&& set_field(s.fields@[6], "arrow_down"@, 64, 4, seq![3u8, 4u8, 5u8])
    &&& set_field(s.fields@[7], "arrow_left"@, 64, 4, seq![5u8, 6u8, 7u8])
    &&& magnitude_field(s.fields@[8], "L2"@, 40, 8)
    &&& magnitude_field(s.fields@[9], "R2"@, 48, 8)
}

/// Length in bytes of the controller's input report.
pub const INPUT_REPORT_LEN: usize = 64;

/// The input layout of the controller: face buttons in the high nibble of
/// byte 8, the directional pad as one value in its low nibble (8 is
/// neutral), and the two analog triggers in bytes 5 and 6.
pub fn controller_schema() -> (r: Schema)
    ensures
        r.wf(),
        is_controller_schema(r),
{
    let fields = vec![
        Field { name: "triangle".to_string(), bit_offset: 68, bit_width: 4, interpretation: Interpretation::Flag(3) },
        Field { name: "circle".to_string(), bit_offset: 68, bit_width: 4, interpretation: Interpretation::Flag(2) },
        Field { name: "cross".to_string(), bit_offset: 68, bit_width: 4, interpretation: Interpretation::Flag(1) },
        Field { name: "square".to_string(), bit_offset: 68, bit_width: 4, interpretation: Interpretation::Flag(0) },
        Field { name: "arrow_up".to_string(), bit_offset: 64, bit_width: 4, interpretation: Interpretation::SetMembership(vec![0, 7, 1]) },
        Field { name: "arrow_right".to_string(), bit_offset: 64, bit_width: 4, interpretation: Interpretation::SetMembership(vec![1, 2, 3]) },
        Field { name: "arrow_down".to_string(), bit_offset: 64, bit_width: 4, interpretation: Interpretation::SetMembership(vec![3, 4, 5]) },
        Field { name: "arrow_left".to_string(), bit_offset: 64, bit_width: 4, interpretation: Interpretation::SetMembership(vec![5, 6, 7]) },
        Field { name: "L2".to_string(), bit_offset: 40, bit_width: 8, interpretation: Interpretation::Magnitude },
        Field { name: "R2".to_string(), bit_offset: 48, bit_width: 8, interpretation: Interpretation::Magnitude },
    ];
    Schema { report_len: INPUT_REPORT_LEN, fields }
}

} // verus!
