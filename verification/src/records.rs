//! The input side of the conversion: one typed row of the source table, and
//! the header-name mapping that extracts it from a raw delimited record.

use vstd::prelude::*;

verus! {

/// One deserialized row of the source table. Every column of the declared
/// schema is kept as text; only the instruction, opcode, validity and operand
/// columns affect the output.
#[derive(Debug, Clone, PartialEq, Eq)]
pub struct EncodingRecord {
    pub instruction: String,
    pub opcode: String,
    pub valid_64: String,
    pub valid_32: String,
    pub valid_16: String,
    pub feature_flag: String,
    pub operand1: String,
    pub operand2: String,
    pub operand3: String,
    pub operand4: String,
    pub tuple_type: String,
    pub description: String,
}

/// Mathematical value of an [`EncodingRecord`].
pub struct RecordView {
    pub instruction: Seq<char>,
    pub opcode: Seq<char>,
    pub valid_64: Seq<char>,
    pub valid_32: Seq<char>,
    pub valid_16: Seq<char>,
    pub feature_flag: Seq<char>,
    pub operand1: Seq<char>,
    pub operand2: Seq<char>,
    pub operand3: Seq<char>,
    pub operand4: Seq<char>,
    pub tuple_type: Seq<char>,
    pub description: Seq<char>,
}

impl View for EncodingRecord {
    type V = RecordView;

    open spec fn view(&self) -> RecordView {
        RecordView {
            instruction: self.instruction@,
            opcode: self.opcode@,
            valid_64: self.valid_64@,
            valid_32: self.valid_32@,
            valid_16: self.valid_16@,
            feature_flag: self.feature_flag@,
            operand1: self.operand1@,
            operand2: self.operand2@,
            operand3: self.operand3@,
            operand4: self.operand4@,
            tuple_type: self.tuple_type@,
            description: self.description@,
        }
    }
}

impl DeepView for EncodingRecord {
    type V = RecordView;

    open spec fn deep_view(&self) -> RecordView {
        self@
    }
}

/// The position of the first header cell equal to `name`, if any.
pub open spec fn col_index(headers: Seq<Seq<char>>, name: Seq<char>) -> Option<int>
    decreases headers.len(),
{
    if headers.len() == 0 {
        None
    } else if headers[0] == name {
        Some(0int)
    } else {
        match col_index(headers.drop_first(), name) {
            Some(i) => Some(i + 1),
            None => None,
        }
    }
}

proof fn lemma_col_index_first_hit(headers: Seq<Seq<char>>, name: Seq<char>, i: int)
    requires
        0 <= i < headers.len(),
        forall|j: int| 0 <= j < i ==> headers[j] != name,
        headers[i] == name,
    ensures
        col_index(headers, name) == Some(i),
    decreases i,
{
    if i > 0 {
        lemma_col_index_first_hit(headers.drop_first(), name, i - 1);
    }
}

proof fn lemma_col_index_none(headers: Seq<Seq<char>>, name: Seq<char>)
    requires
        forall|j: int| 0 <= j < headers.len() ==> headers[j] != name,
    ensures
        col_index(headers, name) is None,
    decreases headers.len(),
{
    if headers.len() > 0 {
        lemma_col_index_none(headers.drop_first(), name);
    }
}

/// Finds the first column whose header cell equals `name` exactly.
pub fn find_column(headers: &Vec<String>, name: &String) -> (r: Option<usize>)
    ensures
        match r {
            Some(i) => col_index(headers.deep_view(), name@) == Some(i as int),
            None => col_index(headers.deep_view(), name@) is None,
        },
{
    let ghost hv = headers.deep_view();
    let mut i: usize = 0;
    while i < headers.len()
        invariant
            0 <= i <= headers.len(),
            hv == headers.deep_view(),
            hv.len() == headers@.len(),
            forall|j: int| 0 <= j < i ==> hv[j] != name@,
        decreases headers.len() - i,
    {
        if headers[i] == *name {
            proof {
                lemma_col_index_first_hit(hv, name@, i as int);
            }
            return Some(i);
        }
        i += 1;
    }
    proof {
        lemma_col_index_none(hv, name@);
    }
    None
}

/// The text of the cell under the column named `name`, if the header declares
/// that column and the row is long enough to hold it.
pub open spec fn cell(headers: Seq<Seq<char>>, row: Seq<Seq<char>>, name: Seq<char>) -> Option<
    Seq<char>,
> {
    match col_index(headers, name) {
        Some(i) => if 0 <= i < row.len() {
            Some(row[i])
        } else {
            None
        },
        None => None,
    }
}

/// Extracts the cell of `row` under the column named `name`.
pub fn get_cell(headers: &Vec<String>, row: &Vec<String>, name: &String) -> (r: Option<String>)
    ensures
        r.deep_view() == cell(headers.deep_view(), row.deep_view(), name@),
{
    match find_column(headers, name) {
        Some(i) => {
            if i < row.len() {
                Some(row[i].clone())
            } else {
                None
            }
        },
        None => None,
    }
}

/// The typed row that a raw record maps to under the declared schema: every
/// declared column must be present in the header and covered by the record.
pub open spec fn record_of_row(headers: Seq<Seq<char>>, row: Seq<Seq<char>>) -> Option<RecordView> {
    if cell(headers, row, "Instruction"@) is Some && cell(headers, row, "Opcode"@) is Some && cell(
        headers,
        row,
        "Valid 64-bit"@,
    ) is Some && cell(headers, row, "Valid 32-bit"@) is Some && cell(
        headers,
        row,
        "Valid 16-bit"@,
    ) is Some && cell(headers, row, "Feature Flags"@) is Some && cell(
        headers,
        row,
        "Operand 1"@,
    ) is Some && cell(headers, row, "Operand 2"@) is Some && cell(
        headers,
        row,
        "Operand 3"@,
    ) is Some && cell(headers, row, "Operand 4"@) is Some && cell(
        headers,
        row,
        "Tuple Type"@,
    ) is Some && cell(headers, row, "Description"@) is Some {
        Some(
            RecordView {
                instruction: cell(headers, row, "Instruction"@).unwrap(),
                opcode: cell(headers, row, "Opcode"@).unwrap(),
                valid_64: cell(headers, row, "Valid 64-bit"@).unwrap(),
                valid_32: cell(headers, row, "Valid 32-bit"@).unwrap(),
                valid_16: cell(headers, row, "Valid 16-bit"@).unwrap(),
                feature_flag: cell(headers, row, "Feature Flags"@).unwrap(),
                operand1: cell(headers, row, "Operand 1"@).unwrap(),
                operand2: cell(headers, row, "Operand 2"@).unwrap(),
                operand3: cell(headers, row, "Operand 3"@).unwrap(),
                operand4: cell(headers, row, "Operand 4"@).unwrap(),
                tuple_type: cell(headers, row, "Tuple Type"@).unwrap(),
                description: cell(headers, row, "Description"@).unwrap(),
            },
        )
    } else {
        None
    }
}

/// Deserializes one raw record into a typed row by matching header names to
/// the declared column names, text-exact. `None` when a declared column is
/// missing from the header or the record does not cover its position.
pub fn record_from_row(headers: &Vec<String>, row: &Vec<String>) -> (r: Option<EncodingRecord>)
    ensures
        r.deep_view() == record_of_row(headers.deep_view(), row.deep_view()),
{
    let instruction = match get_cell(headers, row, &"Instruction".to_owned()) {
        Some(s) => s,
        None => {
            return None;
        },
    };
    let opcode = match get_cell(headers, row, &"Opcode".to_owned()) {
        Some(s) => s,
        None => {
            return None;
        },
    };
    let valid_64 = match get_cell(headers, row, &"Valid 64-bit".to_owned()) {
        Some(s) => s,
        None => {
            return None;
        },
    };
    let valid_32 = match get_cell(headers, row, &"Valid 32-bit".to_owned()) {
        Some(s) => s,
        None => {
            return None;
        },
    };
    let valid_16 = match get_cell(headers, row, &"Valid 16-bit".to_owned()) {
        Some(s) => s,
        None => {
            return None;
        },
    };
    let feature_flag = match get_cell(headers, row, &"Feature Flags".to_owned()) {
        Some(s) => s,
        None => {
            return None;
        },
    };
    let operand1 = match get_cell(headers, row, &"Operand 1".to_owned()) {
        Some(s) => s,
        None => {
            return None;
        },
    };
    let operand2 = match get_cell(headers, row, &"Operand 2".to_owned()) {
        Some(s) => s,
        None => {
            return None;
        },
    };
    let operand3 = match get_cell(headers, row, &"Operand 3".to_owned()) {
        Some(s) => s,
        None => {
            return None;
        },
    };
    let operand4 = match get_cell(headers, row, &"Operand 4".to_owned()) {
        Some(s) => s,
        None => {
            return None;
        },
    };
    let tuple_type = match get_cell(headers, row, &"Tuple Type".to_owned()) {
        Some(s) => s,
        None => {
            return None;
        },
    };
    let description = match get_cell(headers, row, &"Description".to_owned()) {
        Some(s) => s,
        None => {
            return None;
        },
    };
    Some(
        EncodingRecord {
            instruction,
            opcode,
            valid_64,
            valid_32,
            valid_16,
            feature_flag,
            operand1,
            operand2,
            operand3,
            operand4,
            tuple_type,
            description,
        },
    )
}

} // verus!
