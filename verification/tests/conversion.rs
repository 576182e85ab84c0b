use ason::ast::AsonNode;
use ason::ast::Enumeration;
use ason::parser::parse_from_str;
use ason::writer::write_to_string;

use csv_to_ason::convert::convert_csv_to_ason;
use csv_to_ason::errors::ConvertError;

const HEADER: &str = "Instruction,Opcode,Valid 64-bit,Valid 32-bit,Valid 16-bit,Feature Flags,Operand 1,Operand 2,Operand 3,Operand 4,Tuple Type,Description";

fn some_node(text: &str) -> AsonNode {
    AsonNode::Enumeration(Enumeration::with_value(
        "Option",
        "Some",
        AsonNode::String(text.to_owned()),
    ))
}

fn none_node() -> AsonNode {
    AsonNode::Enumeration(Enumeration::new("Option", "None"))
}

fn tuple_node(instruction: &str, opcode: &str, operands: [AsonNode; 4]) -> AsonNode {
    let [op1, op2, op3, op4] = operands;
    AsonNode::Tuple(vec![
        AsonNode::String(instruction.to_owned()),
        AsonNode::String(opcode.to_owned()),
        op1,
        op2,
        op3,
        op4,
    ])
}

#[test]
fn valid_row_maps_to_tuple() {
    let text = format!(
        "{}\n\"ADD r/m8, r8\",00 /r,Valid,Valid,Valid,,r/m8,r8,NA,,,Add r8 to r/m8.",
        HEADER
    );
    let out = convert_csv_to_ason(&text).unwrap();
    let node = parse_from_str(&out).unwrap();
    let expected = AsonNode::List(vec![tuple_node(
        "ADD r/m8, r8",
        "00 /r",
        [some_node("r/m8"), some_node("r8"), none_node(), none_node()],
    )]);
    assert_eq!(node, expected);
}

#[test]
fn invalid_row_emits_nothing() {
    let text = format!(
        "{}\n\"ADD r/m8, r8\",00 /r,Invalid,Valid,Valid,,r/m8,r8,NA,,,Add r8 to r/m8.",
        HEADER
    );
    let out = convert_csv_to_ason(&text).unwrap();
    assert_eq!(out, write_to_string(&AsonNode::List(vec![])));
}

#[test]
fn validity_match_is_exact() {
    // Other spellings of the validity value are rejected just like "Invalid".
    for validity in ["valid", "VALID", " Valid", "Valid ", "NA", ""] {
        let text = format!(
            "{}\nMOV r8 r/m8,88 /r,{},Valid,Valid,,r8,r/m8,NA,NA,,Move.",
            HEADER, validity
        );
        let out = convert_csv_to_ason(&text).unwrap();
        assert_eq!(out, write_to_string(&AsonNode::List(vec![])));
    }
}

#[test]
fn header_only_gives_empty_array() {
    let out = convert_csv_to_ason(HEADER).unwrap();
    assert_eq!(out, write_to_string(&AsonNode::List(vec![])));
}

#[test]
fn mixed_rows_keep_order() {
    let text = format!(
        "{}\nA1,01,Valid,Valid,Valid,,r8,NA,NA,NA,,first\nB2,02,Invalid,Valid,Valid,,r16,NA,NA,NA,,second\nC3,03,Valid,Valid,Valid,,NA,m32,NA,NA,,third",
        HEADER
    );
    let out = convert_csv_to_ason(&text).unwrap();
    let node = parse_from_str(&out).unwrap();
    let expected = AsonNode::List(vec![
        tuple_node(
            "A1",
            "01",
            [some_node("r8"), none_node(), none_node(), none_node()],
        ),
        tuple_node(
            "C3",
            "03",
            [none_node(), some_node("m32"), none_node(), none_node()],
        ),
    ]);
    assert_eq!(node, expected);
}

#[test]
fn round_trip_reconstructs_tuples() {
    let text = format!(
        "{}\nA1,01,Valid,Valid,Valid,,r8,r16,r32,r64,,all present\nB2,02,Valid,Invalid,Invalid,,NA,,NA,,,all absent",
        HEADER
    );
    let out = convert_csv_to_ason(&text).unwrap();
    let reparsed = parse_from_str(&out).unwrap();
    let expected = AsonNode::List(vec![
        tuple_node(
            "A1",
            "01",
            [
                some_node("r8"),
                some_node("r16"),
                some_node("r32"),
                some_node("r64"),
            ],
        ),
        tuple_node(
            "B2",
            "02",
            [none_node(), none_node(), none_node(), none_node()],
        ),
    ]);
    assert_eq!(reparsed, expected);
    // Writing the reconstructed array again reproduces the same text.
    assert_eq!(write_to_string(&reparsed), out);
}

#[test]
fn conversion_is_idempotent() {
    let text = format!(
        "{}\nA1,01,Valid,Valid,Valid,,r8,NA,NA,NA,,first\nB2,02,Invalid,Valid,Valid,,r16,NA,NA,NA,,second",
        HEADER
    );
    let first = convert_csv_to_ason(&text).unwrap();
    let second = convert_csv_to_ason(&text).unwrap();
    assert_eq!(first.as_bytes(), second.as_bytes());
}

#[test]
fn short_row_is_malformed() {
    // A record with fewer columns than the header aborts the conversion.
    let text = format!("{}\nA1,01,Valid", HEADER);
    let r = convert_csv_to_ason(&text);
    assert!(matches!(r, Err(ConvertError::MalformedRecord(_))));
}

#[test]
fn missing_column_with_rows_is_malformed() {
    // The Opcode column is absent: the first data row fails the schema.
    let text = "Instruction,Valid 64-bit\nA1,Valid";
    let r = convert_csv_to_ason(text);
    match r {
        Err(ConvertError::MalformedRecord(m)) => {
            assert_eq!(m, "a record does not match the declared schema");
        }
        other => panic!("expected a malformed-record error, got {:?}", other),
    }
}

#[test]
fn missing_column_without_rows_is_accepted() {
    // With zero data rows no record is ever matched against the schema.
    let text = "Instruction,Valid 64-bit";
    let out = convert_csv_to_ason(text).unwrap();
    assert_eq!(out, write_to_string(&AsonNode::List(vec![])));
}

#[test]
fn quoted_cells_are_unescaped() {
    // The parser, not this library, resolves the delimited-text quoting.
    let text = format!(
        "{}\n\"CMP \"\"x\"\", y\",3C ib,Valid,Valid,Valid,,AL,imm8,NA,NA,,quote test",
        HEADER
    );
    let out = convert_csv_to_ason(&text).unwrap();
    let node = parse_from_str(&out).unwrap();
    let expected = AsonNode::List(vec![tuple_node(
        "CMP \"x\", y",
        "3C ib",
        [some_node("AL"), some_node("imm8"), none_node(), none_node()],
    )]);
    assert_eq!(node, expected);
}
