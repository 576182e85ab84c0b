//! The conversion pipeline: filtering of rows by the 64-bit validity column,
//! mapping of accepted rows to tuple nodes, and the calls into the
//! delimited-text parser and the destination-format writer.

use vstd::prelude::*;

use ason::ast::AsonNode;
use ason::ast::Enumeration;

use crate::errors::ConvertError;
use crate::errors::ErrorView;
use crate::nodes::Operand;
use crate::nodes::TupleNode;
use crate::nodes::TupleView;
use crate::nodes::convert_na_to_option;
use crate::nodes::operand_of;
use crate::records::EncodingRecord;
use crate::records::RecordView;
use crate::records::record_from_row;
use crate::records::record_of_row;

verus! {

/// A parsed source table: the header row, then the data rows, every cell as
/// text.
#[derive(Debug, Clone, PartialEq, Eq)]
pub struct CsvData {
    pub headers: Vec<String>,
    pub rows: Vec<Vec<String>>,
}

/// Mathematical value of a [`CsvData`].
pub struct CsvTable {
    pub headers: Seq<Seq<char>>,
    pub rows: Seq<Seq<Seq<char>>>,
}

impl View for CsvData {
    type V = CsvTable;

    open spec fn view(&self) -> CsvTable {
        CsvTable { headers: self.headers.deep_view(), rows: self.rows.deep_view() }
    }
}

/// What the delimited-text parser makes of a source text: the header row and
/// the data rows, or the description of the first record that failed to
/// parse. The parse depends on the text alone.
pub uninterp spec fn csv_table_of(text: Seq<char>) -> Result<CsvTable, Seq<char>>;

/// Relies on csv::Reader: parses delimited text whose first line declares the
/// column names into one string record per data row, reporting the first
/// malformed record as an error. The result depends on the text alone.
#[verifier::external_body]
fn read_table(text: &str) -> (r: Result<CsvData, String>)
    ensures
        match r {
            Ok(t) => csv_table_of(text@) is Ok && t@ == csv_table_of(text@)->Ok_0,
            Err(e) => csv_table_of(text@) is Err && e@ == csv_table_of(text@)->Err_0,
        },
{
    let mut reader = csv::Reader::from_reader(text.as_bytes());
    let headers = match reader.headers() {
        Ok(h) => h.iter().map(|s| s.to_string()).collect(),
        Err(e) => return Err(e.to_string()),
    };
    let collected: Result<Vec<Vec<String>>, csv::Error> = reader.records().map(
        |r| r.map(|c| c.iter().map(|s| s.to_string()).collect()),
    ).collect();
    match collected {
        Ok(rows) => Ok(CsvData { headers, rows }),
        Err(e) => Err(e.to_string()),
    }
}

/// The canonical text of the destination document holding the given tuples
/// as one array node. The text depends on the tuples alone.
pub uninterp spec fn ason_text_of(tuples: Seq<TupleView>) -> Seq<char>;

/// Relies on ason::writer::write_to_string: renders one array node, whose
/// elements are the given tuples, as canonical destination-format text. The
/// text depends on the nodes alone. An absent operand becomes the `None`
/// variant of the destination format's standard option enumeration, a
/// present one the `Some` variant around its text leaf.
#[verifier::external_body]
fn write_tuples(tuples: &Vec<TupleNode>) -> (r: String)
    ensures
        r@ == ason_text_of(tuples.deep_view()),
{
    let op = |o: &Operand| AsonNode::Enumeration(match o {
        Operand::Absent => Enumeration::new("Option", "None"),
        Operand::Present(s) => Enumeration::with_value("Option", "Some", AsonNode::String(s.clone())),
    });
    let nodes: Vec<AsonNode> = tuples.iter().map(|t| AsonNode::Tuple(vec![
        AsonNode::String(t.instruction.clone()),
        AsonNode::String(t.opcode.clone()),
        op(&t.operand1), op(&t.operand2), op(&t.operand3), op(&t.operand4),
    ])).collect();
    ason::writer::write_to_string(&AsonNode::List(nodes))
}

/// Whether a row passes the validity filter: its 64-bit validity column must
/// read exactly `Valid`, case-sensitive, with no trimming.
pub open spec fn row_accepted(r: RecordView) -> bool {
    r.valid_64 == "Valid"@
}

/// The tuple node an accepted row maps to: instruction and opcode verbatim,
/// then the four operand cells through the operand mapping, in order.
pub open spec fn tuple_of(r: RecordView) -> TupleView {
    TupleView {
        instruction: r.instruction,
        opcode: r.opcode,
        operand1: operand_of(r.operand1),
        operand2: operand_of(r.operand2),
        operand3: operand_of(r.operand3),
        operand4: operand_of(r.operand4),
    }
}

/// What one row contributes to the output: its tuple node when it passes the
/// validity filter, nothing otherwise.
pub open spec fn accept_row(r: RecordView) -> Option<TupleView> {
    if row_accepted(r) {
        Some(tuple_of(r))
    } else {
        None
    }
}

/// The output tuples of a row sequence: the accepted rows, mapped, in the
/// order the rows came in.
pub open spec fn tuples_of(rows: Seq<RecordView>) -> Seq<TupleView> {
    rows.filter_map(|r: RecordView| accept_row(r))
}

/// Maps one accepted row to its six-position tuple node.
pub fn map_record(rec: &EncodingRecord) -> (t: TupleNode)
    ensures
        t@ == tuple_of(rec@),
{
    TupleNode {
        instruction: rec.instruction.clone(),
        opcode: rec.opcode.clone(),
        operand1: convert_na_to_option(rec.operand1.as_str()),
        operand2: convert_na_to_option(rec.operand2.as_str()),
        operand3: convert_na_to_option(rec.operand3.as_str()),
        operand4: convert_na_to_option(rec.operand4.as_str()),
    }
}

/// Filters the rows by the validity column and maps each kept row to its
/// tuple node, keeping the input order.
pub fn convert_records(rows: &Vec<EncodingRecord>) -> (out: Vec<TupleNode>)
    ensures
        out.deep_view() == tuples_of(rows.deep_view()),
{
    let ghost rv = rows.deep_view();
    let valid: String = "Valid".to_owned();
    let mut out: Vec<TupleNode> = Vec::new();
    let mut i: usize = 0;
    while i < rows.len()
        invariant
            0 <= i <= rows.len(),
            rv == rows.deep_view(),
            rv.len() == rows@.len(),
            valid@ == "Valid"@,
            out.deep_view() == tuples_of(rv.take(i as int)),
        decreases rows.len() - i,
    {
        if rows[i].valid_64 == valid {
            out.push(map_record(&rows[i]));
        }
        proof {
            rv.lemma_filter_map_take_succ(|r: RecordView| accept_row(r), i as int);
            assert(out.deep_view() =~= tuples_of(rv.take(i as int + 1)));
        }
        i += 1;
    }
    proof {
        assert(rv.take(rv.len() as int) =~= rv);
    }
    out
}

/// Every row whose validity column reads exactly `Valid` contributes exactly
/// one tuple to the output, and the tuples keep the rows' relative order: the
/// output is the accepted rows, in order, each mapped to its tuple.
pub proof fn lemma_accepted_rows_kept_in_order(rows: Seq<RecordView>)
    ensures
        tuples_of(rows) =~= rows.filter(|r: RecordView| row_accepted(r)).map_values(
            |r: RecordView| tuple_of(r),
        ),
    decreases rows.len(),
{
    reveal(Seq::filter);
    let pred = |r: RecordView| row_accepted(r);
    let f = |r: RecordView| tuple_of(r);
    if rows.len() > 0 {
        let rest = rows.drop_last();
        let last = rows.last();
        lemma_accepted_rows_kept_in_order(rest);
        if pred(last) {
            assert(rows.filter(pred).map_values(f) =~= rest.filter(pred).map_values(f).push(
                f(last),
            ));
            assert(tuples_of(rows) =~= tuples_of(rest).push(f(last)));
        } else {
            assert(rows.filter(pred) == rest.filter(pred));
            assert(tuples_of(rows) == tuples_of(rest));
        }
    }
}

/// A row whose validity column does not read exactly `Valid` contributes
/// nothing: when no row is accepted, the output holds no tuple at all.
pub proof fn lemma_rejected_rows_emit_nothing(rows: Seq<RecordView>)
    requires
        forall|i: int| 0 <= i < rows.len() ==> !row_accepted(#[trigger] rows[i]),
    ensures
        tuples_of(rows) =~= Seq::<TupleView>::empty(),
    decreases rows.len(),
{
    if rows.len() > 0 {
        assert(!row_accepted(rows[rows.len() - 1]));
        lemma_rejected_rows_emit_nothing(rows.drop_last());
    }
}

proof fn lemma_tuples_of_concat(a: Seq<RecordView>, b: Seq<RecordView>)
    ensures
        tuples_of(a + b) =~= tuples_of(a) + tuples_of(b),
    decreases b.len(),
{
    if b.len() == 0 {
        assert(a + b =~= a);
    } else {
        lemma_tuples_of_concat(a, b.drop_last());
        assert((a + b).drop_last() =~= a + b.drop_last());
        assert((a + b).last() == b.last());
    }
}

/// Each row that passes the validity filter contributes exactly one tuple,
/// its own mapping, standing between the tuples of the rows before it and
/// the tuples of the rows after it.
pub proof fn lemma_accepted_row_contributes_one(rows: Seq<RecordView>, i: int)
    requires
        0 <= i < rows.len(),
        row_accepted(rows[i]),
    ensures
        tuples_of(rows) =~= tuples_of(rows.take(i)) + seq![tuple_of(rows[i])] + tuples_of(
            rows.skip(i + 1),
        ),
{
    let a = rows.take(i);
    let mid = seq![rows[i]];
    let c = rows.skip(i + 1);
    assert(rows =~= a + mid + c);
    lemma_tuples_of_concat(a + mid, c);
    lemma_tuples_of_concat(a, mid);
    Seq::<RecordView>::lemma_filter_map_singleton(rows[i], |r: RecordView| accept_row(r));
    assert(tuples_of(mid) =~= seq![tuple_of(rows[i])]);
}

/// A row that fails the validity filter contributes nothing: deleting it
/// from the input leaves the output unchanged.
pub proof fn lemma_rejected_row_dropped(rows: Seq<RecordView>, i: int)
    requires
        0 <= i < rows.len(),
        !row_accepted(rows[i]),
    ensures
        tuples_of(rows.remove(i)) =~= tuples_of(rows),
{
    let a = rows.take(i);
    let mid = seq![rows[i]];
    let c = rows.skip(i + 1);
    assert(rows =~= a + mid + c);
    assert(rows.remove(i) =~= a + c);
    lemma_tuples_of_concat(a + mid, c);
    lemma_tuples_of_concat(a, mid);
    lemma_tuples_of_concat(a, c);
    Seq::<RecordView>::lemma_filter_map_singleton(rows[i], |r: RecordView| accept_row(r));
    assert(tuples_of(mid) =~= Seq::<TupleView>::empty());
    assert(tuples_of(a) + tuples_of(mid) =~= tuples_of(a));
}

/// The conversion is a function of the source text alone: two runs on the
/// same text yield the identical result, so an unchanged source file always
/// produces byte-identical output.
pub proof fn lemma_conversion_deterministic(a: Seq<char>, b: Seq<char>)
    requires
        a == b,
    ensures
        conversion_of(a) == conversion_of(b),
{
}

/// The typed rows of a parsed table, in order; nothing when some data row
/// does not match the declared schema.
pub open spec fn records_of_table(t: CsvTable) -> Option<Seq<RecordView>> {
    if forall|i: int| 0 <= i < t.rows.len() ==> record_of_row(t.headers, #[trigger] t.rows[i]) is Some {
        Some(Seq::new(t.rows.len(), |i: int| record_of_row(t.headers, t.rows[i]).unwrap()))
    } else {
        None
    }
}

/// Deserializes every data row of a parsed table into a typed row, aborting
/// at the first row that does not match the declared schema.
pub fn build_records(t: &CsvData) -> (r: Option<Vec<EncodingRecord>>)
    ensures
        match r {
            Some(recs) => records_of_table(t@) is Some && recs.deep_view() == records_of_table(
                t@,
            ).unwrap(),
            None => records_of_table(t@) is None,
        },
{
    let ghost tv = t@;
    let mut recs: Vec<EncodingRecord> = Vec::new();
    let mut i: usize = 0;
    while i < t.rows.len()
        invariant
            0 <= i <= t.rows.len(),
            tv == t@,
            tv.rows.len() == t.rows@.len(),
            recs.deep_view().len() == i,
            forall|j: int| 0 <= j < i ==> record_of_row(tv.headers, #[trigger] tv.rows[j]) is Some,
            forall|j: int|
                0 <= j < i ==> recs.deep_view()[j] == record_of_row(
                    tv.headers,
                    #[trigger] tv.rows[j],
                ).unwrap(),
        decreases t.rows.len() - i,
    {
        match record_from_row(&t.headers, &t.rows[i]) {
            Some(rec) => {
                recs.push(rec);
            },
            None => {
                assert(record_of_row(tv.headers, tv.rows[i as int]) is None);
                return None;
            },
        }
        i += 1;
    }
    assert(recs.deep_view() =~= records_of_table(tv).unwrap());
    Some(recs)
}

/// The description carried by a schema failure of the conversion.
pub open spec fn malformed_message() -> Seq<char> {
    "a record does not match the declared schema"@
}

/// What the whole conversion makes of a source text: the destination text
/// holding the accepted rows' tuples, or the first error. Every failure of
/// the text-to-text conversion is a malformed record; input and output
/// handling around it report their own failures.
pub open spec fn conversion_of(text: Seq<char>) -> Result<Seq<char>, ErrorView> {
    match csv_table_of(text) {
        Err(m) => Err(ErrorView::MalformedRecord(m)),
        Ok(t) => match records_of_table(t) {
            None => Err(ErrorView::MalformedRecord(malformed_message())),
            Some(recs) => Ok(ason_text_of(tuples_of(recs))),
        },
    }
}

/// Converts the source table text into the destination document text: parses
/// the delimited records under the header row, keeps the rows whose 64-bit
/// validity column reads exactly `Valid`, maps each to a six-position tuple
/// node, and renders the tuples as one array node. Aborts on the first
/// malformed record; rejected rows are dropped silently.
pub fn convert_csv_to_ason(text: &str) -> (r: Result<String, ConvertError>)
    ensures
        match r {
            Ok(out) => conversion_of(text@) is Ok && out@ == conversion_of(text@)->Ok_0,
            Err(e) => conversion_of(text@) is Err && e@ == conversion_of(text@)->Err_0,
        },
{
    let table = match read_table(text) {
        Ok(t) => t,
        Err(m) => {
            return Err(ConvertError::MalformedRecord(m));
        },
    };
    let records = match build_records(&table) {
        Some(r) => r,
        None => {
            return Err(
                ConvertError::MalformedRecord(
                    "a record does not match the declared schema".to_owned(),
                ),
            );
        },
    };
    let tuples = convert_records(&records);
    Ok(write_tuples(&tuples))
}

} // verus!
