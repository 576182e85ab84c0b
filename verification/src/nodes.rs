//! The output side of the conversion: the node shapes that the destination
//! document is built from, and the mapping from one source cell to an
//! optional-wrapper node.

use vstd::prelude::*;

verus! {

/// One operand position of an output tuple: absent when the source cell was
/// `NA` or empty, otherwise present with the cell's text kept verbatim.
#[derive(Debug, Clone, PartialEq, Eq)]
pub enum Operand {
    Absent,
    Present(String),
}

/// Mathematical value of an [`Operand`].
pub enum OperandView {
    Absent,
    Present(Seq<char>),
}

impl View for Operand {
    type V = OperandView;

    open spec fn view(&self) -> OperandView {
        match self {
            Operand::Absent => OperandView::Absent,
            Operand::Present(s) => OperandView::Present(s@),
        }
    }
}

impl DeepView for Operand {
    type V = OperandView;

    open spec fn deep_view(&self) -> OperandView {
        self@
    }
}

/// One output tuple node. The arity is fixed: an instruction text, an opcode
/// text, and four operand positions, in this order.
#[derive(Debug, Clone, PartialEq, Eq)]
pub struct TupleNode {
    pub instruction: String,
    pub opcode: String,
    pub operand1: Operand,
    pub operand2: Operand,
    pub operand3: Operand,
    pub operand4: Operand,
}

/// Mathematical value of a [`TupleNode`].
pub struct TupleView {
    pub instruction: Seq<char>,
    pub opcode: Seq<char>,
    pub operand1: OperandView,
    pub operand2: OperandView,
    pub operand3: OperandView,
    pub operand4: OperandView,
}

impl View for TupleNode {
    type V = TupleView;

    open spec fn view(&self) -> TupleView {
        TupleView {
            instruction: self.instruction@,
            opcode: self.opcode@,
            operand1: self.operand1@,
            operand2: self.operand2@,
            operand3: self.operand3@,
            operand4: self.operand4@,
        }
    }
}

impl DeepView for TupleNode {
    type V = TupleView;

    open spec fn deep_view(&self) -> TupleView {
        self@
    }
}

/// What one operand cell maps to: the absent wrapper exactly when the cell is
/// `NA` or empty, otherwise the present wrapper around the unmodified text.
pub open spec fn operand_of(s: Seq<char>) -> OperandView {
    if s == "NA"@ || s.len() == 0 {
        OperandView::Absent
    } else {
        OperandView::Present(s)
    }
}

/// Maps one operand cell to its optional-wrapper node: `NA` and the empty
/// string become the absent variant, any other text is kept verbatim in the
/// present variant.
pub fn convert_na_to_option(s: &str) -> (r: Operand)
    ensures
        r@ == operand_of(s@),
{
    let owned: String = s.to_owned();
    let na: String = "NA".to_owned();
    if owned == na || s.is_empty() {
        Operand::Absent
    } else {
        Operand::Present(owned)
    }
}

/// A cell equal to `NA` or empty maps to the absent wrapper.
pub proof fn lemma_operand_absent(s: Seq<char>)
    requires
        s == "NA"@ || s.len() == 0,
    ensures
        operand_of(s) == OperandView::Absent,
{
}

/// Any other cell maps to the present wrapper around that exact text.
pub proof fn lemma_operand_present(s: Seq<char>)
    requires
        s != "NA"@,
        s.len() != 0,
    ensures
        operand_of(s) == OperandView::Present(s),
{
}

} // verus!
