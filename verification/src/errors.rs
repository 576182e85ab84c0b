//! The error model of the conversion: every failure of a run is one of these
//! two kinds, and each carries a description of the underlying failure.

use vstd::prelude::*;

verus! {

/// Why a conversion run failed. A run aborts on the first error; no partial
/// output is ever produced.
#[derive(Debug, Clone, PartialEq, Eq)]
pub enum ConvertError {
    /// Reading the source or writing the destination failed.
    IoFailure(String),
    /// A data row did not match the declared schema.
    MalformedRecord(String),
}

/// Mathematical value of a [`ConvertError`].
pub enum ErrorView {
    IoFailure(Seq<char>),
    MalformedRecord(Seq<char>),
}

impl View for ConvertError {
    type V = ErrorView;

    open spec fn view(&self) -> ErrorView {
        match self {
            ConvertError::IoFailure(m) => ErrorView::IoFailure(m@),
            ConvertError::MalformedRecord(m) => ErrorView::MalformedRecord(m@),
        }
    }
}

impl DeepView for ConvertError {
    type V = ErrorView;

    open spec fn deep_view(&self) -> ErrorView {
        self@
    }
}

impl ConvertError {
    /// The description carried by the error, for reporting.
    pub fn message(&self) -> (r: &str)
        ensures
            r@ == match self@ {
                ErrorView::IoFailure(m) => m,
                ErrorView::MalformedRecord(m) => m,
            },
    {
        match self {
            ConvertError::IoFailure(m) => m.as_str(),
            ConvertError::MalformedRecord(m) => m.as_str(),
        }
    }
}

} // verus!
