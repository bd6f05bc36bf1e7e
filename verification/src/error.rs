//! Why a raw record was rejected.

use vstd::prelude::*;

verus! {

/// A raw record that cannot be normalized. Each variant carries the text
/// that explains it: the identifier as received, the name of the field that
/// is absent, or the asset type that is not known.
#[derive(Debug, Clone, PartialEq, Eq)]
pub enum NormalizationError {
    InvalidId(String),
    MissingField(String),
    UnknownAssetType(String),
}

/// The mathematical value of a [`NormalizationError`].
pub enum NormalizationErrorView {
    InvalidId(Seq<char>),
    MissingField(Seq<char>),
    UnknownAssetType(Seq<char>),
}

impl View for NormalizationError {
    type V = NormalizationErrorView;

    open spec fn view(&self) -> NormalizationErrorView {
        match self {
            NormalizationError::InvalidId(s) => NormalizationErrorView::InvalidId(s@),
            NormalizationError::MissingField(s) => NormalizationErrorView::MissingField(s@),
            NormalizationError::UnknownAssetType(s) => NormalizationErrorView::UnknownAssetType(s@),
        }
    }
}

impl NormalizationError {
    /// The text that the error carries.
    pub fn detail(&self) -> (r: &String)
        ensures
            r@ == self.spec_detail(),
    {
        match self {
            NormalizationError::InvalidId(s) => s,
            NormalizationError::MissingField(s) => s,
            NormalizationError::UnknownAssetType(s) => s,
        }
    }

    pub open spec fn spec_detail(&self) -> Seq<char> {
        match self {
            NormalizationError::InvalidId(s) => s@,
            NormalizationError::MissingField(s) => s@,
            NormalizationError::UnknownAssetType(s) => s@,
        }
    }
}

} // verus!
