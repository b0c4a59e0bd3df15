//! Shape classifier: the first pipeline stage. It inspects the parsed
//! declaration and determines which of the three record shapes it has, or
//! rejects the declaration when it is not a record at all.

use vstd::prelude::*;
use crate::decl::{DeclData, DeclDataView, Declaration, DeclView, FieldsDecl, FieldsView,
    SplatError};

verus! {

/// The three mutually exclusive record shapes.
#[derive(Clone, Copy, Debug, PartialEq, Eq, Structural)]
pub enum Shape {
    Named,
    Positional,
    Unit,
}

/// What classification yields for a declaration: exactly one of the three
/// shapes for a record, and a shape error for anything else.
pub open spec fn classify_spec(d: DeclView) -> Result<Shape, SplatError> {
    match d.data {
        DeclDataView::Record(fs) => match fs {
            FieldsView::Named(_) => Ok(Shape::Named),
            FieldsView::Positional(_) => Ok(Shape::Positional),
            FieldsView::Unit => Ok(Shape::Unit),
        },
        DeclDataView::Enumeration => Err(SplatError::Shape),
    }
}

/// Shape classifier: returns the record's shape, or `SplatError::Shape` when
/// the declaration is a sum type rather than a record.
pub fn classify(d: &Declaration) -> (r: Result<Shape, SplatError>)
    ensures
        r == classify_spec(d@),
{
    match &d.data {
        DeclData::Record(fs) => match fs {
            FieldsDecl::Named(_) => Ok(Shape::Named),
            FieldsDecl::Positional(_) => Ok(Shape::Positional),
            FieldsDecl::Unit => Ok(Shape::Unit),
        },
        DeclData::Enumeration => Err(SplatError::Shape),
    }
}

/// Classification is idempotent: any two runs of the classifier on the same
/// declaration yield the same result, since each run's result equals
/// `classify_spec` of that declaration.
pub proof fn lemma_classify_idempotent(
    d: DeclView,
    r1: Result<Shape, SplatError>,
    r2: Result<Shape, SplatError>,
)
    requires
        r1 == classify_spec(d),
        r2 == classify_spec(d),
    ensures
        r1 == r2,
{
}

} // verus!
