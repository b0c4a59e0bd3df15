//! The data model: record declarations as the host compiler hands them over,
//! their spec-level views, and the generation errors.

use vstd::prelude::*;

verus! {

/// One named field of a record declaration: its identifier and its declared
/// type. Type expressions are held as canonical token text and compared
/// structurally, that is, by exact text equality; no alias resolution is
/// attempted.
pub struct NamedField {
    pub ident: String,
    pub ty: String,
}

/// Spec-level model of a named field.
pub struct NamedFieldView {
    pub ident: Seq<char>,
    pub ty: Seq<char>,
}

impl View for NamedField {
    type V = NamedFieldView;

    open spec fn view(&self) -> NamedFieldView {
        NamedFieldView { ident: self.ident@, ty: self.ty@ }
    }
}

/// The fields of a record declaration, in declared order. Order is
/// significant and preserved end-to-end.
pub enum FieldsDecl {
    /// Named-field record: every field has an identifier.
    Named(Vec<NamedField>),
    /// Positional record: fields have no identifiers, only declared types.
    Positional(Vec<String>),
    /// Field-less record: no field list at all.
    Unit,
}

/// Spec-level model of a field list.
pub enum FieldsView {
    Named(Seq<NamedFieldView>),
    Positional(Seq<Seq<char>>),
    Unit,
}

impl View for FieldsDecl {
    type V = FieldsView;

    open spec fn view(&self) -> FieldsView {
        match self {
            FieldsDecl::Named(v) => FieldsView::Named(v@.map_values(|f: NamedField| f@)),
            FieldsDecl::Positional(v) => FieldsView::Positional(v@.map_values(|t: String| t@)),
            FieldsDecl::Unit => FieldsView::Unit,
        }
    }
}

/// What a top-level type declaration is: a record with its field list, or a
/// sum type, which generation never accepts.
pub enum DeclData {
    Record(FieldsDecl),
    Enumeration,
}

/// Spec-level model of the declaration body.
pub enum DeclDataView {
    Record(FieldsView),
    Enumeration,
}

impl View for DeclData {
    type V = DeclDataView;

    open spec fn view(&self) -> DeclDataView {
        match self {
            DeclData::Record(fs) => DeclDataView::Record(fs@),
            DeclData::Enumeration => DeclDataView::Enumeration,
        }
    }
}

/// A parsed top-level type declaration: the declared name and its body.
/// The generator only reads it, never mutates it.
pub struct Declaration {
    pub name: String,
    pub data: DeclData,
}

/// Spec-level model of a declaration.
pub struct DeclView {
    pub name: Seq<char>,
    pub data: DeclDataView,
}

impl View for Declaration {
    type V = DeclView;

    open spec fn view(&self) -> DeclView {
        DeclView { name: self.name@, data: self.data@ }
    }
}

/// Why generation was refused. Every failure is terminal: it aborts the whole
/// generation pass, and none is caught or retried.
#[derive(Clone, Copy, Debug, PartialEq, Eq, Structural)]
pub enum SplatError {
    /// The declaration is not a record at all.
    Shape,
    /// The record has no fields.
    UnitShape,
    /// The field at `index` is declared with a type other than the first
    /// field's; `index` is the position of the first such field.
    HeterogeneousType { index: usize },
}

/// The diagnostic text of each error.
pub open spec fn message_of(e: SplatError) -> Seq<char> {
    match e {
        SplatError::Shape => "Splat can only be derived by structs"@,
        SplatError::UnitShape => "Splat cannot be derived by structs with no fields"@,
        SplatError::HeterogeneousType { .. } => "Splat can only be derived by structs where each field is the same type"@,
    }
}

impl SplatError {
    /// The human-readable build diagnostic for this error.
    pub fn message(&self) -> (r: &'static str)
        ensures
            r@ == message_of(*self),
    {
        match self {
            SplatError::Shape => "Splat can only be derived by structs",
            SplatError::UnitShape => "Splat cannot be derived by structs with no fields",
            SplatError::HeterogeneousType { .. } => "Splat can only be derived by structs where each field is the same type",
        }
    }
}

} // verus!
