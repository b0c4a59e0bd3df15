//! The generation pipeline: classifier, then homogeneity checker, then
//! synthesizer, strictly in that order. Any violation yields the exact error
//! and nothing is retried.

use vstd::prelude::*;
use crate::classify::classify;
use crate::decl::{DeclData, DeclDataView, Declaration, DeclView, SplatError};
use crate::homogeneity::{field_types, field_types_of, get_shared_type, shared_type_spec};
use crate::synth::{fragment_text, synthesize, synthesize_spec, FragmentView, GeneratedFragment};

verus! {

/// What the whole pipeline yields for a declaration: the synthesized
/// fragment for a non-empty homogeneous record, and otherwise the error of
/// the stage that refused it.
pub open spec fn derive_spec(d: DeclView) -> Result<FragmentView, SplatError> {
    match d.data {
        DeclDataView::Enumeration => Err(SplatError::Shape),
        DeclDataView::Record(fs) => {
            match shared_type_spec(field_types_of(fs)) {
                Err(e) => Err(e),
                Ok(shared) => Ok(synthesize_spec(d.name, fs, shared)),
            }
        },
    }
}

/// Runs the pipeline up to the structured template: classifies the
/// declaration, checks the field types for homogeneity, and synthesizes the
/// fragment, or returns the error that aborts generation.
pub fn generate(d: &Declaration) -> (r: Result<GeneratedFragment, SplatError>)
    ensures
        r matches Ok(f) ==> derive_spec(d@) == Ok::<FragmentView, SplatError>(f@),
        r matches Err(e) ==> derive_spec(d@) == Err::<FragmentView, SplatError>(e),
{
    match classify(d) {
        Err(e) => Err(e),
        Ok(_) => match &d.data {
            DeclData::Enumeration => Err(SplatError::Shape),
            DeclData::Record(fs) => {
                let tys = field_types(fs);
                match get_shared_type(&tys) {
                    Err(e) => Err(e),
                    Ok(shared) => Ok(synthesize(&d.name, fs, &shared)),
                }
            },
        },
    }
}

/// The whole generator: the pipeline of `generate` followed by rendering the
/// fragment as source text. Returns the text of the new `splat` operation,
/// or the exact error on which generation aborts.
pub fn derive_splat(d: &Declaration) -> (r: Result<String, SplatError>)
    ensures
        r matches Ok(s) ==> derive_spec(d@) matches Ok(f) && s@ == fragment_text(f),
        r matches Err(e) ==> derive_spec(d@) == Err::<FragmentView, SplatError>(e),
{
    match generate(d) {
        Ok(frag) => Ok(frag.render()),
        Err(e) => Err(e),
    }
}

} // verus!
