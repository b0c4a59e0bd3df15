//! The properties the generator guarantees, each stated over the pipeline's
//! spec functions and proved once and for all.

use vstd::prelude::*;
use crate::decl::{DeclDataView, DeclView, FieldsView, SplatError};
use crate::homogeneity::{all_same_type, field_types_of, first_mismatch,
    lemma_first_mismatch_props, lemma_shared_type_iff};
use crate::pipeline::derive_spec;
use crate::synth::{splat_instance, BodyView, FragmentView};

verus! {

/// For every valid named record and every input value, the instance the
/// generated operation builds has exactly one field per declared field, and
/// every field is a clone of the input.
pub proof fn lemma_splat_named<T: Clone>(d: DeclView, f: FragmentView, x: T, inst: Seq<T>)
    requires
        d.data matches DeclDataView::Record(fs) && fs is Named,
        derive_spec(d) == Ok::<FragmentView, SplatError>(f),
        splat_instance(f, x, inst),
    ensures
        d.data matches DeclDataView::Record(fs) && fs matches FieldsView::Named(v) ==> {
            &&& inst.len() == v.len()
            &&& forall|i: int| 0 <= i < inst.len() ==> cloned(x, #[trigger] inst[i])
        },
{
}

/// For every valid positional record of arity N and every input value, the
/// instance the generated operation builds has exactly N components, and
/// every component is a clone of the input.
pub proof fn lemma_splat_positional<T: Clone>(d: DeclView, f: FragmentView, x: T, inst: Seq<T>)
    requires
        d.data matches DeclDataView::Record(fs) && fs is Positional,
        derive_spec(d) == Ok::<FragmentView, SplatError>(f),
        splat_instance(f, x, inst),
    ensures
        d.data matches DeclDataView::Record(fs) && fs matches FieldsView::Positional(tys) ==> {
            &&& inst.len() == tys.len()
            &&& forall|i: int| 0 <= i < inst.len() ==> cloned(x, #[trigger] inst[i])
        },
{
}

/// Order preservation: for a named record the Nth assignment of the
/// generated body carries the Nth declared field's identifier, for every N;
/// for a positional record the generated body has exactly one component per
/// declared field.
pub proof fn lemma_order_preserved(d: DeclView, f: FragmentView)
    requires
        derive_spec(d) == Ok::<FragmentView, SplatError>(f),
    ensures
        d.data matches DeclDataView::Record(fs) && fs matches FieldsView::Named(v)
            ==> f.body matches BodyView::Named(ids) && ids.len() == v.len()
            && forall|n: int| 0 <= n < v.len() ==> #[trigger] ids[n] == v[n].ident,
        d.data matches DeclDataView::Record(fs) && fs matches FieldsView::Positional(tys)
            ==> f.body == BodyView::Positional(tys.len()),
{
}

/// Rejection is total: a declaration that is not a record, a record with no
/// fields at all, and a record whose fields do not all share one declared
/// type are each refused with the corresponding error; generation succeeds
/// on no such declaration.
pub proof fn lemma_rejection_total(d: DeclView)
    ensures
        d.data is Enumeration ==> derive_spec(d) == Err::<FragmentView, SplatError>(
            SplatError::Shape,
        ),
        d.data matches DeclDataView::Record(fs) && field_types_of(fs).len() == 0
            ==> derive_spec(d) == Err::<FragmentView, SplatError>(SplatError::UnitShape),
        d.data matches DeclDataView::Record(fs) && field_types_of(fs).len() > 0
            && !all_same_type(field_types_of(fs)) ==> derive_spec(d) matches Err(
            SplatError::HeterogeneousType { .. },
        ),
        derive_spec(d) is Ok ==> (d.data matches DeclDataView::Record(fs)
            && field_types_of(fs).len() > 0 && all_same_type(field_types_of(fs))),
{
    match d.data {
        DeclDataView::Record(fs) => lemma_shared_type_iff(field_types_of(fs)),
        DeclDataView::Enumeration => {},
    }
}

/// The heterogeneous error identifies the divergent field: the reported
/// index is the position of the first field whose declared type differs from
/// the first field's, every earlier field agrees with the first, and the
/// field at the index does not.
pub proof fn lemma_divergent_field_identified(d: DeclView)
    requires
        d.data matches DeclDataView::Record(fs) && derive_spec(d) matches Err(
            SplatError::HeterogeneousType { .. },
        ),
        d.data matches DeclDataView::Record(fs) ==> field_types_of(fs).len() <= usize::MAX,
    ensures
        d.data matches DeclDataView::Record(fs) && derive_spec(d) matches Err(
            SplatError::HeterogeneousType { index },
        ) ==> {
            let tys = field_types_of(fs);
            &&& index == first_mismatch(tys)
            &&& 1 <= index < tys.len()
            &&& tys[index as int] != tys[0]
            &&& forall|k: int| 0 <= k < index ==> #[trigger] tys[k] == tys[0]
        },
{
    match d.data {
        DeclDataView::Record(fs) => {
            let tys = field_types_of(fs);
            if tys.len() >= 1 {
                lemma_first_mismatch_props(tys);
            }
        },
        DeclDataView::Enumeration => {},
    }
}

} // verus!
