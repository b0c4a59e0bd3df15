//! Field homogeneity checker: the second pipeline stage. It walks the ordered
//! sequence of declared field types and confirms all are structurally equal to
//! the first, returning that shared type or the exact failure.

use vstd::prelude::*;
use crate::decl::{FieldsDecl, FieldsView, NamedField, NamedFieldView, SplatError};

verus! {

/// The views of a sequence of strings.
pub open spec fn views_of(ss: Seq<String>) -> Seq<Seq<char>> {
    ss.map_values(|s: String| s@)
}

/// The ordered sequence of declared field types of a field list.
pub open spec fn field_types_of(fs: FieldsView) -> Seq<Seq<char>> {
    match fs {
        FieldsView::Named(v) => v.map_values(|f: NamedFieldView| f.ty),
        FieldsView::Positional(tys) => tys,
        FieldsView::Unit => Seq::empty(),
    }
}

/// All declared types are structurally equal to the first.
pub open spec fn all_same_type(tys: Seq<Seq<char>>) -> bool {
    forall|i: int| 0 <= i < tys.len() ==> #[trigger] tys[i] == tys[0]
}

/// The first position at or after `j` whose type differs from the first
/// field's, or the length when there is none. Positions before 1 are never
/// mismatches: the first field agrees with itself.
pub open spec fn first_mismatch_from(tys: Seq<Seq<char>>, j: int) -> int
    decreases tys.len() - j,
{
    if j < 1 || j >= tys.len() {
        tys.len() as int
    } else if tys[j] != tys[0] {
        j
    } else {
        first_mismatch_from(tys, j + 1)
    }
}

/// The position of the first field whose declared type differs from the first
/// field's, or the length when the sequence is homogeneous.
pub open spec fn first_mismatch(tys: Seq<Seq<char>>) -> int {
    first_mismatch_from(tys, 1)
}

/// What the checker yields: the shared type when the sequence is non-empty
/// and homogeneous, and otherwise the exact error, with the offending
/// position in the heterogeneous case.
pub open spec fn shared_type_spec(tys: Seq<Seq<char>>) -> Result<Seq<char>, SplatError> {
    if tys.len() == 0 {
        Err(SplatError::UnitShape)
    } else if first_mismatch(tys) < tys.len() {
        Err(SplatError::HeterogeneousType { index: first_mismatch(tys) as usize })
    } else {
        Ok(tys[0])
    }
}

/// Skipping over positions that agree with the first type does not move the
/// first mismatch.
proof fn lemma_first_mismatch_from_skip(tys: Seq<Seq<char>>, i: int, j: int)
    requires
        1 <= i <= j <= tys.len(),
        forall|k: int| i <= k < j ==> #[trigger] tys[k] == tys[0],
    ensures
        first_mismatch_from(tys, i) == first_mismatch_from(tys, j),
    decreases j - i,
{
    if i < j {
        lemma_first_mismatch_from_skip(tys, i + 1, j);
    }
}

/// Where the first mismatch lies and what holds on either side of it.
pub proof fn lemma_first_mismatch_props(tys: Seq<Seq<char>>)
    requires
        tys.len() >= 1,
    ensures
        1 <= first_mismatch(tys) <= tys.len(),
        first_mismatch(tys) == tys.len() <==> all_same_type(tys),
        first_mismatch(tys) < tys.len() ==> tys[first_mismatch(tys)] != tys[0],
        forall|k: int| 0 <= k < first_mismatch(tys) ==> #[trigger] tys[k] == tys[0],
{
    lemma_first_mismatch_from_props(tys, 1);
}

proof fn lemma_first_mismatch_from_props(tys: Seq<Seq<char>>, j: int)
    requires
        1 <= j <= tys.len(),
    ensures
        j <= first_mismatch_from(tys, j) <= tys.len(),
        first_mismatch_from(tys, j) < tys.len() ==> tys[first_mismatch_from(tys, j)] != tys[0],
        forall|k: int| j <= k < first_mismatch_from(tys, j) ==> #[trigger] tys[k] == tys[0],
    decreases tys.len() - j,
{
    if j < tys.len() && tys[j] == tys[0] {
        lemma_first_mismatch_from_props(tys, j + 1);
    }
}

/// The checker succeeds exactly on non-empty homogeneous type sequences.
pub proof fn lemma_shared_type_iff(tys: Seq<Seq<char>>)
    ensures
        shared_type_spec(tys) is Ok <==> tys.len() > 0 && all_same_type(tys),
        tys.len() == 0 <==> shared_type_spec(tys) == Err::<Seq<char>, SplatError>(
            SplatError::UnitShape,
        ),
        tys.len() > 0 && !all_same_type(tys) <==> shared_type_spec(tys) matches Err(
            SplatError::HeterogeneousType { .. },
        ),
{
    if tys.len() >= 1 {
        lemma_first_mismatch_props(tys);
    }
}

/// The declared types of a field list, in declared order, as owned values.
pub fn field_types(fields: &FieldsDecl) -> (r: Vec<String>)
    ensures
        views_of(r@) == field_types_of(fields@),
{
    match fields {
        FieldsDecl::Named(v) => {
            let mut tys: Vec<String> = Vec::new();
            let mut i: usize = 0;
            while i < v.len()
                invariant
                    i <= v.len(),
                    tys@.len() == i,
                    forall|k: int| 0 <= k < i ==> tys@[k]@ == v@[k].ty@,
                decreases v.len() - i,
            {
                tys.push(v[i].ty.clone());
                i += 1;
            }
            proof {
                assert(views_of(tys@) =~= field_types_of(fields@));
            }
            tys
        },
        FieldsDecl::Positional(v) => {
            let mut tys: Vec<String> = Vec::new();
            let mut i: usize = 0;
            while i < v.len()
                invariant
                    i <= v.len(),
                    tys@.len() == i,
                    forall|k: int| 0 <= k < i ==> tys@[k]@ == v@[k]@,
                decreases v.len() - i,
            {
                tys.push(v[i].clone());
                i += 1;
            }
            proof {
                assert(views_of(tys@) =~= field_types_of(fields@));
            }
            tys
        },
        FieldsDecl::Unit => {
            let tys: Vec<String> = Vec::new();
            proof {
                assert(views_of(tys@) =~= field_types_of(fields@));
            }
            tys
        },
    }
}

/// Field homogeneity checker: a single linear scan over the declared types,
/// short-circuiting on the first type that differs from the first field's.
pub fn get_shared_type(types: &Vec<String>) -> (r: Result<String, SplatError>)
    ensures
        r matches Ok(t) ==> shared_type_spec(views_of(types@)) == Ok::<Seq<char>, SplatError>(
            t@,
        ),
        r matches Err(e) ==> shared_type_spec(views_of(types@)) == Err::<Seq<char>, SplatError>(
            e,
        ),
{
    let ghost tys = views_of(types@);
    if types.len() == 0 {
        return Err(SplatError::UnitShape);
    }
    let first = types[0].clone();
    let mut j: usize = 1;
    while j < types.len()
        invariant
            1 <= j <= types.len(),
            tys == views_of(types@),
            tys.len() == types@.len(),
            first@ == tys[0],
            forall|k: int| 1 <= k < j ==> #[trigger] tys[k] == tys[0],
        decreases types.len() - j,
    {
        if !strings_equal(&types[j], &first) {
            proof {
                lemma_first_mismatch_from_skip(tys, 1, j as int);
            }
            return Err(SplatError::HeterogeneousType { index: j });
        }
        j += 1;
    }
    proof {
        lemma_first_mismatch_from_skip(tys, 1, types@.len() as int);
    }
    Ok(first)
}

/// Structural equality of two type expressions: exact equality of their
/// canonical token text.
pub fn strings_equal(a: &String, b: &String) -> (r: bool)
    ensures
        r == (a@ == b@),
{
    a.eq(b)
}

} // verus!
