//! Synthesizer: the last pipeline stage. From the record's name, its field
//! list, and the shared type it builds the generated fragment, first as a
//! structured template and then as source text, keeping the named and
//! positional emission paths symmetric.

use vstd::prelude::*;
use vstd::string::StringExecFns;
use crate::decl::{FieldsDecl, FieldsView, NamedFieldView};
use crate::homogeneity::views_of;

verus! {

/// The body layout of the generated operation.
#[derive(Debug)]
pub enum FragmentBody {
    /// Named path: the field identifiers, in declared order; each receives
    /// one assignment of a clone of the parameter.
    Named(Vec<String>),
    /// Positional path: the field count; the constructor receives that many
    /// clones of the parameter, in declared order.
    Positional(usize),
}

/// Spec-level model of the body layout.
pub enum BodyView {
    Named(Seq<Seq<char>>),
    Positional(nat),
}

impl View for FragmentBody {
    type V = BodyView;

    open spec fn view(&self) -> BodyView {
        match self {
            FragmentBody::Named(ids) => BodyView::Named(views_of(ids@)),
            FragmentBody::Positional(n) => BodyView::Positional(*n as nat),
        }
    }
}

/// The generated fragment: a structured template for one new operation
/// attached to the record's name. Immutable once produced; ownership passes
/// to the host compiler for splicing.
#[derive(Debug)]
pub struct GeneratedFragment {
    pub record_name: String,
    pub shared_type: String,
    pub body: FragmentBody,
}

/// Spec-level model of a generated fragment.
pub struct FragmentView {
    pub record_name: Seq<char>,
    pub shared_type: Seq<char>,
    pub body: BodyView,
}

impl View for GeneratedFragment {
    type V = FragmentView;

    open spec fn view(&self) -> FragmentView {
        FragmentView {
            record_name: self.record_name@,
            shared_type: self.shared_type@,
            body: self.body@,
        }
    }
}

impl FragmentView {
    /// How many fields the generated constructor fills.
    pub open spec fn arity(self) -> nat {
        match self.body {
            BodyView::Named(ids) => ids.len(),
            BodyView::Positional(n) => n,
        }
    }
}

/// The fragment synthesized for a record: the record's name, the shared
/// type, and one body entry per declared field, in declared order. A unit
/// field list, which the pipeline rejects before this stage, maps to an
/// empty positional body.
pub open spec fn synthesize_spec(name: Seq<char>, fs: FieldsView, shared: Seq<char>) -> FragmentView {
    FragmentView {
        record_name: name,
        shared_type: shared,
        body: match fs {
            FieldsView::Named(v) => BodyView::Named(v.map_values(|f: NamedFieldView| f.ident)),
            FieldsView::Positional(tys) => BodyView::Positional(tys.len()),
            FieldsView::Unit => BodyView::Positional(0),
        },
    }
}

/// Builds the structured template for the new operation from the record's
/// name, its field list, and the shared type.
pub fn synthesize(name: &String, fields: &FieldsDecl, shared: &String) -> (f: GeneratedFragment)
    ensures
        f@ == synthesize_spec(name@, fields@, shared@),
{
    let body = match fields {
        FieldsDecl::Named(v) => {
            let mut ids: Vec<String> = Vec::new();
            let mut i: usize = 0;
            while i < v.len()
                invariant
                    i <= v.len(),
                    ids@.len() == i,
                    forall|k: int| 0 <= k < i ==> ids@[k]@ == v@[k].ident@,
                decreases v.len() - i,
            {
                ids.push(v[i].ident.clone());
                i += 1;
            }
            proof {
                let fsv = v@.map_values(|f: crate::decl::NamedField| f@);
                assert(views_of(ids@) =~= fsv.map_values(|f: NamedFieldView| f.ident));
            }
            FragmentBody::Named(ids)
        },
        FieldsDecl::Positional(v) => FragmentBody::Positional(v.len()),
        FieldsDecl::Unit => FragmentBody::Positional(0),
    };
    GeneratedFragment { record_name: name.clone(), shared_type: shared.clone(), body }
}

/// The assignment list of the named path, in declared order: one
/// `<identifier>: v.clone()` per field, separated by commas.
pub open spec fn named_assigns_text(ids: Seq<Seq<char>>) -> Seq<char>
    decreases ids.len(),
{
    if ids.len() == 0 {
        Seq::empty()
    } else if ids.len() == 1 {
        ids[0] + ": v.clone()"@
    } else {
        named_assigns_text(ids.drop_last()) + ", "@ + ids.last() + ": v.clone()"@
    }
}

/// The argument list of the positional path: `v.clone()` repeated once per
/// field, separated by commas.
pub open spec fn positional_args_text(n: nat) -> Seq<char>
    decreases n,
{
    if n == 0 {
        Seq::empty()
    } else if n == 1 {
        "v.clone()"@
    } else {
        positional_args_text((n - 1) as nat) + ", v.clone()"@
    }
}

/// The source text of the generated operation: a `splat` function attached
/// to the record's name, taking one parameter of the shared type and
/// building the instance field by field.
pub open spec fn fragment_text(f: FragmentView) -> Seq<char> {
    let head = "impl "@ + f.record_name + " { fn splat(v: "@ + f.shared_type
        + ") -> Self { "@;
    match f.body {
        BodyView::Named(ids) => head + "Self { "@ + named_assigns_text(ids) + " } } }"@,
        BodyView::Positional(n) => head + "Self("@ + positional_args_text(n) + ") } }"@,
    }
}

impl GeneratedFragment {
    /// Renders the fragment as source text, ready for the host compiler to
    /// splice into the program.
    pub fn render(&self) -> (r: String)
        ensures
            r@ == fragment_text(self@),
    {
        let mut out = String::new();
        out.append("impl ");
        out.append(self.record_name.as_str());
        out.append(" { fn splat(v: ");
        out.append(self.shared_type.as_str());
        out.append(") -> Self { ");
        match &self.body {
            FragmentBody::Named(ids) => {
                out.append("Self { ");
                let ghost idv: Seq<Seq<char>> = views_of(ids@);
                let ghost prefix = out@;
                proof {
                    assert(idv.take(0) =~= Seq::<Seq<char>>::empty());
                    assert(prefix + named_assigns_text(idv.take(0)) =~= prefix);
                }
                let mut i: usize = 0;
                while i < ids.len()
                    invariant
                        i <= ids.len(),
                        idv == views_of(ids@),
                        idv.len() == ids@.len(),
                        out@ == prefix + named_assigns_text(idv.take(i as int)),
                    decreases ids.len() - i,
                {
                    if i > 0 {
                        out.append(", ");
                    }
                    out.append(ids[i].as_str());
                    out.append(": v.clone()");
                    proof {
                        let t1 = idv.take(i as int);
                        let t2 = idv.take(i as int + 1);
                        assert(t2.drop_last() =~= t1);
                        assert(t2.last() == idv[i as int]);
                        if i == 0 {
                            assert(named_assigns_text(t2) == idv[0] + ": v.clone()"@);
                        }
                        assert(out@ =~= prefix + named_assigns_text(t2));
                    }
                    i += 1;
                }
                proof {
                    assert(idv.take(ids@.len() as int) =~= idv);
                }
                out.append(" } } }");
            },
            FragmentBody::Positional(k) => {
                let n: usize = *k;
                out.append("Self(");
                let ghost prefix = out@;
                proof {
                    assert(prefix + positional_args_text(0) =~= prefix);
                }
                let mut i: usize = 0;
                while i < n
                    invariant
                        i <= n,
                        n == self.body@->Positional_0,
                        out@ == prefix + positional_args_text(i as nat),
                    decreases n - i,
                {
                    if i > 0 {
                        out.append(", ");
                    }
                    out.append("v.clone()");
                    proof {
                        if i == 0 {
                            assert(positional_args_text(1) == "v.clone()"@);
                        } else {
                            reveal_strlit(", ");
                            reveal_strlit("v.clone()");
                            reveal_strlit(", v.clone()");
                        }
                        assert(out@ =~= prefix + positional_args_text(i as nat + 1));
                    }
                    i += 1;
                }
                out.append(") } }");
            },
        }
        proof {
            assert(out@ =~= fragment_text(self@));
        }
        out
    }

    /// Runs the generated operation's body: builds the instance the
    /// generated `splat` returns for input `v`, as the sequence of its field
    /// values in declared order, one clone of `v` per field.
    pub fn instantiate<T: Clone>(&self, v: T) -> (inst: Vec<T>)
        ensures
            splat_instance(self@, v, inst@),
    {
        let n: usize = match &self.body {
            FragmentBody::Named(ids) => ids.len(),
            FragmentBody::Positional(k) => *k,
        };
        let inst = vec![v; n];
        inst
    }
}

/// What the generated `splat` operation returns: an instance with exactly
/// one field per declared field, in declared order, each a clone of the
/// input value.
pub open spec fn splat_instance<T: Clone>(f: FragmentView, x: T, inst: Seq<T>) -> bool {
    &&& inst.len() == f.arity()
    &&& forall|i: int| 0 <= i < inst.len() ==> cloned(x, #[trigger] inst[i])
}

} // verus!
