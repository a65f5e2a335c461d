//! What generic parameters and predicates show, and what showing them does.

use crate::adts::ags_after;
use crate::adts::ToJsonAg;
use crate::ctxt::DefId;
use crate::ctxt::SubstsRef;
use crate::ctxt::Term;
use crate::ctxt::TyCtxt;
use crate::docs::def_text;
use crate::generics::AliasTy;
use crate::generics::GenericParamDef;
use crate::generics::GenericPredicates;
use crate::generics::Generics;
use crate::generics::Predicate;
use crate::generics::TraitRef;
use crate::json::Json;
use crate::reading::entry;
use crate::reading::has_keys;
use crate::reading::lemma_keys;
use crate::reading::shows;
use crate::state::Mir;
use crate::to_json::lemma_list_add;
use crate::to_json::list_after;
use crate::to_json::BorrowKind;
use crate::to_json::ParamTy;
use crate::to_json::ToJson;
use crate::type_laws::id;
use crate::type_laws::is_args;
use vstd::prelude::*;

verus! {

/// A trait, or an associated type, with its generic arguments shows its name and all the
/// arguments in their order; the arguments are shown, and nothing else is.
pub proof fn law_item_with_arguments(tcx: &TyCtxt, t: TraitRef, a: AliasTy, m: Mir)
    ensures
        ({
            let j = t.doc(tcx);
            &&& has_keys(j, set!["trait"@, "substs"@])
            &&& shows(j, "trait", Json::Str(def_text(tcx, t.def_id)))
            &&& is_args(entry(j, "substs"), tcx, tcx.args_of(t.substs))
            &&& t.after(tcx, m) == t.substs.after(tcx, m)
        }),
        ({
            let j = a.doc(tcx);
            &&& has_keys(j, set!["def_id"@, "substs"@])
            &&& shows(j, "def_id", Json::Str(def_text(tcx, a.def_id)))
            &&& is_args(entry(j, "substs"), tcx, tcx.args_of(a.substs))
            &&& a.after(tcx, m) == a.substs.after(tcx, m)
        }),
{
    lemma_keys();
}

/// A predicate on a trait shows the trait with its arguments.  A projection to a type shows the
/// associated type with its arguments and the ID of the type; the associated type is shown, then
/// the type.  Any other predicate is a word, and changes nothing.
pub proof fn law_predicate(tcx: &TyCtxt, p: Predicate, m: Mir)
    ensures
        ({
            let j = p.doc(tcx);
            match p {
                Predicate::Trait(t) => {
                    &&& has_keys(j, set!["trait_pred"@])
                    &&& shows(j, "trait_pred", t.doc(tcx))
                    &&& p.after(tcx, m) == t.after(tcx, m)
                },
                Predicate::Projection { projection_ty, term: Term::Ty(ty) } => {
                    &&& has_keys(j, set!["projection_ty"@, "ty"@])
                    &&& shows(j, "projection_ty", projection_ty.doc(tcx))
                    &&& shows(j, "ty", id(tcx, ty))
                    &&& p.after(tcx, m) == ty.after(tcx, projection_ty.after(tcx, m))
                },
                Predicate::Projection { term: Term::Const, .. } => {
                    &&& j == Json::Str("unknown_const_projection"@)
                    &&& p.after(tcx, m) == m
                },
                Predicate::Other => {
                    &&& j == Json::Str("unknown_pred"@)
                    &&& p.after(tcx, m) == m
                },
            }
        }),
{
    lemma_keys();
}

/// The list under the only key of a document.
pub open spec fn only_list(j: Json, key: &str) -> Seq<Json> {
    entry(j, key)->Arr_0
}

/// The predicates on an item are its own in their order, then those of the item around it, if
/// there is one; they are shown in that order.
pub proof fn law_predicates(tcx: &TyCtxt, p: GenericPredicates, m: Mir)
    ensures
        ({
            let j = p.doc(tcx);
            let docs = only_list(j, "predicates");
            let own = p.predicates@;
            let shown = p.predicates.after(tcx, m);
            &&& has_keys(j, set!["predicates"@])
            &&& entry(j, "predicates") is Arr
            &&& own.len() <= docs.len()
            &&& forall|i: int| 0 <= i < own.len() ==> #[trigger] docs[i] == own[i].doc(tcx)
            &&& match p.parent {
                Some(parent) => {
                    let around = only_list(parent.doc(tcx), "predicates");
                    &&& docs.len() == own.len() + around.len()
                    &&& forall|i: int|
                        0 <= i < around.len() ==> #[trigger] around[i] == docs[own.len() + i]
                    &&& p.after(tcx, m) == parent.after(tcx, shown)
                },
                None => {
                    &&& docs.len() == own.len()
                    &&& p.after(tcx, m) == shown
                },
            }
        }),
{
    lemma_keys();
    if let Some(parent) = p.parent {
        lemma_list_add(tcx, p.predicates@, parent.all(), m);
    }
}

/// The parameters of an item are those of the item around it, if there is one, then its own in
/// their order; they are shown in that order.
pub proof fn law_parameters(tcx: &TyCtxt, g: Generics, m: Mir)
    ensures
        ({
            let j = g.doc(tcx);
            let docs = only_list(j, "params");
            let own = g.params@;
            let around = match g.parent {
                Some(parent) => only_list(parent.doc(tcx), "params"),
                None => Seq::<Json>::empty(),
            };
            let before = match g.parent {
                Some(parent) => parent.after(tcx, m),
                None => m,
            };
            &&& has_keys(j, set!["params"@])
            &&& entry(j, "params") is Arr
            &&& docs.len() == around.len() + own.len()
            &&& forall|i: int| 0 <= i < around.len() ==> #[trigger] around[i] == docs[i]
            &&& forall|i: int|
                0 <= i < own.len() ==> (#[trigger] own[i]).doc(tcx) == docs[around.len() + i]
            &&& g.after(tcx, m) == g.params.after(tcx, before)
        }),
{
    lemma_keys();
    if let Some(parent) = g.parent {
        lemma_list_add(tcx, parent.all(), g.params@, m);
    }
}

/// A parameter shows its name and the name of its definition, and changes nothing.
pub proof fn law_parameter(tcx: &TyCtxt, p: GenericParamDef, m: Mir)
    ensures
        ({
            let j = p.doc(tcx);
            &&& has_keys(j, set!["param_def"@, "def_id"@])
            &&& shows(j, "param_def", Json::Str(p.name@))
            &&& shows(j, "def_id", Json::Str(def_text(tcx, p.def_id)))
        }),
        p.after(tcx, m) == m,
{
    lemma_keys();
}

/// A definition shows its name, a type parameter its index, and a borrow how it borrows; none of
/// them changes anything.
pub proof fn law_plain_documents(tcx: &TyCtxt, d: DefId, p: ParamTy, b: BorrowKind, m: Mir)
    ensures
        d.doc(tcx) == Json::Str(def_text(tcx, d)),
        d.after(tcx, m) == m,
        p.doc(tcx) == Json::Num(p.index as nat),
        p.after(tcx, m) == m,
        b.doc(tcx) == Json::Str(
            match b {
                BorrowKind::Shared => "Shared"@,
                BorrowKind::Shallow => "Shallow"@,
                BorrowKind::Unique => "Unique"@,
                BorrowKind::Mut { .. } => "Mut"@,
            },
        ),
        b.after(tcx, m) == m,
{
}

/// A vector shows its items in their order, one after the other.
pub proof fn law_vector<T: ToJson>(tcx: &TyCtxt, v: Vec<T>, m: Mir)
    ensures
        v.doc(tcx) matches Json::Arr(docs) && docs.len() == v.len() && forall|i: int|
            0 <= i < v.len() ==> #[trigger] docs[i] == v@[i].doc(tcx),
        v.after(tcx, m) == list_after(tcx, v@, m),
{
}

/// The parts of data types in a list are shown in their order, one after the other, each with
/// the same generic arguments.
pub proof fn law_part_list<T: ToJsonAg>(
    tcx: &TyCtxt,
    v: Vec<T>,
    items: Seq<T>,
    x: T,
    substs: SubstsRef,
    m: Mir,
)
    ensures
        v.ag_doc(tcx, substs) matches Json::Arr(docs) && docs.len() == v.len() && forall|i: int|
            0 <= i < v.len() ==> #[trigger] docs[i] == v@[i].ag_doc(tcx, substs),
        v.ag_after(tcx, substs, m) == ags_after(tcx, v@, substs, m),
        ags_after(tcx, Seq::<T>::empty(), substs, m) == m,
        ags_after(tcx, items.push(x), substs, m) == x.ag_after(
            tcx,
            substs,
            ags_after(tcx, items, substs, m),
        ),
{
    lemma_part_last(tcx, items, x, substs, m);
}

/// A slice of parts is shown as a vector of them is.
pub proof fn law_part_slice<T: ToJsonAg>(
    tcx: &TyCtxt,
    v: Vec<T>,
    s: &[T],
    substs: SubstsRef,
    m: Mir,
)
    requires
        s@ == v@,
    ensures
        s.ag_doc(tcx, substs) == v.ag_doc(tcx, substs),
        s.ag_after(tcx, substs, m) == v.ag_after(tcx, substs, m),
{
}

proof fn lemma_part_last<T: ToJsonAg>(
    tcx: &TyCtxt,
    items: Seq<T>,
    x: T,
    substs: SubstsRef,
    m: Mir,
)
    ensures
        ags_after(tcx, items.push(x), substs, m) == x.ag_after(
            tcx,
            substs,
            ags_after(tcx, items, substs, m),
        ),
    decreases items.len(),
{
    let all = items.push(x);
    if items.len() == 0 {
        assert(all.drop_first() =~= Seq::<T>::empty());
        assert(ags_after(tcx, all.drop_first(), substs, x.ag_after(tcx, substs, m))
            == x.ag_after(tcx, substs, m));
    } else {
        assert(all.drop_first() =~= items.drop_first().push(x));
        lemma_part_last(tcx, items.drop_first(), x, substs, items[0].ag_after(tcx, substs, m));
    }
}

} // verus!
