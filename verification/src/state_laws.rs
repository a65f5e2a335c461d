//! What is in the tables and in use after something has been shown, told by the shapes of types.

use crate::ctxt::AdtInst;
use crate::ctxt::ConstAllocation;
use crate::ctxt::DynKind;
use crate::ctxt::ExistentialPredicate;
use crate::ctxt::GenericArg;
use crate::ctxt::Instance;
use crate::ctxt::Resolution;
use crate::ctxt::Term;
use crate::ctxt::TraitInst;
use crate::ctxt::Ty;
use crate::ctxt::TyCtxt;
use crate::ctxt::TyKind;
use crate::docs::closure;
use crate::docs::ex_pred_refs;
use crate::docs::ex_preds_refs;
use crate::docs::reaches;
use crate::docs::ty_refs;
use crate::docs::Refs;
use crate::json::json_of;
use crate::json::Json;
use crate::laws::law_record_keeps;
use crate::state::adts_of;
use crate::state::extends;
use crate::state::fresh;
use crate::state::gathered;
use crate::state::insts_of;
use crate::state::lemma_reaches_step;
use crate::state::lemma_refs_below;
use crate::state::record;
use crate::state::traits_of;
use crate::state::Mir;
use crate::state::MirState;
use crate::to_json::lemma_list_add;
use crate::to_json::list_after;
use crate::to_json::list_docs;
use crate::to_json::ToJson;
use vstd::prelude::*;

verus! {

/// A predicate of a trait object type mentions `c`: among its generic arguments, or on the right
/// of a projection.
pub open spec fn mentions(tcx: &TyCtxt, p: ExistentialPredicate, c: Ty) -> bool {
    match p {
        ExistentialPredicate::Trait { substs, .. } => tcx.args_of(substs).contains(
            GenericArg::Type(c),
        ),
        ExistentialPredicate::Projection { substs, term: Term::Ty(rhs), .. } => c == rhs
            || tcx.args_of(substs).contains(GenericArg::Type(c)),
        _ => false,
    }
}

/// `t` is directly made of `c`.
pub open spec fn part(tcx: &TyCtxt, t: Ty, c: Ty) -> bool {
    match tcx.kind_of(t) {
        TyKind::Tuple(tys) => tys@.contains(c),
        TyKind::Closure(tys) => tys@.contains(c),
        TyKind::Slice(e) => c == e,
        TyKind::Ref(p, _) => c == p,
        TyKind::RawPtr(p, _) => c == p,
        TyKind::Array(e, n) => c == e || c == n.ty,
        TyKind::Adt(_, substs) => tcx.args_of(substs).contains(GenericArg::Type(c)),
        TyKind::FnPtr(sig) => sig.erased.inputs@.contains(c) || c == sig.erased.output,
        TyKind::Dynamic(dt, DynKind::Dyn) => exists|i: int|
            0 <= i < dt.predicates.len() && mentions(tcx, #[trigger] dt.predicates@[i], c),
        _ => false,
    }
}

/// A type refers to the types that it is made of.
pub proof fn law_parts(tcx: &TyCtxt, t: Ty, c: Ty)
    ensures
        ty_refs(tcx, t).tys.contains(c) <==> part(tcx, t, c),
{
    if let TyKind::Dynamic(dt, DynKind::Dyn) = tcx.kind_of(t) {
        let ps = dt.predicates@;
        let f = |i: int| ex_pred_refs(tcx, ps[i]);
        let ftys = |i: int| f(i).tys;
        assert(ty_refs(tcx, t).tys.contains(c) == ex_preds_refs(tcx, ps).tys.contains(c));
        if ex_preds_refs(tcx, ps).tys.contains(c) {
            let i = choose|i: int| 0 <= i < ps.len() && (#[trigger] ftys(i)).contains(c);
            assert(mentions(tcx, ps[i], c));
        }
        if part(tcx, t, c) {
            let i = choose|i: int| 0 <= i < ps.len() && mentions(tcx, #[trigger] ps[i], c);
            assert(ftys(i).contains(c));
        }
    }
}

/// `x` came into the table of types between `m` and `after`.
pub open spec fn is_new(m: Mir, after: Mir, x: Ty) -> bool {
    after.tys.contains(x) && !m.tys.contains(x)
}

/// What is reached from elsewhere is part of something that is reached.
proof fn lemma_reached_from(tcx: &TyCtxt, a: Ty, b: Ty) -> (w: Ty)
    requires
        tcx.wf(),
        tcx.has_ty(a),
        reaches(tcx, a, b),
        a != b,
    ensures
        reaches(tcx, a, w),
        ty_refs(tcx, w).tys.contains(b),
    decreases a.0,
{
    let c = choose|c: Ty|
        c.0 < a.0 && #[trigger] ty_refs(tcx, a).tys.contains(c) && reaches(tcx, c, b);
    lemma_refs_below(tcx, a);
    if c == b {
        a
    } else {
        let w = lemma_reached_from(tcx, c, b);
        assert(reaches(tcx, a, w));
        w
    }
}

/// After something that refers to `r` has been shown:
/// - the table of types holds what it held, the types of `r`, and the parts of each new type;
///   nothing else is new;
/// - in use are what was in use, what `r` refers to, the data types among the new types, the
///   functions that new function types resolve to, and the traits of new trait object types;
///   nothing else is;
/// - the table of allocations is as before.
pub proof fn law_record(tcx: &TyCtxt, m: Mir, r: Refs)
    requires
        tcx.wf(),
        forall|t: Ty| r.tys.contains(t) ==> #[trigger] tcx.has_ty(t),
        forall|t: Ty, c: Ty|
            m.tys.contains(t) && #[trigger] part(tcx, t, c) ==> m.tys.contains(c),
    ensures
        ({
            let after = record(tcx, m, r);
            &&& extends(after, m)
            &&& after.allocs == m.allocs
            &&& forall|t: Ty| #[trigger] r.tys.contains(t) ==> after.tys.contains(t)
            &&& forall|t: Ty, c: Ty|
                after.tys.contains(t) && #[trigger] part(tcx, t, c) ==> after.tys.contains(c)
            &&& forall|t: Ty| #[trigger]
                is_new(m, after, t) ==> r.tys.contains(t) || exists|w: Ty|
                    is_new(m, after, w) && #[trigger] part(tcx, w, t)
            &&& forall|x: AdtInst| #[trigger]
                after.adts.contains(x) <==> m.adts.contains(x) || r.adts.contains(x) || exists|
                    t: Ty,
                | #[trigger]
                    is_new(m, after, t) && tcx.kind_of(t) == TyKind::Adt(x.adt, x.substs)
            &&& forall|x: Instance| #[trigger]
                after.insts.contains(x) <==> m.insts.contains(x) || r.insts.contains(x) || exists|
                    t: Ty,
                | #[trigger]
                    is_new(m, after, t) && (tcx.kind_of(t) matches TyKind::FnDef(d, substs)
                        && tcx.resolutions@[(d, substs)] == Resolution::Resolved(x))
            &&& forall|x: TraitInst| #[trigger]
                after.traits.contains(x) <==> m.traits.contains(x) || r.traits.contains(x)
                    || exists|t: Ty| #[trigger]
                    is_new(m, after, t) && (tcx.kind_of(t) matches TyKind::Dynamic(
                        dt,
                        DynKind::Dyn,
                    ) && dt.trait_inst == x)
        }),
{
    let after = record(tcx, m, r);
    let new = fresh(tcx, m, r);
    law_record_keeps(tcx, m, r);
    assert forall|t: Ty, c: Ty| after.tys.contains(t) && #[trigger] part(
        tcx,
        t,
        c,
    ) implies after.tys.contains(c) by {
        law_parts(tcx, t, c);
        if !m.tys.contains(t) {
            let o = choose|o: Ty| r.tys.contains(o) && #[trigger] reaches(tcx, o, t);
            assert(tcx.has_ty(o));
            lemma_reaches_step(tcx, o, t, c);
            assert(closure(tcx, r.tys).contains(c));
        }
    }
    assert forall|t: Ty| #[trigger] is_new(m, after, t) implies r.tys.contains(t) || exists|w: Ty|
        is_new(m, after, w) && #[trigger] part(tcx, w, t) by {
        let o = choose|o: Ty| r.tys.contains(o) && #[trigger] reaches(tcx, o, t);
        assert(tcx.has_ty(o));
        if o != t {
            let w = lemma_reached_from(tcx, o, t);
            law_parts(tcx, w, t);
            assert(closure(tcx, r.tys).contains(w));
            assert(is_new(m, after, w) && part(tcx, w, t));
        }
    }
    assert forall|t: Ty| #[trigger] is_new(m, after, t) == new.contains(t) by {}
    assert forall|x: AdtInst| #[trigger] after.adts.contains(x) <==> m.adts.contains(x)
        || r.adts.contains(x) || exists|t: Ty| #[trigger]
        is_new(m, after, t) && tcx.kind_of(t) == TyKind::Adt(x.adt, x.substs) by {
        let of = adts_of(tcx);
        if gathered(new, of).contains(x) {
            let t = choose|t: Ty| new.contains(t) && (#[trigger] of(t)).contains(x);
            assert(is_new(m, after, t) && tcx.kind_of(t) == TyKind::Adt(x.adt, x.substs));
        }
        if exists|t: Ty| #[trigger]
            is_new(m, after, t) && tcx.kind_of(t) == TyKind::Adt(x.adt, x.substs) {
            let t = choose|t: Ty| #[trigger]
                is_new(m, after, t) && tcx.kind_of(t) == TyKind::Adt(x.adt, x.substs);
            assert(of(t).contains(x));
        }
    }
    assert forall|x: Instance| #[trigger] after.insts.contains(x) <==> m.insts.contains(x)
        || r.insts.contains(x) || exists|t: Ty| #[trigger]
        is_new(m, after, t) && (tcx.kind_of(t) matches TyKind::FnDef(d, substs)
            && tcx.resolutions@[(d, substs)] == Resolution::Resolved(x)) by {
        let of = insts_of(tcx);
        if gathered(new, of).contains(x) {
            let t = choose|t: Ty| new.contains(t) && (#[trigger] of(t)).contains(x);
            lemma_type_marks(tcx, t);
            assert(is_new(m, after, t));
        }
        if exists|t: Ty| #[trigger]
            is_new(m, after, t) && (tcx.kind_of(t) matches TyKind::FnDef(d, substs)
                && tcx.resolutions@[(d, substs)] == Resolution::Resolved(x)) {
            let t = choose|t: Ty| #[trigger]
                is_new(m, after, t) && (tcx.kind_of(t) matches TyKind::FnDef(d, substs)
                    && tcx.resolutions@[(d, substs)] == Resolution::Resolved(x));
            assert(of(t).contains(x));
        }
    }
    assert forall|x: TraitInst| #[trigger] after.traits.contains(x) <==> m.traits.contains(x)
        || r.traits.contains(x) || exists|t: Ty| #[trigger]
        is_new(m, after, t) && (tcx.kind_of(t) matches TyKind::Dynamic(dt, DynKind::Dyn)
            && dt.trait_inst == x) by {
        let of = traits_of(tcx);
        if gathered(new, of).contains(x) {
            let t = choose|t: Ty| new.contains(t) && (#[trigger] of(t)).contains(x);
            lemma_type_marks(tcx, t);
            assert(is_new(m, after, t));
        }
        if exists|t: Ty| #[trigger]
            is_new(m, after, t) && (tcx.kind_of(t) matches TyKind::Dynamic(dt, DynKind::Dyn)
                && dt.trait_inst == x) {
            let t = choose|t: Ty| #[trigger]
                is_new(m, after, t) && (tcx.kind_of(t) matches TyKind::Dynamic(dt, DynKind::Dyn)
                    && dt.trait_inst == x);
            assert(of(t).contains(x));
        }
    }
}

/// The predicates of a trait object type mark nothing as used.
proof fn lemma_type_marks(tcx: &TyCtxt, t: Ty)
    ensures
        tcx.kind_of(t) matches TyKind::Dynamic(dt, _) ==> {
            &&& ex_preds_refs(tcx, dt.predicates@).adts == Set::<AdtInst>::empty()
            &&& ex_preds_refs(tcx, dt.predicates@).insts == Set::<Instance>::empty()
            &&& ex_preds_refs(tcx, dt.predicates@).traits == Set::<TraitInst>::empty()
        },
{
    if let TyKind::Dynamic(dt, _) = tcx.kind_of(t) {
        let r = ex_preds_refs(tcx, dt.predicates@);
        assert(r.adts =~= Set::<AdtInst>::empty());
        assert(r.insts =~= Set::<Instance>::empty());
        assert(r.traits =~= Set::<TraitInst>::empty());
    }
}

/// Showing a type refers to that type and to nothing else, and gives its ID.
pub proof fn law_type_shown(tcx: &TyCtxt, t: Ty, m: Mir)
    ensures
        t.doc(tcx) == Json::Str(tcx.ty_data(t).id@),
        t.after(tcx, m) == record(
            tcx,
            m,
            (Refs {
                tys: Set::empty().insert(t),
                adts: Set::empty(),
                insts: Set::empty(),
                traits: Set::empty(),
            }),
        ),
{
}

/// The state of a rendering is what its tables and its marks hold.
pub proof fn law_state<'a>(s: MirState<'a>)
    ensures
        forall|t: Ty| #[trigger] s@.tys.contains(t) <==> s.tys@.dom().contains(t),
        s@.adts == s.used.types@,
        s@.insts == s.used.instances@,
        s@.traits == s.used.traits@,
        forall|k: (ConstAllocation, Ty)| #[trigger]
            s@.allocs.dom().contains(k) <==> s.allocs@.dom().contains(k),
        forall|k: (ConstAllocation, Ty)| #[trigger]
            s@.allocs.dom().contains(k) ==> s@.allocs[k] == json_of(s.allocs@[k].body),
{
}

/// The tables hold the IDs that the session gives to types and allocations, and with a type its
/// parts.
pub proof fn law_tables<'a>(s: MirState<'a>)
    requires
        s.wf(),
    ensures
        forall|t: Ty| #[trigger]
            s.tys@.dom().contains(t) ==> s.tys@[t].id@ == s.tcx.ty_data(t).id@,
        forall|k: (ConstAllocation, Ty)| #[trigger]
            s.allocs@.dom().contains(k) ==> s.allocs@[k].id@ == s.tcx.alloc_ids@[k]@,
        forall|t: Ty, c: Ty|
            s.tys@.dom().contains(t) && #[trigger] part(s.tcx, t, c) ==> s.tys@.dom().contains(c),
{
    assert forall|t: Ty, c: Ty| s.tys@.dom().contains(t) && #[trigger] part(
        s.tcx,
        t,
        c,
    ) implies s.tys@.dom().contains(c) by {
        law_parts(s.tcx, t, c);
    }
}

/// A list has one document for each of its items, that of the item, in their order; its items
/// are shown one after the other.
pub proof fn law_list<T: ToJson>(tcx: &TyCtxt, items: Seq<T>, x: T, m: Mir)
    ensures
        list_docs(tcx, items).len() == items.len(),
        forall|i: int|
            0 <= i < items.len() ==> #[trigger] list_docs(tcx, items)[i] == items[i].doc(tcx),
        list_after(tcx, Seq::<T>::empty(), m) == m,
        list_after(tcx, items.push(x), m) == x.after(tcx, list_after(tcx, items, m)),
{
    lemma_list_add(tcx, items, seq![x], m);
    assert(items + seq![x] =~= items.push(x));
    let end = list_after(tcx, items, m);
    assert(seq![x].drop_first() =~= Seq::<T>::empty());
    assert(list_after(tcx, seq![x], end) == list_after(
        tcx,
        Seq::<T>::empty(),
        x.after(tcx, end),
    ));
}

} // verus!
