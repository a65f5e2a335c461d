//! What can be shown.

use crate::adts::ags_after;
use crate::adts::ags_ok;
use crate::adts::ToJsonAg;
use crate::consts::constant_ok;
use crate::consts::opty_of;
use crate::consts::Constant;
use crate::consts::ConstantKind;
use crate::ctxt::args_below;
use crate::ctxt::AdtInst;
use crate::ctxt::AllocId;
use crate::ctxt::Const;
use crate::ctxt::ConstKind;
use crate::ctxt::ConstValue;
use crate::ctxt::Contents;
use crate::ctxt::DefId;
use crate::ctxt::DynKind;
use crate::ctxt::DynTy;
use crate::ctxt::ExistentialPredicate;
use crate::ctxt::FieldDef;
use crate::ctxt::FnSig;
use crate::ctxt::GenericArg;
use crate::ctxt::GlobalAlloc;
use crate::ctxt::Instance;
use crate::ctxt::InstanceDef;
use crate::ctxt::MPlaceTy;
use crate::ctxt::Mutability;
use crate::ctxt::OpRead;
use crate::ctxt::OpValue;
use crate::ctxt::PlaceValue;
use crate::ctxt::PolyFnSig;
use crate::ctxt::Principal;
use crate::ctxt::Resolution;
use crate::ctxt::Scalar;
use crate::ctxt::SubstsRef;
use crate::ctxt::Term;
use crate::ctxt::TraitInst;
use crate::ctxt::Ty;
use crate::ctxt::TyCtxt;
use crate::ctxt::TyKind;
use crate::ctxt::Unevaluated;
use crate::ctxt::ValTree;
use crate::ctxt::VariantDef;
use crate::ctxt::VariantDiscr;
use crate::docs::adt_kind_refs;
use crate::docs::adt_refs;
use crate::docs::callees_refs;
use crate::docs::clone_parts;
use crate::docs::closure;
use crate::docs::const_usize;
use crate::docs::ex_pred_refs;
use crate::docs::field_ok;
use crate::docs::field_refs;
use crate::docs::fn_named;
use crate::docs::inst_named;
use crate::docs::kind_ok;
use crate::docs::reaches;
use crate::docs::refs_ok;
use crate::docs::sig_refs;
use crate::docs::substs_refs;
use crate::docs::trait_named;
use crate::docs::ty_refs;
use crate::docs::variant_ok;
use crate::docs::variant_refs;
use crate::docs::variants_refs;
use crate::docs::Refs;
use crate::generics::AliasTy;
use crate::generics::GenericParamDef;
use crate::generics::GenericPredicates;
use crate::generics::Generics;
use crate::generics::Predicate;
use crate::generics::TraitRef;
use crate::instance_laws::arguments;
use crate::instance_laws::cloned_one_by_one;
use crate::instance_laws::lemma_first_type;
use crate::laws::needed_parts;
use crate::state::lemma_closure_one;
use crate::state::lemma_refs_ok_and;
use crate::state::Mir;
use crate::state_laws::law_parts;
use crate::state_laws::mentions;
use crate::state_laws::part;
use crate::to_json::lemma_list_add;
use crate::to_json::list_after;
use crate::to_json::list_ok;
use crate::to_json::BorrowKind;
use crate::to_json::ParamTy;
use crate::to_json::ToJson;
use crate::value_laws::in_turn;
use crate::value_laws::lemma_in_turn_front;
use crate::values::body_ok;
use crate::values::has_len;
use crate::values::op_after;
use crate::values::op_doc;
use crate::values::op_ok;
use crate::values::ops_ok;
use crate::values::place_len;
use crate::values::ref_ok;
use vstd::arithmetic::power2::pow2;
use vstd::prelude::*;

verus! {

// ---- Names ----

/// An instance has a name where its normalized arguments are free of regions and parameters.
pub open spec fn has_name(tcx: &TyCtxt, inst: Instance) -> bool {
    let args = tcx.substs@[tcx.substs@[inst.substs.0 as int].normalized.0 as int];
    !args.has_erasable_regions && !args.needs_subst
}

/// The name of a function is known: it does not resolve, or to an instance that has a name.
pub open spec fn is_function(tcx: &TyCtxt, d: DefId, substs: SubstsRef) -> bool {
    &&& tcx.resolutions@.dom().contains((d, substs))
    &&& tcx.resolutions@[(d, substs)] matches Resolution::Resolved(inst) ==> has_name(tcx, inst)
}

/// Instances, functions and traits have names where nothing stands against it.
pub proof fn law_named(tcx: &TyCtxt, inst: Instance, d: DefId, substs: SubstsRef, ti: TraitInst)
    ensures
        has_name(tcx, inst) ==> inst_named(tcx, inst),
        is_function(tcx, d, substs) ==> fn_named(tcx, d, substs),
        ti.trait_ref is None ==> trait_named(ti),
        ti.dyn_ty is Some ==> trait_named(ti),
{
}

// ---- Types ----

/// A length is a number of the size of a pointer.
pub open spec fn has_length(tcx: &TyCtxt, c: Const) -> bool {
    &&& c.kind matches ConstKind::Value(ValTree::Leaf(n))
    &&& n.size == tcx.pointer_size
    &&& n.data <= u64::MAX
}

/// The shape of a type has a form.
pub open spec fn has_form(tcx: &TyCtxt, t: Ty) -> bool {
    match tcx.kind_of(t) {
        TyKind::Array(_, c) => has_length(tcx, c),
        TyKind::FnDef(d, substs) => is_function(tcx, d, substs),
        TyKind::Dynamic(dt, DynKind::Dyn) => dt.trait_inst.trait_ref is None
            || dt.trait_inst.dyn_ty is Some,
        TyKind::Alias(kind) => !(kind is Projection),
        TyKind::Param => false,
        _ => true,
    }
}

/// References can be shown where each of their types can be.
pub proof fn lemma_each_type_ok(tcx: &TyCtxt, r: Refs)
    requires
        forall|t: Ty| #[trigger] r.tys.contains(t) ==> refs_ok(tcx, Refs::of_ty(t)),
    ensures
        refs_ok(tcx, r),
{
    assert forall|t: Ty| r.tys.contains(t) implies #[trigger] tcx.has_ty(t) by {
        assert(r.tys.contains(t));
        assert(Refs::of_ty(t).tys.contains(t));
    }
    assert forall|t: Ty| closure(tcx, r.tys).contains(t) implies kind_ok(
        tcx,
        #[trigger] tcx.kind_of(t),
    ) by {
        let o = choose|o: Ty| r.tys.contains(o) && #[trigger] reaches(tcx, o, t);
        assert(Refs::of_ty(o).tys.contains(o));
        assert(closure(tcx, Refs::of_ty(o).tys).contains(t));
    }
}

/// A type can be shown where its shape has a form and the types that it is made of can be shown.
pub proof fn law_type_showable(tcx: &TyCtxt, t: Ty, m: Mir)
    requires
        tcx.wf(),
        tcx.has_ty(t),
        has_form(tcx, t),
        forall|c: Ty| #[trigger] part(tcx, t, c) ==> c.ok(tcx, m),
    ensures
        t.ok(tcx, m),
{
    let parts = ty_refs(tcx, t);
    assert forall|c: Ty| #[trigger] parts.tys.contains(c) implies refs_ok(
        tcx,
        Refs::of_ty(c),
    ) by {
        law_parts(tcx, t, c);
        assert(part(tcx, t, c));
    }
    lemma_each_type_ok(tcx, parts);
    lemma_closure_one(tcx, t);
    assert forall|b: Ty| closure(tcx, Refs::of_ty(t).tys).contains(b) implies kind_ok(
        tcx,
        #[trigger] tcx.kind_of(b),
    ) by {
        assert(b == t || closure(tcx, parts.tys).contains(b));
    }
}

/// Generic arguments can be shown where the types among them can be; lifetimes and constants
/// always can.
pub proof fn law_arguments_showable(tcx: &TyCtxt, substs: SubstsRef, arg: GenericArg, m: Mir)
    ensures
        tcx.has_substs(substs) && (forall|t: Ty| #[trigger]
            tcx.args_of(substs).contains(GenericArg::Type(t)) ==> t.ok(tcx, m)) ==> substs.ok(
            tcx,
            m,
        ),
        arg matches GenericArg::Type(t) ==> t.ok(tcx, m) ==> arg.ok(tcx, m),
        !(arg is Type) ==> arg.ok(tcx, m),
{
    let r = Refs::of_args(tcx.args_of(substs));
    if forall|t: Ty| #[trigger] tcx.args_of(substs).contains(GenericArg::Type(t)) ==> t.ok(tcx, m) {
        assert forall|t: Ty| #[trigger] r.tys.contains(t) implies refs_ok(
            tcx,
            Refs::of_ty(t),
        ) by {
            assert(tcx.args_of(substs).contains(GenericArg::Type(t)));
        }
        lemma_each_type_ok(tcx, r);
    }
    lemma_each_type_ok(tcx, Refs::nothing());
}

/// A signature can be shown where its types can be, and a length where its type can be.
pub proof fn law_signature_showable(tcx: &TyCtxt, sig: FnSig, poly: PolyFnSig, c: Const, m: Mir)
    ensures
        (forall|t: Ty| #[trigger] sig.inputs@.contains(t) ==> t.ok(tcx, m)) && sig.output.ok(
            tcx,
            m,
        ) ==> sig.ok(tcx, m),
        poly.erased.ok(tcx, m) ==> poly.ok(tcx, m),
        has_length(tcx, c) && c.ty.ok(tcx, m) ==> c.ok(tcx, m),
{
    let r = sig_refs(sig);
    if (forall|t: Ty| #[trigger] sig.inputs@.contains(t) ==> t.ok(tcx, m)) && sig.output.ok(
        tcx,
        m,
    ) {
        assert forall|t: Ty| #[trigger] r.tys.contains(t) implies refs_ok(
            tcx,
            Refs::of_ty(t),
        ) by {
            if sig.inputs@.contains(t) {
                assert(t.ok(tcx, m));
            }
        }
        lemma_each_type_ok(tcx, r);
    }
}

/// A predicate of a trait object type can be shown where its parts are known and its types can be
/// shown.
pub proof fn law_ex_predicate_showable(tcx: &TyCtxt, p: ExistentialPredicate, m: Mir)
    requires
        tcx.wf(),
        match p {
            ExistentialPredicate::Trait { def_id, substs } => tcx.has_def(def_id) && tcx.has_substs(
                substs,
            ),
            ExistentialPredicate::Projection { def_id, substs, .. } => tcx.has_def(def_id)
                && tcx.has_substs(substs),
            ExistentialPredicate::AutoTrait(d) => tcx.has_def(d),
        },
        p matches ExistentialPredicate::Projection { term: Term::Ty(t), .. } ==> tcx.has_ty(t),
        forall|c: Ty| #[trigger] mentions(tcx, p, c) ==> c.ok(tcx, m),
    ensures
        p.ok(tcx, m),
{
    let r = ex_pred_refs(tcx, p);
    match p {
        ExistentialPredicate::Trait { substs, .. } => {
            assert(args_below(tcx.substs_data(substs).args@, tcx.tys@.len()));
        },
        ExistentialPredicate::Projection { substs, .. } => {
            assert(args_below(tcx.substs_data(substs).args@, tcx.tys@.len()));
        },
        _ => {},
    }
    assert forall|t: Ty| #[trigger] r.tys.contains(t) implies refs_ok(tcx, Refs::of_ty(t)) by {
        assert(mentions(tcx, p, t));
    }
    lemma_each_type_ok(tcx, r);
}

// ---- Items, parameters and predicates ----

/// What is known can be shown, together with generic arguments that can be.
pub proof fn law_items_showable(
    tcx: &TyCtxt,
    d: DefId,
    t: TraitRef,
    a: AliasTy,
    g: GenericParamDef,
    p: ParamTy,
    b: BorrowKind,
    m: Mir,
)
    ensures
        tcx.has_def(d) ==> d.ok(tcx, m),
        tcx.has_def(t.def_id) && t.substs.ok(tcx, m) ==> t.ok(tcx, m),
        tcx.has_def(a.def_id) && a.substs.ok(tcx, m) ==> a.ok(tcx, m),
        tcx.has_def(g.def_id) ==> g.ok(tcx, m),
        p.ok(tcx, m),
        b.ok(tcx, m),
{
}

/// A predicate can be shown where what it is about can be; one of another kind always can.
pub proof fn law_predicate_showable(tcx: &TyCtxt, p: Predicate, m: Mir)
    ensures
        match p {
            Predicate::Trait(t) => t.ok(tcx, m) ==> p.ok(tcx, m),
            Predicate::Projection { projection_ty, term: Term::Ty(ty) } => {
                projection_ty.ok(tcx, m) && ty.ok(tcx, projection_ty.after(tcx, m)) ==> p.ok(
                    tcx,
                    m,
                )
            },
            _ => p.ok(tcx, m),
        },
{
}

/// A list can be shown where its items can be, one after the other.
pub proof fn law_list_showable<T: ToJson>(tcx: &TyCtxt, items: Seq<T>, x: T, v: Vec<T>, m: Mir)
    ensures
        list_ok(tcx, Seq::<T>::empty(), m),
        list_ok(tcx, items, m) && x.ok(tcx, list_after(tcx, items, m)) ==> list_ok(
            tcx,
            items.push(x),
            m,
        ),
        list_ok(tcx, v@, m) ==> v.ok(tcx, m),
{
    lemma_list_add(tcx, items, seq![x], m);
    assert(items + seq![x] =~= items.push(x));
    assert(seq![x].drop_first() =~= Seq::<T>::empty());
    assert(list_ok(tcx, Seq::<T>::empty(), x.after(tcx, list_after(tcx, items, m))));
}

/// The parameters of an item, and the predicates on them, can be shown where they can be one
/// after the other.
pub proof fn law_generics_showable(tcx: &TyCtxt, g: Generics, p: GenericPredicates, m: Mir)
    ensures
        match g.parent {
            Some(parent) => parent.ok(tcx, m) && g.params.ok(tcx, parent.after(tcx, m)) ==> g.ok(
                tcx,
                m,
            ),
            None => g.params.ok(tcx, m) ==> g.ok(tcx, m),
        },
        match p.parent {
            Some(parent) => p.predicates.ok(tcx, m) && parent.ok(
                tcx,
                p.predicates.after(tcx, m),
            ) ==> p.ok(tcx, m),
            None => p.predicates.ok(tcx, m) ==> p.ok(tcx, m),
        },
{
    if let Some(parent) = g.parent {
        lemma_list_add(tcx, parent.all(), g.params@, m);
    }
    if let Some(parent) = p.parent {
        lemma_list_add(tcx, p.predicates@, parent.all(), m);
    }
}

// ---- Instances ----

/// An instance can be shown where its parts are known and its arguments and its type can be
/// shown.
pub proof fn law_instance_showable(tcx: &TyCtxt, inst: Instance, m: Mir)
    requires
        inst.within(tcx),
        arguments(tcx, inst).ok(tcx, m),
        match inst.def {
            InstanceDef::Virtual(_, _) => false,
            InstanceDef::CloneShim(_, _) => false,
            InstanceDef::FnPtrShim(_, t) => t.ok(tcx, m),
            InstanceDef::DropGlue(_, Some(t)) => t.ok(tcx, m),
            _ => true,
        },
    ensures
        inst.ok(tcx, m),
{
    let sr = substs_refs(tcx, arguments(tcx, inst));
    match inst.def {
        InstanceDef::FnPtrShim(_, t) => lemma_refs_ok_and(tcx, sr, Refs::of_ty(t)),
        InstanceDef::DropGlue(_, Some(t)) => lemma_refs_ok_and(tcx, sr, Refs::of_ty(t)),
        _ => {},
    }
}

/// A virtual call can be shown where the first type among its arguments is a trait object type
/// whose principal trait has a name.
pub proof fn law_virtual_call_showable(
    tcx: &TyCtxt,
    inst: Instance,
    d: DefId,
    idx: usize,
    i: int,
    t: Ty,
    dt: DynTy,
    dk: DynKind,
    p: Principal,
    m: Mir,
)
    requires
        inst.within(tcx),
        inst.def == InstanceDef::Virtual(d, idx),
        0 <= i < tcx.args_of(arguments(tcx, inst)).len(),
        tcx.args_of(arguments(tcx, inst))[i] == GenericArg::Type(t),
        forall|k: int|
            0 <= k < i ==> !(#[trigger] tcx.args_of(arguments(tcx, inst))[k] is Type),
        tcx.kind_of(t) == TyKind::Dynamic(dt, dk),
        dt.principal == Some(p),
        p.trait_inst.trait_ref is None || p.trait_inst.dyn_ty is Some,
    ensures
        inst.ok(tcx, m),
{
    lemma_first_type(tcx.args_of(arguments(tcx, inst)), i, t);
    lemma_each_type_ok(tcx, Refs::of_trait(p.trait_inst));
}

/// A clone shim can be shown where its arguments and its type can be, and it is known what
/// cloning each part resolves to.
pub proof fn law_clone_shim_showable(
    tcx: &TyCtxt,
    inst: Instance,
    d: DefId,
    t: Ty,
    parts: Seq<Ty>,
    m: Mir,
)
    requires
        inst.within(tcx),
        inst.def == InstanceDef::CloneShim(d, t),
        arguments(tcx, inst).ok(tcx, m),
        t.ok(tcx, m),
        cloned_one_by_one(tcx, t, parts),
        forall|i: int|
            0 <= i < parts.len() ==> {
                &&& tcx.clone_resolutions@.dom().contains((d, #[trigger] parts[i]))
                &&& match tcx.clone_resolutions@[(d, parts[i])] {
                    Resolution::Resolved(callee) => has_name(tcx, callee),
                    Resolution::Unresolved => true,
                    Resolution::Failed => false,
                }
            },
    ensures
        inst.ok(tcx, m),
{
    assert(parts =~= clone_parts(tcx, t));
    let cr = callees_refs(tcx, d, parts);
    let sr = substs_refs(tcx, arguments(tcx, inst));
    assert(cr.tys =~= Set::<Ty>::empty());
    lemma_each_type_ok(tcx, cr);
    lemma_refs_ok_and(tcx, cr, sr);
    lemma_refs_ok_and(tcx, cr.and(sr), Refs::of_ty(t));
}

// ---- Data types ----

/// A field can be shown where its type is known and can be.
pub open spec fn is_known_field(tcx: &TyCtxt, f: FieldDef, substs: SubstsRef) -> bool {
    &&& tcx.has_def(f.did)
    &&& tcx.field_tys@.dom().contains((f.did, substs))
    &&& refs_ok(tcx, Refs::of_ty(tcx.field_tys@[(f.did, substs)]))
}

/// Whether a variant is inhabited is known, and so are its discriminant and its fields.
pub open spec fn is_known_variant(tcx: &TyCtxt, v: VariantDef, substs: SubstsRef) -> bool {
    &&& tcx.has_def(v.def_id)
    &&& v.discr matches VariantDiscr::Explicit(d) ==> tcx.has_def(d) && is_function(
        tcx,
        d,
        tcx.empty_substs,
    )
    &&& tcx.inhabited@.dom().contains((v.def_id, substs))
    &&& forall|i: int|
        0 <= i < v.fields@.len() ==> is_known_field(tcx, #[trigger] v.fields@[i], substs)
}

/// A data type can be shown where its layout is known, and its variants and its arguments can be
/// shown: those of an enum have one discriminant each, in their order, and its discriminants a
/// type that can be shown; a struct or a union has one variant.
pub proof fn law_data_type_showable(tcx: &TyCtxt, ai: AdtInst, m: Mir)
    requires
        tcx.wf(),
        tcx.has_adt(ai.adt),
        ai.substs.ok(tcx, m),
        tcx.adt_tys@.dom().contains(ai),
        tcx.sizes@.dom().contains(tcx.adt_tys@[ai]),
        ({
            let data = tcx.adt_data(ai.adt);
            &&& data.kind is Enum ==> {
                &&& data.discr_ty.ok(tcx, m)
                &&& data.discriminants@.len() == data.variants@.len()
                &&& forall|i: int|
                    0 <= i < data.variants@.len() ==> (
                    #[trigger] data.discriminants@[i]).variant == i
            }
            &&& !(data.kind is Enum) ==> data.variants@.len() == 1
            &&& forall|i: int|
                0 <= i < data.variants@.len() ==> is_known_variant(
                    tcx,
                    #[trigger] data.variants@[i],
                    ai.substs,
                )
        }),
    ensures
        ai.ok(tcx, m),
{
    let data = tcx.adt_data(ai.adt);
    let r = adt_refs(tcx, ai);
    let kr = adt_kind_refs(tcx, ai.adt);
    let vr = variants_refs(tcx, ai);
    let sr = substs_refs(tcx, ai.substs);
    assert(data.within(tcx));
    assert forall|i: int| 0 <= i < data.variants@.len() implies variant_ok(
        tcx,
        #[trigger] data.variants@[i],
        ai.substs,
    ) by {
        let v = data.variants@[i];
        assert(is_known_variant(tcx, v, ai.substs));
        assert forall|k: int| 0 <= k < v.fields@.len() implies field_ok(
            tcx,
            #[trigger] v.fields@[k],
            ai.substs,
        ) by {
            assert(is_known_field(tcx, v.fields@[k], ai.substs));
        }
    }
    assert forall|t: Ty| #[trigger] vr.tys.contains(t) implies refs_ok(tcx, Refs::of_ty(t)) by {
        let n = data.variants@.len();
        let f = if data.kind is Enum {
            |i: int|
                variant_refs(
                    tcx,
                    data.variants@[data.discriminants@[i].variant as int],
                    ai.substs,
                )
        } else {
            |i: int| variant_refs(tcx, data.variants@[i], ai.substs)
        };
        let ftys = |i: int| f(i).tys;
        let i = choose|i: int| 0 <= i < n && (#[trigger] ftys(i)).contains(t);
        let v = data.variants@[i];
        assert(is_known_variant(tcx, v, ai.substs));
        assert(f(i) == variant_refs(tcx, v, ai.substs));
        let g = |k: int| field_refs(tcx, v.fields@[k], ai.substs);
        let k = choose|k: int| 0 <= k < v.fields@.len() && (#[trigger] g(k)).tys.contains(t);
        assert(is_known_field(tcx, v.fields@[k], ai.substs));
    }
    lemma_each_type_ok(tcx, vr);
    lemma_each_type_ok(tcx, Refs::nothing());
    lemma_refs_ok_and(tcx, kr, vr);
    lemma_refs_ok_and(tcx, kr.and(vr), sr);
}

/// A field and a discriminant can be shown where they are known, and a list of parts where they
/// can be one after the other.
pub proof fn law_data_type_parts_showable<T: ToJsonAg>(
    tcx: &TyCtxt,
    f: FieldDef,
    discr: VariantDiscr,
    v: Vec<T>,
    items: Seq<T>,
    x: T,
    substs: SubstsRef,
    m: Mir,
)
    ensures
        is_known_field(tcx, f, substs) ==> f.ag_ok(tcx, substs, m),
        discr is Relative ==> discr.ok(tcx, m),
        discr matches VariantDiscr::Explicit(d) ==> tcx.has_def(d) && is_function(
            tcx,
            d,
            tcx.empty_substs,
        ) ==> discr.ok(tcx, m),
        ags_ok(tcx, Seq::<T>::empty(), substs, m),
        ags_ok(tcx, items, substs, m) && x.ag_ok(tcx, substs, ags_after(tcx, items, substs, m))
            ==> ags_ok(tcx, items.push(x), substs, m),
        ags_ok(tcx, v@, substs, m) ==> v.ag_ok(tcx, substs, m),
{
    lemma_one_more_part(tcx, items, x, substs, m);
}

proof fn lemma_one_more_part<T: ToJsonAg>(
    tcx: &TyCtxt,
    items: Seq<T>,
    x: T,
    substs: SubstsRef,
    m: Mir,
)
    ensures
        ags_ok(tcx, items, substs, m) && x.ag_ok(tcx, substs, ags_after(tcx, items, substs, m))
            ==> ags_ok(tcx, items.push(x), substs, m),
    decreases items.len(),
{
    let all = items.push(x);
    if items.len() == 0 {
        assert(all.drop_first() =~= Seq::<T>::empty());
        assert(ags_ok(tcx, all.drop_first(), substs, x.ag_after(tcx, substs, m)));
    } else {
        assert(all.drop_first() =~= items.drop_first().push(x));
        lemma_one_more_part(tcx, items.drop_first(), x, substs, items[0].ag_after(tcx, substs, m));
    }
}

// ---- Values ----

/// Scalars of all kinds can be shown, signed integers where their bits fit their size.
pub proof fn law_scalars_showable(tcx: &TyCtxt, op: OpValue, m: Mir)
    requires
        tcx.has_ty(op.ty),
        match tcx.kind_of(op.ty) {
            TyKind::Bool => op.read is Bits,
            TyKind::Char => op.read is Bits,
            TyKind::Uint(_) => op.read is Bits,
            TyKind::Int(_) => {
                &&& op.read matches OpRead::Bits(bits)
                &&& 1 <= op.size <= 16
                &&& bits < pow2((8 * op.size) as nat)
            },
            TyKind::Float(_) => op.read is Float,
            TyKind::FnDef(_, _) => true,
            _ => false,
        },
    ensures
        op_ok(tcx, op, m),
{
}

/// The first `n` of some values can be shown one after the other.
pub open spec fn can_follow(tcx: &TyCtxt, ops: Seq<OpValue>, n: nat, m: Mir) -> bool {
    forall|i: int|
        0 <= i < n ==> op_ok(tcx, #[trigger] ops[i], in_turn(tcx, ops, i as nat, m))
}

proof fn lemma_can_follow(tcx: &TyCtxt, ops: Seq<OpValue>, needed: bool, n: nat, m: Mir)
    requires
        n <= ops.len(),
        n < ops.len() ==> needed && n > 0 && op_doc(tcx, ops[n - 1]) is None,
        can_follow(tcx, ops, n, m),
    ensures
        ops_ok(tcx, ops, needed, m),
    decreases ops.len(),
{
    if ops.len() > 0 {
        assert(in_turn(tcx, ops, 0, m) == m);
        assert(op_ok(tcx, ops[0], m));
        let next = op_after(tcx, ops[0], m);
        let rest = ops.drop_first();
        if !(needed && op_doc(tcx, ops[0]) is None) {
            assert forall|i: int| 0 <= i < n - 1 implies op_ok(
                tcx,
                #[trigger] rest[i],
                in_turn(tcx, rest, i as nat, next),
            ) by {
                lemma_in_turn_front(tcx, ops, i as nat, m);
                assert(rest[i] == ops[i + 1]);
            }
            if n < ops.len() && n > 1 {
                assert(rest[n - 2] == ops[n - 1]);
            }
            lemma_can_follow(tcx, rest, needed, (n - 1) as nat, next);
        }
    }
}

/// A struct with its only variant, the variant of an enum and a closure can be shown where they
/// have as many parts as their types say, and these can be shown one after the other: all of
/// them, or those up to one that has no form.
pub proof fn law_needed_parts_showable(tcx: &TyCtxt, op: OpValue, n: nat, m: Mir)
    requires
        tcx.has_ty(op.ty),
        needed_parts(tcx, op) is Some,
        ({
            let parts = needed_parts(tcx, op)->0;
            &&& match (tcx.kind_of(op.ty), op.read) {
                (TyKind::Adt(adt, _), OpRead::Variant { variant, .. }) => {
                    &&& tcx.adt_data(adt).kind is Enum
                    &&& variant < tcx.adt_data(adt).variants@.len()
                    &&& tcx.adt_data(adt).variants@[variant as int].fields@.len() == parts.len()
                },
                (TyKind::Adt(adt, _), _) => {
                    &&& tcx.adt_data(adt).kind is Struct
                    &&& tcx.adt_data(adt).variants@.len() == 1
                    &&& tcx.adt_data(adt).variants@[0].fields@.len() == parts.len()
                },
                (TyKind::Closure(tys), _) => tys@.len() == parts.len(),
                _ => false,
            }
            &&& n <= parts.len()
            &&& n < parts.len() ==> n > 0 && op_doc(tcx, parts[n - 1]) is None
            &&& can_follow(tcx, parts, n, m)
        }),
    ensures
        op_ok(tcx, op, m),
{
    lemma_can_follow(tcx, needed_parts(tcx, op)->0, true, n, m);
}

/// An array and a tuple can be shown where they have as many parts as their types say, and these
/// can be shown one after the other; for an array the element type as well.
pub proof fn law_all_parts_showable(tcx: &TyCtxt, op: OpValue, parts: Vec<OpValue>, m: Mir)
    requires
        tcx.has_ty(op.ty),
        op.read == OpRead::Fields(parts),
        match tcx.kind_of(op.ty) {
            TyKind::Array(elem, c) => {
                &&& has_length(tcx, c)
                &&& const_usize(c) == parts@.len()
                &&& elem.ok(tcx, m)
            },
            TyKind::Tuple(tys) => tys@.len() == parts@.len(),
            _ => false,
        },
        can_follow(tcx, parts@, parts@.len(), m),
    ensures
        op_ok(tcx, op, m),
{
    lemma_can_follow(tcx, parts@, false, parts@.len(), m);
}

/// A function pointer can be shown where it points to a function that can be shown, or to nothing
/// that is known.
pub proof fn law_fn_ptr_showable(tcx: &TyCtxt, op: OpValue, alloc: Option<AllocId>, m: Mir)
    requires
        tcx.has_ty(op.ty),
        tcx.kind_of(op.ty) is FnPtr,
        op.read == OpRead::FnPtr(alloc),
        alloc matches Some(a) ==> {
            &&& tcx.has_alloc(a)
            &&& match tcx.alloc_of(a) {
                Some(GlobalAlloc::Function(inst)) => inst.ok(tcx, m),
                Some(_) => false,
                None => true,
            }
        },
    ensures
        op_ok(tcx, op, m),
{
}

/// The place is that of a slice or a `str` with a length in the pointer, or one whose layout has
/// a length.
pub open spec fn has_count(tcx: &TyCtxt, place: MPlaceTy) -> bool {
    if place.is_unsized {
        &&& tcx.has_ty(place.ty)
        &&& tcx.kind_of(place.ty) is Slice || tcx.kind_of(place.ty) is Str
        &&& place.meta matches Some(Scalar::Int(i))
        &&& i.size == tcx.pointer_size
        &&& i.data <= u64::MAX
    } else {
        place.fields is Array
    }
}

/// The length of a place can be asked for where it has one, and where the pointer carries no
/// number of the size of a pointer.
pub proof fn law_length_known(tcx: &TyCtxt, place: MPlaceTy)
    ensures
        has_count(tcx, place) ==> has_len(tcx, place) && place_len(tcx, place) is Some,
        place.is_unsized && tcx.has_ty(place.ty) && (tcx.kind_of(place.ty) is Slice
            || tcx.kind_of(place.ty) is Str) ==> (place.meta matches Some(s) ==> (
        s matches Scalar::Int(i) ==> i.size != tcx.pointer_size) ==> has_len(tcx, place)),
{
}

/// References and raw pointers can be shown where:
/// - they are addresses without metadata; or
/// - they point to the start of an allocation that is no memory; or
/// - they point to the start of memory that has a static; or
/// - they point to the start of memory that has none, and what they point to can be shown.
/// One to a `str` or a slice that cannot write, into a static or memory, has a length.
pub proof fn law_pointer_showable(
    tcx: &TyCtxt,
    op: OpValue,
    rty: Ty,
    mutability: Mutability,
    m: Mir,
)
    requires
        match op.read {
            OpRead::Addr { has_meta, .. } => !has_meta,
            OpRead::Place(p) => {
                let slice = !mutability.is_mut && (tcx.kind_of(rty) is Str || tcx.kind_of(
                    rty,
                ) is Slice);
                &&& tcx.has_alloc(p.place.ptr.alloc)
                &&& p.place.ptr.offset == 0
                &&& match tcx.alloc_of(p.place.ptr.alloc) {
                    Some(GlobalAlloc::Static(_)) => slice ==> has_count(tcx, p.place),
                    Some(GlobalAlloc::Memory(ca)) => {
                        &&& slice ==> has_count(tcx, p.place)
                        &&& m.allocs.dom().contains((ca, op.ty)) || {
                            &&& tcx.alloc_ids@.dom().contains((ca, op.ty))
                            &&& is_known_content(tcx, rty, mutability, *p, m)
                        }
                    },
                    _ => true,
                }
            },
            _ => false,
        },
    ensures
        ref_ok(tcx, op, rty, mutability, m),
        tcx.has_ty(op.ty) && (tcx.kind_of(op.ty) == TyKind::Ref(rty, mutability) || tcx.kind_of(
            op.ty,
        ) == TyKind::RawPtr(rty, mutability)) ==> op_ok(tcx, op, m),
{
    if let OpRead::Place(p) = op.read {
        assert(body_ok(tcx, rty, *p, mutability.is_mut, m) || !is_known_content(
            tcx,
            rty,
            mutability,
            *p,
            m,
        ) || !has_count(tcx, p.place)) by {
            if let Contents::Elements(elements) = p.contents {
                if can_follow(tcx, elements@, elements@.len(), m) {
                    lemma_can_follow(tcx, elements@, false, elements@.len(), m);
                }
            }
        }
        assert(ref_ok(tcx, op, rty, mutability, m));
    }
}

/// What a pointer to memory points to can be shown: the bytes of a `str` and the elements of a
/// slice, as many as the pointer says, with an array type for them; anything else as a whole.
pub open spec fn is_known_content(
    tcx: &TyCtxt,
    rty: Ty,
    mutability: Mutability,
    p: PlaceValue,
    m: Mir,
) -> bool {
    let len = place_len(tcx, p.place)->0;
    if !mutability.is_mut && tcx.kind_of(rty) is Str {
        &&& p.contents matches Contents::Bytes(bytes)
        &&& bytes@.len() == len
        &&& tcx.array_tys@.dom().contains((tcx.u8_ty, len))
        &&& refs_ok(tcx, Refs::of_ty(tcx.array_tys@[(tcx.u8_ty, len)]))
    } else if !mutability.is_mut && tcx.kind_of(rty) is Slice {
        let elem = tcx.kind_of(rty)->Slice_0;
        &&& p.contents matches Contents::Elements(elements)
        &&& elements@.len() == len
        &&& can_follow(tcx, elements@, elements@.len(), m)
        &&& tcx.array_tys@.dom().contains((elem, len))
        &&& refs_ok(tcx, Refs::of_ty(tcx.array_tys@[(elem, len)]))
    } else {
        &&& p.contents matches Contents::Whole(whole)
        &&& whole.ty == rty
        &&& op_ok(tcx, whole, m)
        &&& refs_ok(tcx, Refs::of_ty(rty))
    }
}

// ---- Constants ----

/// A constant value can be shown where its type can be and has a layout, its operand can be read,
/// and what is read can be shown after the type.  A slice has its bounds in order, and a length
/// that fits a pointer.
pub proof fn law_constant_showable(tcx: &TyCtxt, val: ConstValue, t: Ty, m: Mir)
    requires
        t.ok(tcx, m),
        tcx.sizes@.dom().contains(t),
        val matches ConstValue::Slice { start, end, .. } ==> {
            &&& start <= end
            &&& end - start < pow2((8 * tcx.pointer_size) as nat)
        },
        tcx.operands@.dom().contains(opty_of(tcx, val, t)),
        op_ok(tcx, tcx.operands@[opty_of(tcx, val, t)], t.after(tcx, m)),
    ensures
        (val, t).ok(tcx, m),
{
}

/// The value of a constant of a function body is known where it is given, where its conversion
/// is known, or where evaluating it does not fail.
pub proof fn law_constant_known(tcx: &TyCtxt, constant: Constant)
    ensures
        match constant.literal {
            ConstantKind::Val(_, _) => constant_ok(tcx, constant),
            ConstantKind::Unevaluated(uv, _) => tcx.const_evals@.dom().contains(uv) ==> constant_ok(
                tcx,
                constant,
            ),
            ConstantKind::Ty(ct) => match ct.kind {
                ConstKind::Value(_) => tcx.const_vals@.dom().contains(ct) ==> constant_ok(
                    tcx,
                    constant,
                ),
                ConstKind::Unevaluated(uc) => forall|uv: Unevaluated|
                    uv.def == uc.def && uv.substs == uc.substs && uv.promoted is None
                        && #[trigger] tcx.const_evals@.dom().contains(uv) ==> constant_ok(
                        tcx,
                        constant,
                    ),
                ConstKind::Unknown => true,
            },
        },
{
}

} // verus!
