//! What each kind of instance shows, and what showing it does.

use crate::ctxt::DefId;
use crate::ctxt::DynKind;
use crate::ctxt::DynTy;
use crate::ctxt::GenericArg;
use crate::ctxt::Instance;
use crate::ctxt::InstanceDef;
use crate::ctxt::Principal;
use crate::ctxt::Resolution;
use crate::ctxt::SubstsRef;
use crate::ctxt::Ty;
use crate::ctxt::TyCtxt;
use crate::ctxt::TyKind;
use crate::docs::callee_refs;
use crate::docs::callees_refs;
use crate::docs::clone_parts;
use crate::docs::def_text;
use crate::docs::first_type;
use crate::docs::inst_text;
use crate::docs::method_index;
use crate::docs::substs_refs;
use crate::docs::trait_text;
use crate::docs::Refs;
use crate::json::Json;
use crate::reading::entry;
use crate::reading::has_keys;
use crate::reading::lemma_keys;
use crate::reading::shows;
use crate::state::lemma_closure_empty;
use crate::state::lemma_record_and;
use crate::state::lemma_record_no_types;
use crate::state::record;
use crate::state::Mir;
use crate::to_json::ToJson;
use crate::type_laws::id;
use crate::type_laws::is_args;
use vstd::prelude::*;

verus! {

/// The generic arguments of an instance, normalized.
pub open spec fn arguments(tcx: &TyCtxt, inst: Instance) -> SubstsRef {
    tcx.substs_data(inst.substs).normalized
}

/// The document holds the name of a definition and the generic arguments of an instance.
pub open spec fn shows_item(j: Json, tcx: &TyCtxt, kind: &str, d: DefId, inst: Instance) -> bool {
    &&& shows(j, "kind", Json::Str(kind@))
    &&& shows(j, "def_id", Json::Str(def_text(tcx, d)))
    &&& j->Obj_0.dom().contains("substs"@)
    &&& is_args(entry(j, "substs"), tcx, tcx.args_of(arguments(tcx, inst)))
}

/// Functions, intrinsics and the shims that stand for them show their definition and their
/// generic arguments; the arguments are shown, and nothing else is.
pub proof fn law_item_instances(tcx: &TyCtxt, inst: Instance, m: Mir)
    ensures
        ({
            let j = inst.doc(tcx);
            let keys = set!["kind"@, "def_id"@, "substs"@];
            match inst.def {
                InstanceDef::Item(item) => {
                    &&& has_keys(j, keys)
                    &&& shows_item(j, tcx, "Item", item.did, inst)
                    &&& inst.after(tcx, m) == arguments(tcx, inst).after(tcx, m)
                },
                InstanceDef::Intrinsic(d) => {
                    &&& has_keys(j, keys)
                    &&& shows_item(j, tcx, "Intrinsic", d, inst)
                    &&& inst.after(tcx, m) == arguments(tcx, inst).after(tcx, m)
                },
                InstanceDef::VTableShim(d) => {
                    &&& has_keys(j, keys)
                    &&& shows_item(j, tcx, "VTableShim", d, inst)
                    &&& inst.after(tcx, m) == arguments(tcx, inst).after(tcx, m)
                },
                InstanceDef::ReifyShim(d) => {
                    &&& has_keys(j, keys)
                    &&& shows_item(j, tcx, "ReifyShim", d, inst)
                    &&& inst.after(tcx, m) == arguments(tcx, inst).after(tcx, m)
                },
                InstanceDef::ClosureOnceShim { call_once, .. } => {
                    &&& has_keys(j, set!["kind"@, "call_once"@, "substs"@])
                    &&& shows(j, "kind", Json::Str("ClosureOnceShim"@))
                    &&& shows(j, "call_once", Json::Str(def_text(tcx, call_once)))
                    &&& is_args(entry(j, "substs"), tcx, tcx.args_of(arguments(tcx, inst)))
                    &&& inst.after(tcx, m) == arguments(tcx, inst).after(tcx, m)
                },
                _ => true,
            }
        }),
{
    lemma_keys();
}

/// A shim for a function pointer, and drop glue, also show the type that they are for: drop glue
/// that does nothing shows `null`.  The arguments are shown, then the type.
pub proof fn law_typed_instances(tcx: &TyCtxt, inst: Instance, m: Mir)
    ensures
        ({
            let j = inst.doc(tcx);
            let keys = set!["kind"@, "def_id"@, "substs"@, "ty"@];
            let shown = arguments(tcx, inst).after(tcx, m);
            match inst.def {
                InstanceDef::FnPtrShim(d, t) => {
                    &&& has_keys(j, keys)
                    &&& shows_item(j, tcx, "FnPtrShim", d, inst)
                    &&& shows(j, "ty", id(tcx, t))
                    &&& inst.after(tcx, m) == t.after(tcx, shown)
                },
                InstanceDef::DropGlue(d, Some(t)) => {
                    &&& has_keys(j, keys)
                    &&& shows_item(j, tcx, "DropGlue", d, inst)
                    &&& shows(j, "ty", id(tcx, t))
                    &&& inst.after(tcx, m) == t.after(tcx, shown)
                },
                InstanceDef::DropGlue(d, None) => {
                    &&& has_keys(j, keys)
                    &&& shows_item(j, tcx, "DropGlue", d, inst)
                    &&& shows(j, "ty", Json::Null)
                    &&& inst.after(tcx, m) == shown
                },
                _ => true,
            }
        }),
{
    lemma_keys();
    let sr = substs_refs(tcx, arguments(tcx, inst));
    match inst.def {
        InstanceDef::FnPtrShim(_, t) => lemma_record_and(tcx, m, sr, Refs::of_ty(t)),
        InstanceDef::DropGlue(_, Some(t)) => lemma_record_and(tcx, m, sr, Refs::of_ty(t)),
        _ => {},
    }
}

/// The first type among generic arguments is the one that no other type comes before.
pub proof fn lemma_first_type(args: Seq<GenericArg>, i: int, t: Ty)
    requires
        0 <= i < args.len(),
        args[i] == GenericArg::Type(t),
        forall|k: int| 0 <= k < i ==> !(#[trigger] args[k] is Type),
    ensures
        first_type(args) == Some(t),
    decreases args.len(),
{
    if i > 0 {
        assert(!(args[0] is Type));
        let rest = args.drop_first();
        assert forall|k: int| 0 <= k < i - 1 implies !(#[trigger] rest[k] is Type) by {
            assert(rest[k] == args[k + 1]);
        }
        assert(rest[i - 1] == args[i]);
        lemma_first_type(rest, i - 1, t);
    }
}

/// A virtual call shows the principal trait of its self type, the method, and the index of the
/// method among the methods of the vtable.  The self type is the first type among its generic
/// arguments.  The trait is marked as used, and nothing else is done.
pub proof fn law_virtual_call(
    tcx: &TyCtxt,
    inst: Instance,
    d: DefId,
    idx: usize,
    i: int,
    t: Ty,
    dt: DynTy,
    dk: DynKind,
    p: Principal,
    m: Mir,
)
    requires
        inst.def == InstanceDef::Virtual(d, idx),
        0 <= i < tcx.args_of(arguments(tcx, inst)).len(),
        tcx.args_of(arguments(tcx, inst))[i] == GenericArg::Type(t),
        forall|k: int|
            0 <= k < i ==> !(#[trigger] tcx.args_of(arguments(tcx, inst))[k] is Type),
        tcx.kind_of(t) == TyKind::Dynamic(dt, dk),
        dt.principal == Some(p),
    ensures
        ({
            let j = inst.doc(tcx);
            &&& has_keys(j, set!["kind"@, "trait_id"@, "item_id"@, "index"@])
            &&& shows(j, "kind", Json::Str("Virtual"@))
            &&& shows(j, "trait_id", Json::Str(trait_text(tcx, p.trait_inst)))
            &&& shows(j, "item_id", Json::Str(def_text(tcx, d)))
            &&& shows(j, "index", Json::Num(method_index(p.vtable@, idx as nat)))
        }),
        inst.after(tcx, m) == (Mir { traits: m.traits.insert(p.trait_inst), ..m }),
{
    lemma_keys();
    lemma_first_type(tcx.args_of(arguments(tcx, inst)), i, t);
    lemma_closure_empty(tcx);
    lemma_record_no_types(tcx, m, Refs::of_trait(p.trait_inst));
    let after = inst.after(tcx, m);
    assert(after.adts =~= m.adts);
    assert(after.insts =~= m.insts);
    assert(after.traits =~= m.traits.insert(p.trait_inst));
}

/// What a clone shim for `t` clones one by one: the components of a tuple, what a closure
/// captures, and for an array its element type once.
pub open spec fn cloned_one_by_one(tcx: &TyCtxt, t: Ty, parts: Seq<Ty>) -> bool {
    match tcx.kind_of(t) {
        TyKind::Array(e, _) => parts.len() == 1 && parts[0] == e,
        TyKind::Tuple(tys) => parts =~= tys@,
        TyKind::Closure(tys) => parts =~= tys@,
        _ => parts.len() == 0,
    }
}

/// A clone shim shows one callee for each part that it clones, in their order: the name of the
/// instance that cloning the part resolves to, `null` where it does not resolve.  These
/// instances, and no others, are marked as used; then the arguments and the type are shown.
pub proof fn law_clone_shim(
    tcx: &TyCtxt,
    inst: Instance,
    d: DefId,
    t: Ty,
    parts: Seq<Ty>,
    m: Mir,
)
    requires
        inst.def == InstanceDef::CloneShim(d, t),
        cloned_one_by_one(tcx, t, parts),
    ensures
        ({
            let j = inst.doc(tcx);
            &&& has_keys(j, set!["kind"@, "def_id"@, "substs"@, "ty"@, "callees"@])
            &&& shows_item(j, tcx, "CloneShim", d, inst)
            &&& shows(j, "ty", id(tcx, t))
            &&& entry(j, "callees") matches Json::Arr(callees)
            &&& callees.len() == parts.len()
            &&& forall|i: int|
                0 <= i < parts.len() ==> #[trigger] callees[i] == (match tcx.clone_resolutions@[(
                    d,
                    parts[i],
                )] {
                    Resolution::Resolved(callee) => Json::Str(inst_text(tcx, callee)),
                    _ => Json::Null,
                })
        }),
        ({
            let called = Set::new(
                |x: Instance|
                    exists|i: int|
                        0 <= i < parts.len() && tcx.clone_resolutions@[(d, #[trigger] parts[i])]
                            == Resolution::Resolved(x),
            );
            let marked = Mir { insts: m.insts.union(called), ..m };
            inst.after(tcx, m) == t.after(tcx, arguments(tcx, inst).after(tcx, marked))
        }),
{
    lemma_keys();
    assert(parts =~= clone_parts(tcx, t));
    let called = Set::new(
        |x: Instance|
            exists|i: int|
                0 <= i < parts.len() && tcx.clone_resolutions@[(d, #[trigger] parts[i])]
                    == Resolution::Resolved(x),
    );
    let marked = Mir { insts: m.insts.union(called), ..m };
    let cr = callees_refs(tcx, d, parts);
    let sr = substs_refs(tcx, arguments(tcx, inst));
    let f = |i: int| callee_refs(tcx, d, parts[i]);
    let finsts = |i: int| f(i).insts;
    assert(cr.tys =~= Set::<Ty>::empty());
    assert forall|x: Instance| #[trigger] cr.insts.contains(x) == called.contains(x) by {
        if cr.insts.contains(x) {
            let i = choose|i: int| 0 <= i < parts.len() && (#[trigger] finsts(i)).contains(x);
            assert(tcx.clone_resolutions@[(d, parts[i])] == Resolution::Resolved(x));
        }
        if called.contains(x) {
            let i = choose|i: int|
                0 <= i < parts.len() && tcx.clone_resolutions@[(d, #[trigger] parts[i])]
                    == Resolution::Resolved(x);
            assert(finsts(i).contains(x));
        }
    }
    assert(cr.insts =~= called);
    lemma_closure_empty(tcx);
    lemma_record_no_types(tcx, m, cr);
    assert(cr.adts =~= Set::empty());
    assert(cr.traits =~= Set::empty());
    let first = record(tcx, m, cr);
    assert(first.adts =~= m.adts);
    assert(first.traits =~= m.traits);
    assert(first =~= marked);
    lemma_record_and(tcx, m, cr, sr);
    lemma_record_and(tcx, m, cr.and(sr), Refs::of_ty(t));
}

} // verus!
