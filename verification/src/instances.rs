//! The JSON forms of instances.

use crate::ctxt::DefId;
use crate::ctxt::GenericArg;
use crate::ctxt::Instance;
use crate::ctxt::InstanceDef;
use crate::ctxt::Resolution;
use crate::ctxt::SubstsRef;
use crate::ctxt::Ty;
use crate::ctxt::TyCtxt;
use crate::ctxt::TyKind;
use crate::docs::callee_doc;
use crate::docs::callee_ok;
use crate::docs::callee_refs;
use crate::docs::callees_doc;
use crate::docs::callees_refs;
use crate::docs::clone_parts;
use crate::docs::def_doc;
use crate::docs::first_type;
use crate::docs::inst_doc;
use crate::docs::inst_ok;
use crate::docs::inst_refs;
use crate::docs::refs_ok;
use crate::docs::substs_doc;
use crate::docs::substs_refs;
use crate::docs::text;
use crate::docs::Refs;
use crate::json::array_value;
use crate::json::entries_of;
use crate::json::json_of;
use crate::json::null_value;
use crate::json::number_value;
use crate::json::object_value;
use crate::json::put;
use crate::json::string_value;
use crate::json::tagged;
use crate::json::Object;
use crate::names::adjust_method_index;
use crate::names::def_id_str;
use crate::names::inst_id_str;
use crate::names::trait_inst_id_str;
use crate::state::lemma_record_and;
use crate::state::lemma_record_nothing;
use crate::state::lemma_refs_ok_and;
use crate::state::record;
use crate::state::MirState;
use crate::types::lemma_each_step;
use crate::types::lemma_no_items;
use crate::types::substs_json;
use crate::types::ty_json;
use serde_json::Value;
use vstd::pervasive::unreached;
use vstd::prelude::*;

verus! {

/// The first type among generic arguments.
fn self_type(args: &Vec<GenericArg>) -> (t: Option<Ty>)
    ensures
        t == first_type(args@),
        t matches Some(t) ==> args@.contains(GenericArg::Type(t)),
{
    let mut i: usize = 0;
    assert(args@.skip(0) =~= args@);
    while i < args.len()
        invariant
            i <= args.len(),
            first_type(args@) == first_type(args@.skip(i as int)),
        decreases args.len() - i,
    {
        assert(args@.skip(i as int).drop_first() =~= args@.skip(i + 1));
        if let GenericArg::Type(t) = args[i] {
            assert(args@[i as int] == GenericArg::Type(t));
            return Some(t);
        }
        i = i + 1;
    }
    None
}

/// The types of the parts that a clone shim for `ty` clones one by one.
fn clone_part_tys(tcx: &TyCtxt, ty: Ty) -> (parts: Vec<Ty>)
    requires
        tcx.has_ty(ty),
    ensures
        parts@ == clone_parts(tcx, ty),
{
    let mut parts: Vec<Ty> = Vec::new();
    match tcx.kind(ty) {
        TyKind::Array(t, _) => {
            parts.push(*t);
            assert(parts@ =~= clone_parts(tcx, ty));
        },
        TyKind::Tuple(tys) => {
            parts = tys.clone();
            assert(parts@ =~= tys@);
        },
        TyKind::Closure(upvar_tys) => {
            parts = upvar_tys.clone();
            assert(parts@ =~= upvar_tys@);
        },
        _ => {
            assert(parts@ =~= clone_parts(tcx, ty));
        },
    }
    parts
}

/// The function that a clone shim calls for a part.  It is marked as used, so code is emitted
/// for it even if it is otherwise unused.  If it is itself a clone shim, its own callees are
/// visited when it is shown.
fn callee_json(mir: &mut MirState<'_>, did: DefId, ty: Ty) -> (v: Value)
    requires
        old(mir).wf(),
        callee_ok(old(mir).tcx, did, ty),
    ensures
        final(mir).wf(),
        final(mir).tcx == old(mir).tcx,
        json_of(v) == callee_doc(old(mir).tcx, did, ty),
        final(mir)@ == record(old(mir).tcx, old(mir)@, callee_refs(old(mir).tcx, did, ty)),
{
    let tcx = mir.tcx;
    proof {
        lemma_record_nothing(tcx, mir@);
    }
    match tcx.clone_resolutions.get(&(did, ty)) {
        Some(Resolution::Resolved(inst)) => {
            assert(tcx.clone_resolutions@.dom().contains((did, ty)));
            mir.use_instance(*inst);
            string_value(inst_id_str(tcx, *inst))
        },
        Some(Resolution::Unresolved) => null_value(),
        Some(Resolution::Failed) | None => unreached(),
    }
}

/// The calls of a clone shim.
fn callees_json(mir: &mut MirState<'_>, did: DefId, parts: &Vec<Ty>) -> (v: Value)
    requires
        old(mir).wf(),
        forall|i: int|
            0 <= i < parts.len() ==> callee_ok(old(mir).tcx, did, #[trigger] parts@[i]),
    ensures
        final(mir).wf(),
        final(mir).tcx == old(mir).tcx,
        json_of(v) == callees_doc(old(mir).tcx, did, parts@),
        final(mir)@ == record(old(mir).tcx, old(mir)@, callees_refs(old(mir).tcx, did, parts@)),
{
    let ghost tcx = mir.tcx;
    let ghost m0 = mir@;
    let ghost f = |i: int| callee_refs(tcx, did, parts@[i]);
    let mut items: Vec<Value> = Vec::new();
    let mut i: usize = 0;
    proof {
        lemma_no_items(f);
        lemma_record_nothing(tcx, m0);
        assert(callees_refs(tcx, did, parts@) == Refs::each(parts@.len(), f));
    }
    while i < parts.len()
        invariant
            i <= parts.len(),
            mir.wf(),
            mir.tcx == tcx,
            f == (|i: int| callee_refs(tcx, did, parts@[i])),
            forall|i: int| 0 <= i < parts.len() ==> callee_ok(tcx, did, #[trigger] parts@[i]),
            mir@ == record(tcx, m0, Refs::each(i as nat, f)),
            items.len() == i,
            forall|j: int|
                0 <= j < i ==> json_of(#[trigger] items@[j]) == callee_doc(tcx, did, parts@[j]),
        decreases parts.len() - i,
    {
        proof {
            lemma_each_step(f, i as nat, parts@.len());
            lemma_record_and(tcx, m0, Refs::each(i as nat, f), f(i as int));
        }
        let item = callee_json(mir, did, parts[i]);
        items.push(item);
        i = i + 1;
    }
    let v = array_value(items);
    assert(json_of(v)->Arr_0 =~= callees_doc(tcx, did, parts@)->Arr_0);
    v
}

/// The entries that all instances of a definition with generic arguments have.
fn shim_object(mir: &mut MirState<'_>, kind: &str, did: DefId, substs: SubstsRef) -> (o: Object)
    requires
        old(mir).wf(),
        old(mir).tcx.has_def(did),
        old(mir).tcx.has_substs(substs),
        refs_ok(old(mir).tcx, substs_refs(old(mir).tcx, substs)),
    ensures
        final(mir).wf(),
        final(mir).tcx == old(mir).tcx,
        entries_of(o) == map![
            "kind"@ => text(kind),
            "def_id"@ => def_doc(old(mir).tcx, did),
            "substs"@ => substs_doc(old(mir).tcx, substs),
        ],
        final(mir)@ == record(old(mir).tcx, old(mir)@, substs_refs(old(mir).tcx, substs)),
{
    let tcx = mir.tcx;
    let mut o = tagged(kind);
    put(&mut o, "def_id", string_value(def_id_str(tcx, did)));
    let args = substs_json(substs, mir, Ghost(tcx.tys@.len()));
    put(&mut o, "substs", args);
    o
}

/// An instance.
pub(crate) fn inst_json(inst: Instance, mir: &mut MirState<'_>) -> (v: Value)
    requires
        old(mir).wf(),
        inst_ok(old(mir).tcx, inst),
    ensures
        final(mir).wf(),
        final(mir).tcx == old(mir).tcx,
        json_of(v) == inst_doc(old(mir).tcx, inst),
        final(mir)@ == record(old(mir).tcx, old(mir)@, inst_refs(old(mir).tcx, inst)),
{
    let tcx = mir.tcx;
    let ghost m0 = mir@;
    assert(tcx.has_substs(tcx.substs_data(inst.substs).normalized));
    let substs = tcx.substs[inst.substs.0].normalized;
    let ghost sr = substs_refs(tcx, substs);
    match inst.def {
        InstanceDef::Item(item) => object_value(shim_object(mir, "Item", item.did, substs)),
        InstanceDef::Intrinsic(did) => object_value(shim_object(mir, "Intrinsic", did, substs)),
        InstanceDef::VTableShim(did) => object_value(shim_object(mir, "VTableShim", did, substs)),
        InstanceDef::ReifyShim(did) => object_value(shim_object(mir, "ReifyShim", did, substs)),
        InstanceDef::FnPtrShim(did, ty) => {
            proof {
                lemma_refs_ok_and(tcx, sr, Refs::of_ty(ty));
                lemma_record_and(tcx, m0, sr, Refs::of_ty(ty));
            }
            let mut o = shim_object(mir, "FnPtrShim", did, substs);
            let ty = ty_json(ty, mir);
            put(&mut o, "ty", ty);
            object_value(o)
        },
        InstanceDef::Virtual(did, idx) => {
            let principal = match self_type(tcx.args(substs)) {
                Some(self_ty) => {
                    assert(tcx.has_ty(self_ty)) by {
                        assert(tcx.substs_data(substs).args@.contains(GenericArg::Type(self_ty)));
                    }
                    assert(tcx.kind_of(self_ty).below(tcx, self_ty.0 as nat));
                    match tcx.kind(self_ty) {
                        TyKind::Dynamic(dt, _) => match &dt.principal {
                            Some(principal) => principal,
                            None => unreached(),
                        },
                        _ => unreached(),
                    }
                },
                None => unreached(),
            };
            let trait_name = trait_inst_id_str(tcx, &principal.trait_inst);
            mir.use_trait(principal.trait_inst);
            let mut o = tagged("Virtual");
            put(&mut o, "trait_id", string_value(trait_name));
            put(&mut o, "item_id", string_value(def_id_str(tcx, did)));
            let index: usize = adjust_method_index(&principal.vtable, idx);
            put(&mut o, "index", number_value(index as u64));
            object_value(o)
        },
        InstanceDef::ClosureOnceShim { call_once, .. } => {
            let mut o = tagged("ClosureOnceShim");
            put(&mut o, "call_once", string_value(def_id_str(tcx, call_once)));
            let args = substs_json(substs, mir, Ghost(tcx.tys@.len()));
            put(&mut o, "substs", args);
            object_value(o)
        },
        InstanceDef::DropGlue(did, ty) => {
            proof {
                if let Some(t) = ty {
                    lemma_refs_ok_and(tcx, sr, Refs::of_ty(t));
                    lemma_record_and(tcx, m0, sr, Refs::of_ty(t));
                }
            }
            let mut o = shim_object(mir, "DropGlue", did, substs);
            let ty = match ty {
                Some(ty) => ty_json(ty, mir),
                None => null_value(),
            };
            put(&mut o, "ty", ty);
            object_value(o)
        },
        InstanceDef::CloneShim(did, ty) => {
            let sub_tys = clone_part_tys(tcx, ty);
            let ghost cr = callees_refs(tcx, did, sub_tys@);
            proof {
                lemma_refs_ok_and(tcx, cr.and(sr), Refs::of_ty(ty));
                lemma_refs_ok_and(tcx, cr, sr);
                lemma_record_and(tcx, m0, cr, sr);
                lemma_record_and(tcx, m0, cr.and(sr), Refs::of_ty(ty));
            }
            let callees = callees_json(mir, did, &sub_tys);
            let mut o = shim_object(mir, "CloneShim", did, substs);
            let ty = ty_json(ty, mir);
            put(&mut o, "ty", ty);
            put(&mut o, "callees", callees);
            object_value(o)
        },
    }
}

} // verus!
