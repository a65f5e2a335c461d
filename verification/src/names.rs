//! Names of definitions, data types, traits and functions.

use crate::ctxt::AdtInst;
use crate::ctxt::DefId;
use crate::ctxt::Instance;
use crate::ctxt::InstanceDef;
use crate::ctxt::Resolution;
use crate::ctxt::SubstsRef;
use crate::ctxt::TraitInst;
use crate::ctxt::Ty;
use crate::ctxt::TyCtxt;
use crate::ctxt::VtblEntry;
use crate::docs::adt_text;
use crate::docs::def_text;
use crate::docs::drop_refs;
use crate::docs::drop_text;
use crate::docs::ext_def_text;
use crate::docs::fn_named;
use crate::docs::fn_refs;
use crate::docs::fn_text;
use crate::docs::inst_named;
use crate::docs::inst_text;
use crate::docs::method_index;
use crate::docs::plain_text;
use crate::docs::trait_named;
use crate::docs::trait_text;
use crate::docs::Refs;
use crate::state::lemma_record_nothing;
use crate::state::record;
use crate::state::MirState;
use crate::text::dec_text;
use crate::text::hex16_text;
use vstd::pervasive::unreached;
use vstd::prelude::*;
use vstd::string::*;

verus! {

/// The name of a definition.
pub fn def_id_str(tcx: &TyCtxt, def_id: DefId) -> (s: String)
    requires
        tcx.wf(),
        tcx.has_def(def_id),
    ensures
        s@ == def_text(tcx, def_id),
{
    let data = &tcx.defs[def_id.0];
    assert(*data == tcx.def_data(def_id));
    let mut s = data.crate_name.clone();
    s.append("/");
    s.append(data.crate_hash.as_str().substring_ascii(0, 8));
    s.append(data.path.as_str());
    assert(s@ =~= def_text(tcx, def_id));
    s
}

/// The name of something that is derived from a definition and is told apart from its like by
/// `hash`.
pub fn ext_def_id_str(tcx: &TyCtxt, def_id: DefId, prefix: &str, hash: u64) -> (s: String)
    requires
        tcx.wf(),
        tcx.has_def(def_id),
    ensures
        s@ == ext_def_text(tcx, def_id, prefix@, hash),
{
    let mut s = def_id_str(tcx, def_id);
    s.append("::");
    s.append(prefix);
    s.append(hex16_text(hash).as_str());
    s.append("[0]");
    s
}

/// The name of a data type with its generic arguments.
pub fn adt_inst_id_str(tcx: &TyCtxt, ai: AdtInst) -> (s: String)
    requires
        tcx.wf(),
        ai.within(tcx),
    ensures
        s@ == adt_text(tcx, ai),
{
    assert(tcx.adt_data(ai.adt).within(tcx));
    assert(tcx.has_substs(tcx.substs_data(ai.substs).erased));
    // Erase all early-bound regions.
    let substs = tcx.substs[ai.substs.0].erased;
    ext_def_id_str(tcx, tcx.adts[ai.adt.0].did, "_adt", tcx.substs[substs.0].hash)
}

/// The name of a function or an intrinsic with normalized generic arguments.
fn plain_id_str(tcx: &TyCtxt, def_id: DefId, substs: SubstsRef) -> (s: String)
    requires
        tcx.wf(),
        tcx.has_def(def_id),
        tcx.has_substs(substs),
    ensures
        s@ == plain_text(tcx, def_id, substs),
{
    if tcx.args(substs).len() == 0 {
        def_id_str(tcx, def_id)
    } else {
        ext_def_id_str(tcx, def_id, "_inst", tcx.substs[substs.0].hash)
    }
}

/// The name of an instance.
pub fn inst_id_str(tcx: &TyCtxt, inst: Instance) -> (s: String)
    requires
        tcx.wf(),
        inst.within(tcx),
        inst_named(tcx, inst),
    ensures
        s@ == inst_text(tcx, inst),
{
    assert(tcx.has_substs(tcx.substs_data(inst.substs).normalized));
    let substs = tcx.substs[inst.substs.0].normalized;
    if tcx.substs[substs.0].has_erasable_regions || tcx.substs[substs.0].needs_subst {
        return unreached();
    }
    let hash: u64 = tcx.substs[substs.0].hash;
    match inst.def {
        InstanceDef::Item(item) => plain_id_str(tcx, item.did, substs),
        InstanceDef::Intrinsic(def_id) => plain_id_str(tcx, def_id, substs),
        InstanceDef::VTableShim(def_id) => ext_def_id_str(tcx, def_id, "_vtshim", hash),
        InstanceDef::ReifyShim(def_id) => ext_def_id_str(tcx, def_id, "_reify", hash),
        InstanceDef::Virtual(def_id, idx) => {
            let mut prefix = "_virt".to_owned();
            prefix.append(dec_text(idx as u128).as_str());
            prefix.append("_");
            ext_def_id_str(tcx, def_id, prefix.as_str(), hash)
        },
        InstanceDef::DropGlue(def_id, _) => ext_def_id_str(tcx, def_id, "_drop", hash),
        InstanceDef::FnPtrShim(def_id, _) => ext_def_id_str(tcx, def_id, "_callonce", hash),
        InstanceDef::ClosureOnceShim { call_once, .. } => ext_def_id_str(
            tcx,
            call_once,
            "_callonce",
            hash,
        ),
        InstanceDef::CloneShim(def_id, _) => ext_def_id_str(tcx, def_id, "_shim", hash),
    }
}

/// The name of a trait of trait objects.
pub fn trait_inst_id_str(tcx: &TyCtxt, ti: &TraitInst) -> (s: String)
    requires
        tcx.wf(),
        ti.within(tcx),
        trait_named(*ti),
    ensures
        s@ == trait_text(tcx, *ti),
{
    match ti.trait_ref {
        Some(def_id) => match ti.dyn_ty {
            Some(dyn_ty) => ext_def_id_str(tcx, def_id, "_trait", tcx.tys[dyn_ty.0].hash),
            None => unreached(),
        },
        None => "trait/0::empty[0]".to_owned(),
    }
}

/// The name of a monomorphic function.  As a side effect, this marks the function as used, so
/// its body will be emitted too.
pub fn get_fn_def_name(mir: &mut MirState<'_>, defid: DefId, substs: SubstsRef) -> (s: String)
    requires
        old(mir).wf(),
        old(mir).tcx.has_def(defid),
        fn_named(old(mir).tcx, defid, substs),
    ensures
        final(mir).wf(),
        final(mir).tcx == old(mir).tcx,
        s@ == fn_text(old(mir).tcx, defid, substs),
        final(mir)@ == record(old(mir).tcx, old(mir)@, fn_refs(old(mir).tcx, defid, substs)),
{
    let tcx = mir.tcx;
    match tcx.resolutions.get(&(defid, substs)) {
        Some(Resolution::Resolved(inst)) => {
            assert(tcx.resolutions@.dom().contains((defid, substs)));
            mir.use_instance(*inst);
            inst_id_str(tcx, *inst)
        },
        Some(_) => {
            proof {
                lemma_record_nothing(tcx, mir@);
            }
            def_id_str(tcx, defid)
        },
        None => unreached(),
    }
}

/// The name of the drop glue of a type, which is marked as used; `None` where dropping does
/// nothing.
pub fn get_drop_fn_name(mir: &mut MirState<'_>, ty: Ty) -> (s: Option<String>)
    requires
        old(mir).wf(),
        old(mir).tcx.drop_glue@.dom().contains(ty),
        !(old(mir).tcx.drop_glue@[ty].def matches InstanceDef::DropGlue(_, None)) ==> inst_named(
            old(mir).tcx,
            old(mir).tcx.drop_glue@[ty],
        ),
    ensures
        final(mir).wf(),
        final(mir).tcx == old(mir).tcx,
        ({
            let inst = old(mir).tcx.drop_glue@[ty];
            if inst.def matches InstanceDef::DropGlue(_, None) {
                &&& s is None
                &&& final(mir)@ == old(mir)@
            } else {
                &&& s matches Some(name)
                &&& name@ == inst_text(old(mir).tcx, inst)
                &&& final(mir)@ == record(old(mir).tcx, old(mir)@, Refs::of_inst(inst))
            }
        }),
        (match s {
            Some(name) => Some(name@),
            None => None,
        }) == drop_text(old(mir).tcx, ty),
        final(mir)@ == record(old(mir).tcx, old(mir)@, drop_refs(old(mir).tcx, ty)),
{
    let tcx = mir.tcx;
    proof {
        lemma_record_nothing(tcx, mir@);
    }
    match tcx.drop_glue.get(&ty) {
        Some(inst) => {
            assert(tcx.drop_glue@.dom().contains(ty));
            // `None` instead of a type indicates this drop glue is a no-op.
            if let InstanceDef::DropGlue(_, None) = inst.def {
                return None;
            }
            mir.use_instance(*inst);
            Some(inst_id_str(tcx, *inst))
        },
        None => unreached(),
    }
}

/// The compiler's vtables have null entries for methods that cannot be called on trait objects.
/// Such methods are left out here: this turns an index into the compiler's vtable into one that
/// counts methods only.
pub fn adjust_method_index(vtable: &Vec<VtblEntry>, raw_idx: usize) -> (n: usize)
    ensures
        n == method_index(vtable@, raw_idx as nat),
        n <= raw_idx,
{
    let ghost is_method = |e: VtblEntry| e is Method;
    let mut n: usize = 0;
    let mut i: usize = 0;
    assert(vtable@.take(0).filter(is_method).len() == 0) by {
        reveal(Seq::filter);
    }
    while i < raw_idx && i < vtable.len()
        invariant
            i <= raw_idx,
            i <= vtable.len(),
            n <= i,
            is_method == (|e: VtblEntry| e is Method),
            n == vtable@.take(i as int).filter(is_method).len(),
        decreases vtable.len() - i,
    {
        proof {
            reveal(Seq::filter);
            assert(vtable@.take(i + 1).drop_last() =~= vtable@.take(i as int));
            assert(vtable@.take(i + 1).last() == vtable@[i as int]);
        }
        if let VtblEntry::Method(_) = vtable[i] {
            n = n + 1;
        }
        i = i + 1;
    }
    n
}

} // verus!
