//! What names are made of, and what naming a function does.

use crate::ctxt::AdtInst;
use crate::ctxt::DefId;
use crate::ctxt::Instance;
use crate::ctxt::InstanceDef;
use crate::ctxt::Resolution;
use crate::ctxt::SubstsRef;
use crate::ctxt::TraitInst;
use crate::ctxt::Ty;
use crate::ctxt::TyCtxt;
use crate::ctxt::VtblEntry;
use crate::docs::adt_text;
use crate::docs::def_text;
use crate::docs::drop_refs;
use crate::docs::drop_text;
use crate::docs::ext_def_text;
use crate::docs::fn_refs;
use crate::docs::fn_text;
use crate::docs::inst_text;
use crate::docs::method_index;
use crate::docs::trait_text;
use crate::json::Json;
use crate::reading::is_decimal;
use crate::reading::is_hash;
use crate::reading::law_decimal;
use crate::reading::law_hash;
use crate::state::lemma_closure_empty;
use crate::state::lemma_record_no_types;
use crate::state::record;
use crate::state::Mir;
use crate::text::dec;
use crate::text::hex;
use crate::to_json::ToJson;
use vstd::prelude::*;

verus! {

/// `s` is `base`, two colons, `prefix`, a hash as sixteen hexadecimal digits, and `[0]`.
pub open spec fn is_derived(s: Seq<char>, base: Seq<char>, prefix: Seq<char>, hash: u64) -> bool {
    let b = base.len() as int;
    let p = b + 2 + prefix.len();
    &&& s.len() == p + 19
    &&& s.take(b) =~= base
    &&& s[b] == ':' && s[b + 1] == ':'
    &&& s.subrange(b + 2, p) =~= prefix
    &&& is_hash(s.subrange(p, p + 16), hash)
    &&& s[p + 16] == '[' && s[p + 17] == '0' && s[p + 18] == ']'
}

/// The name of a definition: that of its crate, a slash, the first eight characters of the
/// crate's hash, and the path.  It is also the JSON form of the definition.
pub proof fn law_definition_name(tcx: &TyCtxt, d: DefId)
    requires
        tcx.wf(),
        tcx.has_def(d),
    ensures
        ({
            let data = tcx.def_data(d);
            let c = data.crate_name@.len() as int;
            let s = def_text(tcx, d);
            &&& s.len() == c + 9 + data.path@.len()
            &&& s.take(c) =~= data.crate_name@
            &&& s[c] == '/'
            &&& forall|i: int| 0 <= i < 8 ==> s[c + 1 + i] == #[trigger] data.crate_hash@[i]
            &&& s.skip(c + 9) =~= data.path@
            &&& d.doc(tcx) == Json::Str(s)
        }),
{
    reveal_strlit("/");
    assert(tcx.def_data(d).crate_hash@.len() >= 8);
}

/// A derived name holds what it is derived from, and its hash reads back.
pub proof fn law_derived_name(tcx: &TyCtxt, d: DefId, prefix: Seq<char>, hash: u64)
    ensures
        is_derived(ext_def_text(tcx, d, prefix, hash), def_text(tcx, d), prefix, hash),
{
    reveal_strlit("::");
    reveal_strlit("[0]");
    law_hash(hash);
    let base = def_text(tcx, d);
    let s = ext_def_text(tcx, d, prefix, hash);
    let b = base.len() as int;
    let p = b + 2 + prefix.len();
    assert(s.take(b) =~= base);
    assert(s.subrange(b + 2, p) =~= prefix);
    assert(s.subrange(p, p + 16) =~= hex(hash as nat, 16));
}

/// The name of a data type is derived from its definition, by the hash of its generic arguments
/// without regions.
pub proof fn law_adt_name(tcx: &TyCtxt, ai: AdtInst)
    ensures
        is_derived(
            adt_text(tcx, ai),
            def_text(tcx, tcx.adt_data(ai.adt).did),
            seq!['_', 'a', 'd', 't'],
            tcx.substs_data(tcx.substs_data(ai.substs).erased).hash,
        ),
{
    reveal_strlit("_adt");
    assert("_adt"@ =~= seq!['_', 'a', 'd', 't']);
    law_derived_name(
        tcx,
        tcx.adt_data(ai.adt).did,
        "_adt"@,
        tcx.substs_data(tcx.substs_data(ai.substs).erased).hash,
    );
}

/// The name of a trait with a principal is derived from the trait, by the hash of its trait
/// object type; all others share one name.
pub proof fn law_trait_name(tcx: &TyCtxt, ti: TraitInst)
    requires
        ti.trait_ref is Some ==> ti.dyn_ty is Some,
    ensures
        ti matches TraitInst { trait_ref: Some(d), dyn_ty: Some(t) } ==> is_derived(
            trait_text(tcx, ti),
            def_text(tcx, d),
            "_trait"@,
            tcx.ty_data(t).hash,
        ),
        ti.trait_ref is None ==> trait_text(tcx, ti) == "trait/0::empty[0]"@,
{
    if let Some(d) = ti.trait_ref {
        law_derived_name(tcx, d, "_trait"@, tcx.ty_data(ti.dyn_ty->0).hash);
    }
}

/// An instance is named after its definition: a function or an intrinsic without generic
/// arguments just so, all others by what they are and the hash of their normalized arguments.
pub proof fn law_instance_name(tcx: &TyCtxt, inst: Instance)
    ensures
        ({
            let substs = tcx.substs_data(tcx.substs_data(inst.substs).normalized);
            let name = inst_text(tcx, inst);
            let plain = substs.args@.len() == 0;
            match inst.def {
                InstanceDef::Item(item) => if plain {
                    name == def_text(tcx, item.did)
                } else {
                    is_derived(name, def_text(tcx, item.did), "_inst"@, substs.hash)
                },
                InstanceDef::Intrinsic(d) => if plain {
                    name == def_text(tcx, d)
                } else {
                    is_derived(name, def_text(tcx, d), "_inst"@, substs.hash)
                },
                InstanceDef::VTableShim(d) => is_derived(
                    name,
                    def_text(tcx, d),
                    "_vtshim"@,
                    substs.hash,
                ),
                InstanceDef::ReifyShim(d) => is_derived(
                    name,
                    def_text(tcx, d),
                    "_reify"@,
                    substs.hash,
                ),
                InstanceDef::Virtual(d, idx) => exists|n: Seq<char>| #[trigger]
                    is_decimal(n, idx as nat) && is_derived(
                        name,
                        def_text(tcx, d),
                        "_virt"@ + n + "_"@,
                        substs.hash,
                    ),
                InstanceDef::DropGlue(d, _) => is_derived(
                    name,
                    def_text(tcx, d),
                    "_drop"@,
                    substs.hash,
                ),
                InstanceDef::FnPtrShim(d, _) => is_derived(
                    name,
                    def_text(tcx, d),
                    "_callonce"@,
                    substs.hash,
                ),
                InstanceDef::ClosureOnceShim { call_once, .. } => is_derived(
                    name,
                    def_text(tcx, call_once),
                    "_callonce"@,
                    substs.hash,
                ),
                InstanceDef::CloneShim(d, _) => is_derived(
                    name,
                    def_text(tcx, d),
                    "_shim"@,
                    substs.hash,
                ),
            }
        }),
{
    let hash = tcx.substs_data(tcx.substs_data(inst.substs).normalized).hash;
    match inst.def {
        InstanceDef::Item(item) => law_derived_name(tcx, item.did, "_inst"@, hash),
        InstanceDef::Intrinsic(d) => law_derived_name(tcx, d, "_inst"@, hash),
        InstanceDef::VTableShim(d) => law_derived_name(tcx, d, "_vtshim"@, hash),
        InstanceDef::ReifyShim(d) => law_derived_name(tcx, d, "_reify"@, hash),
        InstanceDef::Virtual(d, idx) => {
            law_decimal(idx as nat);
            law_derived_name(tcx, d, "_virt"@ + dec(idx as nat) + "_"@, hash);
        },
        InstanceDef::DropGlue(d, _) => law_derived_name(tcx, d, "_drop"@, hash),
        InstanceDef::FnPtrShim(d, _) => law_derived_name(tcx, d, "_callonce"@, hash),
        InstanceDef::ClosureOnceShim { call_once, .. } => law_derived_name(
            tcx,
            call_once,
            "_callonce"@,
            hash,
        ),
        InstanceDef::CloneShim(d, _) => law_derived_name(tcx, d, "_shim"@, hash),
    }
}

/// A function that resolves to an instance has the name of the instance, and the instance is
/// marked as used; one that does not has the name of its definition, and nothing is marked.
pub proof fn law_function_name(tcx: &TyCtxt, d: DefId, substs: SubstsRef, m: Mir)
    ensures
        ({
            let after = record(tcx, m, fn_refs(tcx, d, substs));
            match tcx.resolutions@[(d, substs)] {
                Resolution::Resolved(inst) => {
                    &&& fn_text(tcx, d, substs) == inst_text(tcx, inst)
                    &&& after == (Mir { insts: m.insts.insert(inst), ..m })
                },
                _ => {
                    &&& fn_text(tcx, d, substs) == def_text(tcx, d)
                    &&& after == m
                },
            }
        }),
{
    lemma_record_marks(tcx, d, substs, m);
}

proof fn lemma_record_marks(tcx: &TyCtxt, d: DefId, substs: SubstsRef, m: Mir)
    ensures
        record(tcx, m, fn_refs(tcx, d, substs)) == (match tcx.resolutions@[(d, substs)] {
            Resolution::Resolved(inst) => Mir { insts: m.insts.insert(inst), ..m },
            _ => m,
        }),
{
    lemma_closure_empty(tcx);
    lemma_record_no_types(tcx, m, fn_refs(tcx, d, substs));
    let after = record(tcx, m, fn_refs(tcx, d, substs));
    let expected = match tcx.resolutions@[(d, substs)] {
        Resolution::Resolved(inst) => Mir { insts: m.insts.insert(inst), ..m },
        _ => m,
    };
    assert(after.adts =~= expected.adts);
    assert(after.insts =~= expected.insts);
    assert(after.traits =~= expected.traits);
}

/// A function that resolves to an item with generic arguments never has the bare name of the
/// item's definition, and two with arguments of different hashes have different names.
pub proof fn law_instantiations_told_apart(
    tcx: &TyCtxt,
    d1: DefId,
    s1: SubstsRef,
    d2: DefId,
    s2: SubstsRef,
    i1: Instance,
    i2: Instance,
)
    requires
        tcx.resolutions@[(d1, s1)] == Resolution::Resolved(i1),
        tcx.resolutions@[(d2, s2)] == Resolution::Resolved(i2),
        i1.def is Item,
        i2.def is Item,
        i1.def->Item_0.did == i2.def->Item_0.did,
        tcx.args_of(tcx.substs_data(i1.substs).normalized).len() > 0,
        tcx.args_of(tcx.substs_data(i2.substs).normalized).len() > 0,
    ensures
        fn_text(tcx, d1, s1) != def_text(tcx, i1.def->Item_0.did),
        tcx.substs_data(tcx.substs_data(i1.substs).normalized).hash != tcx.substs_data(
            tcx.substs_data(i2.substs).normalized,
        ).hash ==> fn_text(tcx, d1, s1) != fn_text(tcx, d2, s2),
{
    law_instance_name(tcx, i1);
    law_instance_name(tcx, i2);
}

/// Drop glue that does nothing has no name and is not marked; all other drop glue has the name
/// of its instance, and the instance is marked as used.
pub proof fn law_drop_name(tcx: &TyCtxt, t: Ty, m: Mir)
    ensures
        ({
            let inst = tcx.drop_glue@[t];
            let after = record(tcx, m, drop_refs(tcx, t));
            if inst.def matches InstanceDef::DropGlue(_, None) {
                &&& drop_text(tcx, t) is None
                &&& after == m
            } else {
                &&& drop_text(tcx, t) == Some(inst_text(tcx, inst))
                &&& after == (Mir { insts: m.insts.insert(inst), ..m })
            }
        }),
{
    lemma_closure_empty(tcx);
    lemma_record_no_types(tcx, m, drop_refs(tcx, t));
    let inst = tcx.drop_glue@[t];
    let after = record(tcx, m, drop_refs(tcx, t));
    assert(after.adts =~= m.adts);
    assert(after.traits =~= m.traits);
    if inst.def matches InstanceDef::DropGlue(_, None) {
        assert(after.insts =~= m.insts);
    } else {
        assert(after.insts =~= m.insts.insert(inst));
    }
}

/// An index into a vtable is adjusted by counting: it starts at zero, each method before it adds
/// one, and nothing else does.
pub proof fn law_method_index_counts(vtable: Seq<VtblEntry>, raw: nat)
    ensures
        method_index(vtable, 0) == 0,
        raw < vtable.len() ==> method_index(vtable, raw + 1) == method_index(vtable, raw) + (
        if vtable[raw as int] is Method {
            1int
        } else {
            0
        }),
        raw >= vtable.len() ==> method_index(vtable, raw + 1) == method_index(vtable, raw),
{
    reveal(Seq::filter);
    assert(vtable.take(0) =~= Seq::<VtblEntry>::empty());
    if raw < vtable.len() {
        let more = vtable.take(raw as int + 1);
        assert(more.drop_last() =~= vtable.take(raw as int));
        assert(more.last() == vtable[raw as int]);
    }
}

} // verus!
