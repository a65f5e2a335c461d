//! What a consistent session is, told by the lists that it holds.

use crate::ctxt::args_below;
use crate::ctxt::tys_below;
use crate::ctxt::AdtDef;
use crate::ctxt::AdtInst;
use crate::ctxt::AllocId;
use crate::ctxt::ConstKind;
use crate::ctxt::DefId;
use crate::ctxt::ExistentialPredicate;
use crate::ctxt::GenericArg;
use crate::ctxt::GlobalAlloc;
use crate::ctxt::Instance;
use crate::ctxt::InstanceDef;
use crate::ctxt::OpTy;
use crate::ctxt::Resolution;
use crate::ctxt::SubstsRef;
use crate::ctxt::Term;
use crate::ctxt::TraitInst;
use crate::ctxt::Ty;
use crate::ctxt::TyCtxt;
use crate::ctxt::TyKind;
use crate::ctxt::ValTree;
use crate::ctxt::VariantDef;
use crate::ctxt::VariantDiscr;
use vstd::prelude::*;

verus! {

/// Types, generic arguments, definitions, data types and allocations are numbers of entries in
/// the lists of the session, and their data are these entries.
pub proof fn law_entries(tcx: &TyCtxt, t: Ty, s: SubstsRef, d: DefId, a: AdtDef, x: AllocId)
    ensures
        tcx.has_ty(t) <==> t.0 < tcx.tys@.len(),
        tcx.ty_data(t) == tcx.tys@[t.0 as int],
        tcx.kind_of(t) == tcx.tys@[t.0 as int].kind,
        tcx.has_substs(s) <==> s.0 < tcx.substs@.len(),
        tcx.substs_data(s) == tcx.substs@[s.0 as int],
        tcx.args_of(s) == tcx.substs@[s.0 as int].args@,
        tcx.has_def(d) <==> d.0 < tcx.defs@.len(),
        tcx.def_data(d) == tcx.defs@[d.0 as int],
        tcx.has_adt(a) <==> a.0 < tcx.adts@.len(),
        tcx.adt_data(a) == tcx.adts@[a.0 as int],
        tcx.has_alloc(x) <==> x.0 < tcx.allocs@.len(),
        tcx.alloc_of(x) == tcx.allocs@[x.0 as int],
{
}

/// The definition is in the list of definitions.
pub open spec fn def_in(tcx: &TyCtxt, d: DefId) -> bool {
    d.0 < tcx.defs@.len()
}

/// The type is among the first `n` types.
pub open spec fn ty_in(t: Ty, n: nat) -> bool {
    t.0 < n
}

/// The types of a list are among the first `n`.
pub open spec fn tys_in(tys: Seq<Ty>, n: nat) -> bool {
    forall|t: Ty| tys.contains(t) ==> #[trigger] ty_in(t, n)
}

/// The list of generic arguments is known, and the types in it are among the first `n`.
pub open spec fn args_in(tcx: &TyCtxt, s: SubstsRef, n: nat) -> bool {
    &&& s.0 < tcx.substs@.len()
    &&& forall|t: Ty|
        tcx.substs@[s.0 as int].args@.contains(GenericArg::Type(t)) ==> #[trigger] ty_in(t, n)
}

/// What a predicate of a trait object type mentions is known, and its types are among the first
/// `n`.
pub open spec fn predicate_in(tcx: &TyCtxt, p: ExistentialPredicate, n: nat) -> bool {
    match p {
        ExistentialPredicate::Trait { def_id, substs } => def_in(tcx, def_id) && args_in(
            tcx,
            substs,
            n,
        ),
        ExistentialPredicate::Projection { def_id, substs, term: Term::Ty(t) } => def_in(
            tcx,
            def_id,
        ) && args_in(tcx, substs, n) && ty_in(t, n),
        ExistentialPredicate::Projection { def_id, substs, term: Term::Const } => def_in(
            tcx,
            def_id,
        ) && args_in(tcx, substs, n),
        ExistentialPredicate::AutoTrait(d) => def_in(tcx, d),
    }
}

/// What a trait of trait objects mentions is known.
pub open spec fn trait_in(tcx: &TyCtxt, ti: TraitInst) -> bool {
    &&& ti.trait_ref matches Some(d) ==> def_in(tcx, d)
    &&& ti.dyn_ty matches Some(t) ==> ty_in(t, tcx.tys@.len())
}

/// What an instance mentions is known.
pub open spec fn instance_in(tcx: &TyCtxt, inst: Instance) -> bool {
    let n = tcx.tys@.len();
    &&& inst.substs.0 < tcx.substs@.len()
    &&& match inst.def {
        InstanceDef::Item(item) => def_in(tcx, item.did),
        InstanceDef::Intrinsic(d) => def_in(tcx, d),
        InstanceDef::VTableShim(d) => def_in(tcx, d),
        InstanceDef::ReifyShim(d) => def_in(tcx, d),
        InstanceDef::FnPtrShim(d, t) => def_in(tcx, d) && ty_in(t, n),
        InstanceDef::Virtual(d, _) => def_in(tcx, d),
        InstanceDef::ClosureOnceShim { call_once, .. } => def_in(tcx, call_once),
        InstanceDef::DropGlue(d, None) => def_in(tcx, d),
        InstanceDef::DropGlue(d, Some(t)) => def_in(tcx, d) && ty_in(t, n),
        InstanceDef::CloneShim(d, t) => def_in(tcx, d) && ty_in(t, n),
    }
}

/// What a type is made of is known, and its types are among the first `n`.
pub open spec fn kind_in(tcx: &TyCtxt, kind: TyKind, n: nat) -> bool {
    match kind {
        TyKind::Adt(adt, substs) => adt.0 < tcx.adts@.len() && args_in(tcx, substs, n),
        TyKind::Array(t, c) => ty_in(t, n) && ty_in(c.ty, n),
        TyKind::Slice(t) => ty_in(t, n),
        TyKind::RawPtr(t, _) => ty_in(t, n),
        TyKind::Ref(t, _) => ty_in(t, n),
        TyKind::FnDef(d, substs) => def_in(tcx, d) && substs.0 < tcx.substs@.len(),
        TyKind::FnPtr(sig) => tys_in(sig.erased.inputs@, n) && ty_in(sig.erased.output, n),
        TyKind::Dynamic(dt, _) => {
            &&& trait_in(tcx, dt.trait_inst)
            &&& dt.principal matches Some(p) ==> trait_in(tcx, p.trait_inst)
            &&& forall|i: int|
                0 <= i < dt.predicates@.len() ==> predicate_in(tcx, #[trigger] dt.predicates@[i], n)
        },
        TyKind::Closure(tys) => tys_in(tys@, n),
        TyKind::Tuple(tys) => tys_in(tys@, n),
        _ => true,
    }
}

/// What a variant mentions is known.
pub open spec fn variant_in(tcx: &TyCtxt, v: VariantDef) -> bool {
    &&& def_in(tcx, v.def_id)
    &&& v.discr matches VariantDiscr::Explicit(d) ==> def_in(tcx, d)
    &&& forall|i: int| 0 <= i < v.fields@.len() ==> def_in(tcx, (#[trigger] v.fields@[i]).did)
}

/// Each type is listed after the types that it is made of, and the type of bytes is an unsigned
/// integer type.
pub open spec fn types_listed(tcx: &TyCtxt) -> bool {
    &&& forall|i: int|
        0 <= i < tcx.tys@.len() ==> kind_in(tcx, (#[trigger] tcx.tys@[i]).kind, i as nat)
    &&& tcx.u8_ty.0 < tcx.tys@.len()
    &&& tcx.tys@[tcx.u8_ty.0 as int].kind is Uint
}

/// Each crate has a hash of at least eight characters, all of them ASCII.
pub open spec fn crates_hashed(tcx: &TyCtxt) -> bool {
    forall|i: int|
        0 <= i < tcx.defs@.len() ==> {
            &&& (#[trigger] tcx.defs@[i]).crate_hash.is_ascii()
            &&& tcx.defs@[i].crate_hash@.len() >= 8
        }
}

/// The generic arguments are known types, erasing and normalizing them gives known lists, and
/// the empty list is empty.
pub open spec fn arguments_listed(tcx: &TyCtxt) -> bool {
    &&& forall|i: int|
        0 <= i < tcx.substs@.len() ==> {
            &&& forall|t: Ty|
                (#[trigger] tcx.substs@[i]).args@.contains(GenericArg::Type(t))
                    ==> #[trigger] ty_in(t, tcx.tys@.len())
            &&& tcx.substs@[i].erased.0 < tcx.substs@.len()
            &&& tcx.substs@[i].normalized.0 < tcx.substs@.len()
        }
    &&& tcx.empty_substs.0 < tcx.substs@.len()
    &&& tcx.substs@[tcx.empty_substs.0 as int].args@.len() == 0
}

/// The parts of data types are known, a discriminant is that of a variant, and no two data types
/// have the same definition.
pub open spec fn data_types_listed(tcx: &TyCtxt) -> bool {
    &&& forall|i: int|
        0 <= i < tcx.adts@.len() ==> {
            let data = #[trigger] tcx.adts@[i];
            &&& def_in(tcx, data.did)
            &&& ty_in(data.discr_ty, tcx.tys@.len())
            &&& forall|k: int|
                0 <= k < data.variants@.len() ==> variant_in(tcx, #[trigger] data.variants@[k])
            &&& forall|k: int|
                0 <= k < data.discriminants@.len() ==> (
                #[trigger] data.discriminants@[k]).variant < data.variants@.len()
        }
    &&& forall|i: int, k: int|
        0 <= i < k < tcx.adts@.len() ==> (#[trigger] tcx.adts@[i]).did != (
        #[trigger] tcx.adts@[k]).did
}

/// The functions and statics among the allocations are known.
pub open spec fn allocations_listed(tcx: &TyCtxt) -> bool {
    forall|i: int|
        0 <= i < tcx.allocs@.len() ==> match #[trigger] tcx.allocs@[i] {
            Some(GlobalAlloc::Function(inst)) => instance_in(tcx, inst),
            Some(GlobalAlloc::Static(d)) => def_in(tcx, d),
            _ => true,
        }
}

/// What functions, cloning and dropping resolve to is known.
pub open spec fn functions_answered(tcx: &TyCtxt) -> bool {
    &&& forall|k: (DefId, SubstsRef)| #[trigger]
        tcx.resolutions@.dom().contains(k) ==> match tcx.resolutions@[k] {
            Resolution::Resolved(inst) => instance_in(tcx, inst),
            _ => true,
        }
    &&& forall|k: (DefId, Ty)| #[trigger]
        tcx.clone_resolutions@.dom().contains(k) ==> match tcx.clone_resolutions@[k] {
            Resolution::Resolved(inst) => instance_in(tcx, inst),
            _ => true,
        }
    &&& forall|t: Ty| #[trigger]
        tcx.drop_glue@.dom().contains(t) ==> instance_in(tcx, tcx.drop_glue@[t])
}

/// The types of fields are known; the array type for an element type and a length is an array
/// type with that element type and that length, and the type for a data type with arguments is
/// that data type with these arguments.
pub open spec fn types_answered(tcx: &TyCtxt) -> bool {
    &&& forall|k: (DefId, SubstsRef)| #[trigger]
        tcx.field_tys@.dom().contains(k) ==> ty_in(tcx.field_tys@[k], tcx.tys@.len())
    &&& forall|elem: Ty, len: u64| #[trigger]
        tcx.array_tys@.dom().contains((elem, len)) ==> {
            let t = tcx.array_tys@[(elem, len)];
            &&& ty_in(t, tcx.tys@.len())
            &&& tcx.tys@[t.0 as int].kind matches TyKind::Array(e, c)
            &&& e == elem
            &&& c.kind matches ConstKind::Value(ValTree::Leaf(n))
            &&& n.size == tcx.pointer_size
            &&& n.data <= u64::MAX
            &&& (n.data as u64) as usize == len
        }
    &&& forall|ai: AdtInst| #[trigger]
        tcx.adt_tys@.dom().contains(ai) ==> {
            let t = tcx.adt_tys@[ai];
            &&& ty_in(t, tcx.tys@.len())
            &&& tcx.tys@[t.0 as int].kind == TyKind::Adt(ai.adt, ai.substs)
        }
}

/// What is read from an operand has the type and the size of the operand.
pub open spec fn operands_answered(tcx: &TyCtxt) -> bool {
    forall|k: OpTy| #[trigger]
        tcx.operands@.dom().contains(k) ==> {
            &&& tcx.operands@[k].ty == k.ty
            &&& tcx.operands@[k].size == k.size
        }
}

proof fn lemma_types(tys: Seq<Ty>, n: nat)
    ensures
        tys_below(tys, n) <==> tys_in(tys, n),
{
    if tys_in(tys, n) {
        assert forall|i: int| 0 <= i < tys.len() implies (#[trigger] tys[i]).0 < n by {
            assert(tys.contains(tys[i]));
            assert(ty_in(tys[i], n));
        }
    }
}

proof fn lemma_args(args: Seq<GenericArg>, n: nat)
    ensures
        args_below(args, n) <==> forall|t: Ty|
            args.contains(GenericArg::Type(t)) ==> #[trigger] ty_in(t, n),
{
    if forall|t: Ty| args.contains(GenericArg::Type(t)) ==> #[trigger] ty_in(t, n) {
        assert forall|i: int| 0 <= i < args.len() implies (#[trigger] args[i] matches
            GenericArg::Type(t) ==> t.0 < n) by {
            if let GenericArg::Type(t) = args[i] {
                assert(args.contains(GenericArg::Type(t)));
                assert(ty_in(t, n));
            }
        }
    }
}

proof fn lemma_kind(tcx: &TyCtxt, kind: TyKind, n: nat)
    ensures
        kind.below(tcx, n) <==> kind_in(tcx, kind, n),
{
    match kind {
        TyKind::Adt(_, substs) => lemma_args(tcx.args_of(substs), n),
        TyKind::FnPtr(sig) => lemma_types(sig.erased.inputs@, n),
        TyKind::Dynamic(dt, _) => {
            assert forall|i: int| 0 <= i < dt.predicates@.len() implies (
            #[trigger] dt.predicates@[i]).below(tcx, n) == predicate_in(
                tcx,
                dt.predicates@[i],
                n,
            ) by {
                match dt.predicates@[i] {
                    ExistentialPredicate::Trait { substs, .. } => lemma_args(
                        tcx.args_of(substs),
                        n,
                    ),
                    ExistentialPredicate::Projection { substs, .. } => lemma_args(
                        tcx.args_of(substs),
                        n,
                    ),
                    _ => {},
                }
            }
        },
        TyKind::Closure(tys) => lemma_types(tys@, n),
        TyKind::Tuple(tys) => lemma_types(tys@, n),
        _ => {},
    }
}

proof fn lemma_types_listed(tcx: &TyCtxt)
    ensures
        tcx.tys_wf() <==> types_listed(tcx),
{
    assert forall|i: int| 0 <= i < tcx.tys@.len() implies (
    #[trigger] tcx.tys@[i]).kind.below(tcx, i as nat) == kind_in(
        tcx,
        tcx.tys@[i].kind,
        i as nat,
    ) by {
        lemma_kind(tcx, tcx.tys@[i].kind, i as nat);
    }
    if tcx.tys_wf() {
        assert forall|i: int| 0 <= i < tcx.tys@.len() implies kind_in(
            tcx,
            (#[trigger] tcx.tys@[i]).kind,
            i as nat,
        ) by {
            assert(tcx.kind_of(Ty(i as usize)).below(tcx, i as nat));
        }
    }
}

proof fn lemma_arguments_listed(tcx: &TyCtxt)
    ensures
        tcx.substs_wf() <==> arguments_listed(tcx),
{
    if tcx.substs_wf() {
        assert forall|i: int| 0 <= i < tcx.substs@.len() implies ({
            &&& forall|t: Ty|
                (#[trigger] tcx.substs@[i]).args@.contains(GenericArg::Type(t))
                    ==> #[trigger] ty_in(t, tcx.tys@.len())
            &&& tcx.substs@[i].erased.0 < tcx.substs@.len()
            &&& tcx.substs@[i].normalized.0 < tcx.substs@.len()
        }) by {
            let data = tcx.substs_data(SubstsRef(i as usize));
            lemma_args(data.args@, tcx.tys@.len());
        }
    }
    if arguments_listed(tcx) {
        assert forall|s: SubstsRef| tcx.has_substs(s) implies ({
            &&& args_below((#[trigger] tcx.substs_data(s)).args@, tcx.tys@.len())
            &&& tcx.has_substs(tcx.substs_data(s).erased)
            &&& tcx.has_substs(tcx.substs_data(s).normalized)
        }) by {
            lemma_args(tcx.substs_data(s).args@, tcx.tys@.len());
        }
    }
}

proof fn lemma_data_types_listed(tcx: &TyCtxt)
    ensures
        tcx.adts_wf() <==> data_types_listed(tcx) && allocations_listed(tcx),
{
    if tcx.adts_wf() {
        assert forall|i: int| 0 <= i < tcx.adts@.len() implies (
        #[trigger] tcx.adts@[i]).within(tcx) by {
            assert(i < tcx.adts.len());
            assert(tcx.adt_data(AdtDef(i as usize)).within(tcx));
        }
        assert forall|i: int, k: int| 0 <= i < k < tcx.adts@.len() implies (
        #[trigger] tcx.adts@[i]).did != (#[trigger] tcx.adts@[k]).did by {
            let a = AdtDef(i as usize);
            let b = AdtDef(k as usize);
            assert(tcx.adt_data(a) == tcx.adts@[i] && tcx.adt_data(b) == tcx.adts@[k]);
        }
        assert forall|i: int| 0 <= i < tcx.allocs@.len() implies match #[trigger] tcx.allocs@[i] {
            Some(GlobalAlloc::Function(inst)) => instance_in(tcx, inst),
            Some(GlobalAlloc::Static(d)) => def_in(tcx, d),
            _ => true,
        } by {
            assert(tcx.alloc_of(AllocId(i as usize)) == tcx.allocs@[i]);
        }
    }
}

/// A session is consistent exactly where what its lists mention is in its lists, and its answers
/// are answers to what was asked for.
pub proof fn law_consistent(tcx: &TyCtxt)
    ensures
        tcx.wf() <==> {
            &&& types_listed(tcx)
            &&& crates_hashed(tcx)
            &&& arguments_listed(tcx)
            &&& data_types_listed(tcx)
            &&& allocations_listed(tcx)
            &&& functions_answered(tcx)
            &&& types_answered(tcx)
            &&& operands_answered(tcx)
        },
{
    lemma_types_listed(tcx);
    lemma_arguments_listed(tcx);
    lemma_data_types_listed(tcx);
    assert(tcx.defs_wf() <==> crates_hashed(tcx)) by {
        if tcx.defs_wf() {
            assert forall|i: int| 0 <= i < tcx.defs@.len() implies ({
                &&& (#[trigger] tcx.defs@[i]).crate_hash.is_ascii()
                &&& tcx.defs@[i].crate_hash@.len() >= 8
            }) by {
                assert(tcx.def_data(DefId(i as usize)) == tcx.defs@[i]);
            }
        }
    }
    assert(tcx.answers_wf() <==> functions_answered(tcx) && types_answered(tcx)
        && operands_answered(tcx));
}

} // verus!
