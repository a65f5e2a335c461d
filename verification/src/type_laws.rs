//! What the table of types holds for each shape of type.

use crate::ctxt::AdtDef;
use crate::ctxt::AdtInst;
use crate::ctxt::Const;
use crate::ctxt::ConstKind;
use crate::ctxt::DefId;
use crate::ctxt::DynKind;
use crate::ctxt::DynTy;
use crate::ctxt::ExistentialPredicate;
use crate::ctxt::FloatTy;
use crate::ctxt::FnSig;
use crate::ctxt::GenericArg;
use crate::ctxt::IntTy;
use crate::ctxt::Mutability;
use crate::ctxt::PolyFnSig;
use crate::ctxt::SubstsRef;
use crate::ctxt::Term;
use crate::ctxt::Ty;
use crate::ctxt::TyCtxt;
use crate::ctxt::TyKind;
use crate::ctxt::UintTy;
use crate::ctxt::ValTree;
use crate::docs::adt_text;
use crate::docs::const_ok;
use crate::docs::const_usize;
use crate::docs::def_text;
use crate::docs::ex_pred_refs;
use crate::docs::fn_text;
use crate::docs::sig_refs;
use crate::docs::trait_text;
use crate::docs::Refs;
use crate::json::json_of;
use crate::json::Json;
use crate::reading::entry;
use crate::reading::has_keys;
use crate::reading::is_decimal;
use crate::reading::law_decimal;
use crate::reading::lemma_keys;
use crate::reading::shows;
use crate::state::lemma_record_nothing;
use crate::state::record;
use crate::state::Mir;
use crate::state::MirState;
use crate::state_laws::mentions;
use crate::to_json::ToJson;
use vstd::prelude::*;

verus! {

/// The document that the table of types holds for a type.
pub open spec fn held<'a>(s: MirState<'a>, t: Ty) -> Json {
    json_of(s.tys@[t].json)
}

/// The ID of a type, as a document.
pub open spec fn id(tcx: &TyCtxt, t: Ty) -> Json {
    Json::Str(tcx.ty_data(t).id@)
}

/// A list of the IDs of types, in their order.
pub open spec fn is_ids(j: Json, tcx: &TyCtxt, tys: Seq<Ty>) -> bool {
    &&& j matches Json::Arr(items)
    &&& items.len() == tys.len()
    &&& forall|i: int| 0 <= i < tys.len() ==> #[trigger] items[i] == id(tcx, tys[i])
}

/// A list with one document for each generic argument, in their order: the ID of a type, and
/// fixed words for a lifetime and a constant.
pub open spec fn is_args(j: Json, tcx: &TyCtxt, args: Seq<GenericArg>) -> bool {
    &&& j matches Json::Arr(items)
    &&& items.len() == args.len()
    &&& forall|i: int|
        0 <= i < args.len() ==> #[trigger] items[i] == match args[i] {
            GenericArg::Type(t) => id(tcx, t),
            GenericArg::Lifetime => Json::Str("nonty::Lifetime"@),
            GenericArg::Const => Json::Str("nonty::Const"@),
        }
}

/// An object that holds nothing but a kind.
pub open spec fn is_bare(j: Json, kind: &str) -> bool {
    has_keys(j, set!["kind"@]) && shows(j, "kind", Json::Str(kind@))
}

/// A signed integer type shows its kind.
pub proof fn law_int_type<'a>(s: MirState<'a>, t: Ty, i: IntTy)
    requires
        s.wf(),
        s.tys@.dom().contains(t),
        s.tcx.kind_of(t) == TyKind::Int(i),
    ensures
        ({
            let j = held(s, t);
            &&& has_keys(j, set!["kind"@, "intkind"@])
            &&& shows(j, "kind", Json::Str("Int"@))
            &&& shows(j, "intkind", json_of(i.json))
        }),
{
    lemma_keys();
}

/// An unsigned integer type shows its kind.
pub proof fn law_uint_type<'a>(s: MirState<'a>, t: Ty, u: UintTy)
    requires
        s.wf(),
        s.tys@.dom().contains(t),
        s.tcx.kind_of(t) == TyKind::Uint(u),
    ensures
        ({
            let j = held(s, t);
            &&& has_keys(j, set!["kind"@, "uintkind"@])
            &&& shows(j, "kind", Json::Str("Uint"@))
            &&& shows(j, "uintkind", json_of(u.json))
        }),
{
    lemma_keys();
}

/// A floating point type shows its size.
pub proof fn law_float_type<'a>(s: MirState<'a>, t: Ty, f: FloatTy)
    requires
        s.wf(),
        s.tys@.dom().contains(t),
        s.tcx.kind_of(t) == TyKind::Float(f),
    ensures
        ({
            let j = held(s, t);
            &&& has_keys(j, set!["kind"@, "size"@])
            &&& shows(j, "kind", Json::Str("Float"@))
            &&& shows(j, "size", json_of(f.json))
        }),
{
    lemma_keys();
}

/// A tuple type shows the IDs of its components, in their order.
pub proof fn law_tuple_type<'a>(s: MirState<'a>, t: Ty, tys: Vec<Ty>)
    requires
        s.wf(),
        s.tys@.dom().contains(t),
        s.tcx.kind_of(t) == TyKind::Tuple(tys),
    ensures
        ({
            let j = held(s, t);
            &&& has_keys(j, set!["kind"@, "tys"@])
            &&& shows(j, "kind", Json::Str("Tuple"@))
            &&& is_ids(entry(j, "tys"), s.tcx, tys@)
        }),
{
    lemma_keys();
}

/// A closure type shows the IDs of the types of what it captures, in their order.
pub proof fn law_closure_type<'a>(s: MirState<'a>, t: Ty, tys: Vec<Ty>)
    requires
        s.wf(),
        s.tys@.dom().contains(t),
        s.tcx.kind_of(t) == TyKind::Closure(tys),
    ensures
        ({
            let j = held(s, t);
            &&& has_keys(j, set!["kind"@, "upvar_tys"@])
            &&& shows(j, "kind", Json::Str("Closure"@))
            &&& is_ids(entry(j, "upvar_tys"), s.tcx, tys@)
        }),
{
    lemma_keys();
}

/// A slice type shows the ID of its element type.
pub proof fn law_slice_type<'a>(s: MirState<'a>, t: Ty, e: Ty)
    requires
        s.wf(),
        s.tys@.dom().contains(t),
        s.tcx.kind_of(t) == TyKind::Slice(e),
    ensures
        ({
            let j = held(s, t);
            &&& has_keys(j, set!["kind"@, "ty"@])
            &&& shows(j, "kind", Json::Str("Slice"@))
            &&& shows(j, "ty", id(s.tcx, e))
        }),
{
    lemma_keys();
}

/// An array type shows the ID of its element type, and its length.
pub proof fn law_array_type<'a>(s: MirState<'a>, t: Ty, e: Ty, n: Const)
    requires
        s.wf(),
        s.tys@.dom().contains(t),
        s.tcx.kind_of(t) == TyKind::Array(e, n),
    ensures
        ({
            let j = held(s, t);
            &&& has_keys(j, set!["kind"@, "ty"@, "size"@])
            &&& shows(j, "kind", Json::Str("Array"@))
            &&& shows(j, "ty", id(s.tcx, e))
            &&& is_length(entry(j, "size"), s.tcx, n)
        }),
{
    lemma_keys();
    law_length(s.tcx, n, s@);
}

/// A reference type shows the ID of what it points to, and its mutability.
pub proof fn law_ref_type<'a>(s: MirState<'a>, t: Ty, p: Ty, m: Mutability)
    requires
        s.wf(),
        s.tys@.dom().contains(t),
        s.tcx.kind_of(t) == TyKind::Ref(p, m),
    ensures
        ({
            let j = held(s, t);
            &&& has_keys(j, set!["kind"@, "ty"@, "mutability"@])
            &&& shows(j, "kind", Json::Str("Ref"@))
            &&& shows(j, "ty", id(s.tcx, p))
            &&& shows(j, "mutability", json_of(m.json))
        }),
{
    lemma_keys();
}

/// A raw pointer type shows the ID of what it points to, and its mutability.
pub proof fn law_raw_ptr_type<'a>(s: MirState<'a>, t: Ty, p: Ty, m: Mutability)
    requires
        s.wf(),
        s.tys@.dom().contains(t),
        s.tcx.kind_of(t) == TyKind::RawPtr(p, m),
    ensures
        ({
            let j = held(s, t);
            &&& has_keys(j, set!["kind"@, "ty"@, "mutability"@])
            &&& shows(j, "kind", Json::Str("RawPtr"@))
            &&& shows(j, "ty", id(s.tcx, p))
            &&& shows(j, "mutability", json_of(m.json))
        }),
{
    lemma_keys();
}

/// A data type shows its name, its definition and its generic arguments.
pub proof fn law_adt_type<'a>(s: MirState<'a>, t: Ty, adt: AdtDef, substs: SubstsRef)
    requires
        s.wf(),
        s.tys@.dom().contains(t),
        s.tcx.kind_of(t) == TyKind::Adt(adt, substs),
    ensures
        ({
            let j = held(s, t);
            &&& has_keys(j, set!["kind"@, "name"@, "orig_def_id"@, "substs"@])
            &&& shows(j, "kind", Json::Str("Adt"@))
            &&& shows(j, "name", Json::Str(adt_text(s.tcx, (AdtInst { adt, substs }))))
            &&& shows(j, "orig_def_id", Json::Str(def_text(s.tcx, s.tcx.adt_data(adt).did)))
            &&& is_args(entry(j, "substs"), s.tcx, s.tcx.args_of(substs))
        }),
{
    lemma_keys();
}

/// The type of a function shows the name of the function.
pub proof fn law_fn_def_type<'a>(s: MirState<'a>, t: Ty, d: DefId, substs: SubstsRef)
    requires
        s.wf(),
        s.tys@.dom().contains(t),
        s.tcx.kind_of(t) == TyKind::FnDef(d, substs),
    ensures
        ({
            let j = held(s, t);
            &&& has_keys(j, set!["kind"@, "defid"@])
            &&& shows(j, "kind", Json::Str("FnDef"@))
            &&& shows(j, "defid", Json::Str(fn_text(s.tcx, d, substs)))
        }),
{
    lemma_keys();
}

/// A function pointer type shows its signature.
pub proof fn law_fn_ptr_type<'a>(s: MirState<'a>, t: Ty, sig: PolyFnSig)
    requires
        s.wf(),
        s.tys@.dom().contains(t),
        s.tcx.kind_of(t) == TyKind::FnPtr(sig),
    ensures
        ({
            let j = held(s, t);
            &&& has_keys(j, set!["kind"@, "signature"@])
            &&& shows(j, "kind", Json::Str("FnPtr"@))
            &&& is_signature(entry(j, "signature"), s.tcx, sig.erased)
        }),
{
    lemma_keys();
    law_signature(s.tcx, sig, s@);
}

/// A trait object type shows its trait and its predicates, in their order.
pub proof fn law_dyn_type<'a>(s: MirState<'a>, t: Ty, dt: DynTy)
    requires
        s.wf(),
        s.tys@.dom().contains(t),
        s.tcx.kind_of(t) == TyKind::Dynamic(dt, DynKind::Dyn),
    ensures
        ({
            let j = held(s, t);
            &&& has_keys(j, set!["kind"@, "trait_id"@, "predicates"@])
            &&& shows(j, "kind", Json::Str("Dynamic"@))
            &&& shows(j, "trait_id", Json::Str(trait_text(s.tcx, dt.trait_inst)))
            &&& entry(j, "predicates") matches Json::Arr(ps)
            &&& ps.len() == dt.predicates.len()
            &&& forall|i: int|
                0 <= i < ps.len() ==> #[trigger] ps[i] == dt.predicates@[i].doc(s.tcx)
        }),
{
    lemma_keys();
}

/// Types without parts show their kind and nothing else.
pub proof fn law_bare_types<'a>(s: MirState<'a>, t: Ty)
    requires
        s.wf(),
        s.tys@.dom().contains(t),
    ensures
        s.tcx.kind_of(t) is Bool ==> is_bare(held(s, t), "Bool"),
        s.tcx.kind_of(t) is Char ==> is_bare(held(s, t), "Char"),
        s.tcx.kind_of(t) is Str ==> is_bare(held(s, t), "Str"),
        s.tcx.kind_of(t) is Never ==> is_bare(held(s, t), "Never"),
        s.tcx.kind_of(t) is Error ==> is_bare(held(s, t), "Error"),
        s.tcx.kind_of(t) is Infer ==> is_bare(held(s, t), "Infer"),
        s.tcx.kind_of(t) is Bound ==> is_bare(held(s, t), "Bound"),
        s.tcx.kind_of(t) is Placeholder ==> is_bare(held(s, t), "Placeholder"),
        s.tcx.kind_of(t) is Foreign ==> is_bare(held(s, t), "Foreign"),
        s.tcx.kind_of(t) is Generator ==> is_bare(held(s, t), "Generator"),
        s.tcx.kind_of(t) is GeneratorWitness ==> is_bare(held(s, t), "GeneratorWitness"),
        s.tcx.kind_of(t) is Alias ==> is_bare(held(s, t), "Alias"),
        s.tcx.kind_of(t) matches TyKind::Dynamic(_, DynKind::DynStar) ==> is_bare(
            held(s, t),
            "DynamicStar",
        ),
        !(s.tcx.kind_of(t) is Param),
{
    lemma_keys();
}

/// Two reference types, or two raw pointer types, have the same document only where they point
/// to types with the same ID and their mutabilities have the same form.
pub proof fn law_pointers_told_apart<'a>(
    s: MirState<'a>,
    t1: Ty,
    t2: Ty,
    p1: Ty,
    p2: Ty,
    m1: Mutability,
    m2: Mutability,
)
    requires
        s.wf(),
        s.tys@.dom().contains(t1),
        s.tys@.dom().contains(t2),
        s.tcx.kind_of(t1) == TyKind::Ref(p1, m1) && s.tcx.kind_of(t2) == TyKind::Ref(p2, m2)
            || s.tcx.kind_of(t1) == TyKind::RawPtr(p1, m1) && s.tcx.kind_of(t2)
            == TyKind::RawPtr(p2, m2),
        held(s, t1) == held(s, t2),
    ensures
        s.tcx.ty_data(p1).id@ == s.tcx.ty_data(p2).id@,
        json_of(m1.json) == json_of(m2.json),
{
    if s.tcx.kind_of(t1) is Ref {
        law_ref_type(s, t1, p1, m1);
        law_ref_type(s, t2, p2, m2);
    } else {
        law_raw_ptr_type(s, t1, p1, m1);
        law_raw_ptr_type(s, t2, p2, m2);
    }
}

/// The form of a constant that is a length: its type, and its size and value.
pub open spec fn is_length(j: Json, tcx: &TyCtxt, c: Const) -> bool {
    let r = entry(j, "rendered");
    &&& has_keys(j, set!["ty"@, "rendered"@])
    &&& shows(j, "ty", id(tcx, c.ty))
    &&& has_keys(r, set!["kind"@, "size"@, "val"@])
    &&& shows(r, "kind", Json::Str("usize"@))
    &&& c.kind matches ConstKind::Value(ValTree::Leaf(leaf))
    &&& shows(r, "size", Json::Num(leaf.size as nat))
    &&& entry(r, "val") matches Json::Str(val)
    &&& leaf.data <= usize::MAX ==> is_decimal(val, leaf.data as nat)
}

/// A constant that is a length shows its type, its size and its value; its type is shown too.
pub proof fn law_length(tcx: &TyCtxt, c: Const, m: Mir)
    requires
        const_ok(tcx, c),
    ensures
        is_length(c.doc(tcx), tcx, c),
        c.after(tcx, m) == c.ty.after(tcx, m),
{
    lemma_keys();
    law_decimal(const_usize(c) as nat);
}

/// The form of a signature: the IDs of its parameter types in their order, that of its result
/// type, and the calling convention.
pub open spec fn is_signature(j: Json, tcx: &TyCtxt, sig: FnSig) -> bool {
    &&& has_keys(j, set!["inputs"@, "output"@, "abi"@])
    &&& is_ids(entry(j, "inputs"), tcx, sig.inputs@)
    &&& shows(j, "output", id(tcx, sig.output))
    &&& shows(j, "abi", json_of(sig.abi.json))
}

/// A signature shows its parameter types, its result type and its calling convention; the types
/// are shown too.  One under a binder shows as it does with its bound regions erased.
pub proof fn law_signature(tcx: &TyCtxt, sig: PolyFnSig, m: Mir)
    ensures
        is_signature(sig.doc(tcx), tcx, sig.erased),
        sig.erased.doc(tcx) == sig.doc(tcx),
        sig.after(tcx, m) == sig.erased.after(tcx, m),
        sig.after(tcx, m) == record(
            tcx,
            m,
            (Refs {
                tys: Set::new(
                    |t: Ty| sig.erased.inputs@.contains(t) || t == sig.erased.output,
                ),
                adts: Set::empty(),
                insts: Set::empty(),
                traits: Set::empty(),
            }),
        ),
{
    lemma_keys();
    let r = Refs {
        tys: Set::new(|t: Ty| sig.erased.inputs@.contains(t) || t == sig.erased.output),
        adts: Set::empty(),
        insts: Set::empty(),
        traits: Set::empty(),
    };
    assert(r =~= sig_refs(sig.erased));
}

/// Generic arguments show in their order: types by their IDs, which are shown too, lifetimes and
/// constants by fixed words.
pub proof fn law_args(tcx: &TyCtxt, substs: SubstsRef, m: Mir)
    ensures
        is_args(substs.doc(tcx), tcx, tcx.args_of(substs)),
        substs.after(tcx, m) == record(
            tcx,
            m,
            (Refs {
                tys: Set::new(|t: Ty| tcx.args_of(substs).contains(GenericArg::Type(t))),
                adts: Set::empty(),
                insts: Set::empty(),
                traits: Set::empty(),
            }),
        ),
{
}

/// A generic argument: a type shows as it does on its own, a lifetime and a constant show by
/// fixed words and do nothing else.
pub proof fn law_arg(tcx: &TyCtxt, arg: GenericArg, m: Mir)
    ensures
        match arg {
            GenericArg::Type(t) => {
                &&& arg.doc(tcx) == t.doc(tcx)
                &&& arg.after(tcx, m) == t.after(tcx, m)
            },
            GenericArg::Lifetime => {
                &&& arg.doc(tcx) == Json::Str("nonty::Lifetime"@)
                &&& arg.after(tcx, m) == m
            },
            GenericArg::Const => {
                &&& arg.doc(tcx) == Json::Str("nonty::Const"@)
                &&& arg.after(tcx, m) == m
            },
        },
{
    lemma_record_nothing(tcx, m);
}

/// A predicate of a trait object type shows what it says, and all types that it mentions are
/// shown too.
pub proof fn law_ex_predicate(tcx: &TyCtxt, p: ExistentialPredicate, m: Mir)
    ensures
        ({
            let j = p.doc(tcx);
            match p {
                ExistentialPredicate::Trait { def_id, substs } => {
                    &&& has_keys(j, set!["kind"@, "trait"@, "substs"@])
                    &&& shows(j, "kind", Json::Str("Trait"@))
                    &&& shows(j, "trait", Json::Str(def_text(tcx, def_id)))
                    &&& is_args(entry(j, "substs"), tcx, tcx.args_of(substs))
                },
                ExistentialPredicate::Projection { def_id, substs, term: Term::Ty(rhs) } => {
                    &&& has_keys(j, set!["kind"@, "proj"@, "substs"@, "rhs_ty"@])
                    &&& shows(j, "kind", Json::Str("Projection"@))
                    &&& shows(j, "proj", Json::Str(def_text(tcx, def_id)))
                    &&& is_args(entry(j, "substs"), tcx, tcx.args_of(substs))
                    &&& shows(j, "rhs_ty", id(tcx, rhs))
                },
                ExistentialPredicate::Projection { term: Term::Const, .. } => is_bare(
                    j,
                    "Projection_Const",
                ),
                ExistentialPredicate::AutoTrait(d) => {
                    &&& has_keys(j, set!["kind"@, "trait"@])
                    &&& shows(j, "kind", Json::Str("AutoTrait"@))
                    &&& shows(j, "trait", Json::Str(def_text(tcx, d)))
                },
            }
        }),
        p.after(tcx, m) == record(
            tcx,
            m,
            (Refs {
                tys: Set::new(|t: Ty| mentions(tcx, p, t)),
                adts: Set::empty(),
                insts: Set::empty(),
                traits: Set::empty(),
            }),
        ),
{
    lemma_keys();
    let r = Refs {
        tys: Set::new(|t: Ty| mentions(tcx, p, t)),
        adts: Set::empty(),
        insts: Set::empty(),
        traits: Set::empty(),
    };
    assert(r =~= ex_pred_refs(tcx, p));
}

} // verus!
