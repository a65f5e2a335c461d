//! The names and the JSON forms of types, instances and data types, and what each of them
//! refers to.

use crate::ctxt::AdtData;
use crate::ctxt::AdtDef;
use crate::ctxt::AdtInst;
use crate::ctxt::AdtKind;
use crate::ctxt::AliasKind;
use crate::ctxt::Const;
use crate::ctxt::ConstKind;
use crate::ctxt::CtorKind;
use crate::ctxt::DefId;
use crate::ctxt::DynKind;
use crate::ctxt::ExistentialPredicate;
use crate::ctxt::FieldDef;
use crate::ctxt::FnSig;
use crate::ctxt::GenericArg;
use crate::ctxt::Instance;
use crate::ctxt::InstanceDef;
use crate::ctxt::Principal;
use crate::ctxt::Resolution;
use crate::ctxt::SubstsRef;
use crate::ctxt::Term;
use crate::ctxt::TraitInst;
use crate::ctxt::Ty;
use crate::ctxt::TyCtxt;
use crate::ctxt::TyKind;
use crate::ctxt::ValTree;
use crate::ctxt::VariantDef;
use crate::ctxt::VariantDiscr;
use crate::ctxt::VtblEntry;
use crate::json::json_of;
use crate::json::Json;
use crate::text::dec;
use crate::text::hex;
use vstd::prelude::*;

verus! {

// ---- Names ----

/// The name of a definition.
pub open spec fn def_text(tcx: &TyCtxt, d: DefId) -> Seq<char> {
    let data = tcx.def_data(d);
    data.crate_name@ + "/"@ + data.crate_hash@.take(8) + data.path@
}

/// The name of something derived from a definition: the name of the definition, a prefix that
/// tells what it is, and a hash.
pub open spec fn ext_def_text(tcx: &TyCtxt, d: DefId, prefix: Seq<char>, hash: u64) -> Seq<char> {
    def_text(tcx, d) + "::"@ + prefix + hex(hash as nat, 16) + "[0]"@
}

/// The name of a data type with its generic arguments: regions do not count.
pub open spec fn adt_text(tcx: &TyCtxt, ai: AdtInst) -> Seq<char> {
    let erased = tcx.substs_data(ai.substs).erased;
    ext_def_text(tcx, tcx.adt_data(ai.adt).did, "_adt"@, tcx.substs_data(erased).hash)
}

/// The name of an instance.
pub open spec fn inst_text(tcx: &TyCtxt, inst: Instance) -> Seq<char> {
    let substs = tcx.substs_data(inst.substs).normalized;
    let hash = tcx.substs_data(substs).hash;
    match inst.def {
        InstanceDef::Item(item) => plain_text(tcx, item.did, substs),
        InstanceDef::Intrinsic(d) => plain_text(tcx, d, substs),
        InstanceDef::VTableShim(d) => ext_def_text(tcx, d, "_vtshim"@, hash),
        InstanceDef::ReifyShim(d) => ext_def_text(tcx, d, "_reify"@, hash),
        InstanceDef::Virtual(d, idx) => ext_def_text(
            tcx,
            d,
            "_virt"@ + dec(idx as nat) + "_"@,
            hash,
        ),
        InstanceDef::DropGlue(d, _) => ext_def_text(tcx, d, "_drop"@, hash),
        InstanceDef::FnPtrShim(d, _) => ext_def_text(tcx, d, "_callonce"@, hash),
        InstanceDef::ClosureOnceShim { call_once, .. } => ext_def_text(
            tcx,
            call_once,
            "_callonce"@,
            hash,
        ),
        InstanceDef::CloneShim(d, _) => ext_def_text(tcx, d, "_shim"@, hash),
    }
}

/// The name of a function or an intrinsic with normalized generic arguments: that of the
/// definition where there are no arguments.
pub open spec fn plain_text(tcx: &TyCtxt, d: DefId, substs: SubstsRef) -> Seq<char> {
    if tcx.args_of(substs).len() == 0 {
        def_text(tcx, d)
    } else {
        ext_def_text(tcx, d, "_inst"@, tcx.substs_data(substs).hash)
    }
}

/// The name of a trait of trait objects.
pub open spec fn trait_text(tcx: &TyCtxt, ti: TraitInst) -> Seq<char> {
    match ti.trait_ref {
        Some(d) => ext_def_text(tcx, d, "_trait"@, tcx.ty_data(ti.dyn_ty->0).hash),
        None => "trait/0::empty[0]"@,
    }
}

/// The name of the function that `d` with `substs` resolves to; that of `d` where it does not
/// resolve.
pub open spec fn fn_text(tcx: &TyCtxt, d: DefId, substs: SubstsRef) -> Seq<char> {
    match tcx.resolutions@[(d, substs)] {
        Resolution::Resolved(inst) => inst_text(tcx, inst),
        _ => def_text(tcx, d),
    }
}

/// The name of the drop glue of a type, where dropping does something.
pub open spec fn drop_text(tcx: &TyCtxt, t: Ty) -> Option<Seq<char>> {
    match tcx.drop_glue@[t].def {
        InstanceDef::DropGlue(_, None) => None,
        _ => Some(inst_text(tcx, tcx.drop_glue@[t])),
    }
}

// ---- When names exist ----

/// The normalized generic arguments of the instance are free of regions and parameters.
pub open spec fn inst_named(tcx: &TyCtxt, inst: Instance) -> bool {
    let substs = tcx.substs_data(tcx.substs_data(inst.substs).normalized);
    !substs.has_erasable_regions && !substs.needs_subst
}

/// A trait with a principal has a trait object type.
pub open spec fn trait_named(ti: TraitInst) -> bool {
    ti.trait_ref is Some ==> ti.dyn_ty is Some
}

/// It is known what `d` with `substs` resolves to, and that has a name.
pub open spec fn fn_named(tcx: &TyCtxt, d: DefId, substs: SubstsRef) -> bool {
    &&& tcx.resolutions@.dom().contains((d, substs))
    &&& tcx.resolutions@[(d, substs)] matches Resolution::Resolved(inst) ==> inst_named(tcx, inst)
}

// ---- References ----

/// What a JSON form refers to.
#[verifier::ext_equal]
pub struct Refs {
    /// Types whose IDs it holds.
    pub tys: Set<Ty>,
    /// Data types whose definitions it needs.
    pub adts: Set<AdtInst>,
    /// Functions whose bodies it needs.
    pub insts: Set<Instance>,
    /// Traits whose vtable layouts it needs.
    pub traits: Set<TraitInst>,
}

impl Refs {
    /// No references.
    pub open spec fn nothing() -> Refs {
        Refs { tys: Set::empty(), adts: Set::empty(), insts: Set::empty(), traits: Set::empty() }
    }

    /// A reference to a type.
    pub open spec fn of_ty(t: Ty) -> Refs {
        Refs { tys: Set::empty().insert(t), ..Refs::nothing() }
    }

    /// A reference to each type of a list.
    pub open spec fn of_tys(s: Seq<Ty>) -> Refs {
        Refs { tys: s.to_set(), ..Refs::nothing() }
    }

    /// A reference to each type among generic arguments.
    pub open spec fn of_args(args: Seq<GenericArg>) -> Refs {
        Refs { tys: Set::new(|t: Ty| args.contains(GenericArg::Type(t))), ..Refs::nothing() }
    }

    /// A reference to a data type.
    pub open spec fn of_adt(ai: AdtInst) -> Refs {
        Refs { adts: Set::empty().insert(ai), ..Refs::nothing() }
    }

    /// A reference to a function.
    pub open spec fn of_inst(inst: Instance) -> Refs {
        Refs { insts: Set::empty().insert(inst), ..Refs::nothing() }
    }

    /// A reference to a trait.
    pub open spec fn of_trait(ti: TraitInst) -> Refs {
        Refs { traits: Set::empty().insert(ti), ..Refs::nothing() }
    }

    /// The references of both.
    pub open spec fn and(self, other: Refs) -> Refs {
        Refs {
            tys: self.tys.union(other.tys),
            adts: self.adts.union(other.adts),
            insts: self.insts.union(other.insts),
            traits: self.traits.union(other.traits),
        }
    }

    /// The references of `f(0)`, ..., `f(n - 1)`.
    pub open spec fn each(n: nat, f: spec_fn(int) -> Refs) -> Refs {
        Refs {
            tys: any_of(n, |i: int| f(i).tys),
            adts: any_of(n, |i: int| f(i).adts),
            insts: any_of(n, |i: int| f(i).insts),
            traits: any_of(n, |i: int| f(i).traits),
        }
    }
}

/// What is in one of `f(0)`, ..., `f(n - 1)`.
pub open spec fn any_of<X>(n: nat, f: spec_fn(int) -> Set<X>) -> Set<X> {
    Set::new(|x: X| exists|i: int| 0 <= i < n && (#[trigger] f(i)).contains(x))
}

// ---- JSON forms ----

/// A text.
pub open spec fn text(s: &str) -> Json {
    Json::Str(s@)
}

/// A reference to a type: its ID.
pub open spec fn ty_ref(tcx: &TyCtxt, t: Ty) -> Json {
    Json::Str(tcx.ty_data(t).id@)
}

/// A list of references to types.
pub open spec fn ty_refs_doc(tcx: &TyCtxt, tys: Seq<Ty>) -> Json {
    Json::Arr(tys.map_values(|t: Ty| ty_ref(tcx, t)))
}

/// A definition.
pub open spec fn def_doc(tcx: &TyCtxt, d: DefId) -> Json {
    Json::Str(def_text(tcx, d))
}

/// A generic argument.
pub open spec fn arg_doc(tcx: &TyCtxt, arg: GenericArg) -> Json {
    match arg {
        GenericArg::Type(t) => ty_ref(tcx, t),
        GenericArg::Lifetime => text("nonty::Lifetime"),
        GenericArg::Const => text("nonty::Const"),
    }
}

/// A list of generic arguments.
pub open spec fn args_doc(tcx: &TyCtxt, args: Seq<GenericArg>) -> Json {
    Json::Arr(args.map_values(|a: GenericArg| arg_doc(tcx, a)))
}

/// A list of generic arguments.
pub open spec fn substs_doc(tcx: &TyCtxt, s: SubstsRef) -> Json {
    args_doc(tcx, tcx.args_of(s))
}

/// What a list of generic arguments refers to.
pub open spec fn substs_refs(tcx: &TyCtxt, s: SubstsRef) -> Refs {
    Refs::of_args(tcx.args_of(s))
}

/// What the name of the function that `d` with `substs` resolves to refers to.
pub open spec fn fn_refs(tcx: &TyCtxt, d: DefId, substs: SubstsRef) -> Refs {
    match tcx.resolutions@[(d, substs)] {
        Resolution::Resolved(inst) => Refs::of_inst(inst),
        _ => Refs::nothing(),
    }
}

/// What the name of the drop glue of a type refers to.
pub open spec fn drop_refs(tcx: &TyCtxt, t: Ty) -> Refs {
    match tcx.drop_glue@[t].def {
        InstanceDef::DropGlue(_, None) => Refs::nothing(),
        _ => Refs::of_inst(tcx.drop_glue@[t]),
    }
}

/// A function signature.
pub open spec fn sig_doc(tcx: &TyCtxt, sig: FnSig) -> Json {
    Json::Obj(
        map![
            "inputs"@ => ty_refs_doc(tcx, sig.inputs@),
            "output"@ => ty_ref(tcx, sig.output),
            "abi"@ => json_of(sig.abi.json),
        ],
    )
}

/// What a function signature refers to.
pub open spec fn sig_refs(sig: FnSig) -> Refs {
    Refs::of_tys(sig.inputs@).and(Refs::of_ty(sig.output))
}

/// A predicate of a trait object type.
pub open spec fn ex_pred_doc(tcx: &TyCtxt, p: ExistentialPredicate) -> Json {
    match p {
        ExistentialPredicate::Trait { def_id, substs } => Json::Obj(
            map![
                "kind"@ => text("Trait"),
                "trait"@ => def_doc(tcx, def_id),
                "substs"@ => substs_doc(tcx, substs),
            ],
        ),
        ExistentialPredicate::Projection { def_id, substs, term } => match term {
            Term::Ty(t) => Json::Obj(
                map![
                    "kind"@ => text("Projection"),
                    "proj"@ => def_doc(tcx, def_id),
                    "substs"@ => substs_doc(tcx, substs),
                    "rhs_ty"@ => ty_ref(tcx, t),
                ],
            ),
            Term::Const => Json::Obj(map!["kind"@ => text("Projection_Const")]),
        },
        ExistentialPredicate::AutoTrait(d) => Json::Obj(
            map![
                "kind"@ => text("AutoTrait"),
                "trait"@ => def_doc(tcx, d),
            ],
        ),
    }
}

/// What a predicate of a trait object type refers to.
pub open spec fn ex_pred_refs(tcx: &TyCtxt, p: ExistentialPredicate) -> Refs {
    match p {
        ExistentialPredicate::Trait { def_id, substs } => substs_refs(tcx, substs),
        ExistentialPredicate::Projection { def_id, substs, term } => match term {
            Term::Ty(t) => substs_refs(tcx, substs).and(Refs::of_ty(t)),
            Term::Const => Refs::nothing(),
        },
        ExistentialPredicate::AutoTrait(d) => Refs::nothing(),
    }
}

/// The predicates of a trait object type.
pub open spec fn ex_preds_doc(tcx: &TyCtxt, ps: Seq<ExistentialPredicate>) -> Json {
    Json::Arr(ps.map_values(|p: ExistentialPredicate| ex_pred_doc(tcx, p)))
}

/// What the predicates of a trait object type refer to.
pub open spec fn ex_preds_refs(tcx: &TyCtxt, ps: Seq<ExistentialPredicate>) -> Refs {
    Refs::each(ps.len(), |i: int| ex_pred_refs(tcx, ps[i]))
}

/// The value of a constant that is a number of the size of a pointer.
pub open spec fn const_usize(c: Const) -> usize {
    (c.kind->Value_0->Leaf_0.data as u64) as usize
}

/// The constant is a number of the size of a pointer.
pub open spec fn const_ok(tcx: &TyCtxt, c: Const) -> bool {
    &&& c.kind matches ConstKind::Value(ValTree::Leaf(val))
    &&& val.size == tcx.pointer_size
    &&& val.data <= u64::MAX
}

/// A constant of the type system.
pub open spec fn const_doc(tcx: &TyCtxt, c: Const) -> Json {
    Json::Obj(
        map![
            "ty"@ => ty_ref(tcx, c.ty),
            "rendered"@ => Json::Obj(
                map![
                    "kind"@ => text("usize"),
                    "size"@ => Json::Num(c.kind->Value_0->Leaf_0.size as nat),
                    "val"@ => Json::Str(dec(const_usize(c) as nat)),
                ],
            ),
        ],
    )
}

/// A type that has no parts to show.
pub open spec fn bare_doc(kind: &str) -> Json {
    Json::Obj(map!["kind"@ => text(kind)])
}

/// The shape of a type.
pub open spec fn kind_doc(tcx: &TyCtxt, kind: TyKind) -> Json {
    match kind {
        TyKind::Bool => bare_doc("Bool"),
        TyKind::Char => bare_doc("Char"),
        TyKind::Int(t) => Json::Obj(map!["kind"@ => text("Int"), "intkind"@ => json_of(t.json)]),
        TyKind::Uint(t) => Json::Obj(map!["kind"@ => text("Uint"), "uintkind"@ => json_of(t.json)]),
        TyKind::Tuple(tys) => Json::Obj(
            map!["kind"@ => text("Tuple"), "tys"@ => ty_refs_doc(tcx, tys@)],
        ),
        TyKind::Slice(t) => Json::Obj(map!["kind"@ => text("Slice"), "ty"@ => ty_ref(tcx, t)]),
        TyKind::Str => bare_doc("Str"),
        TyKind::Float(t) => Json::Obj(map!["kind"@ => text("Float"), "size"@ => json_of(t.json)]),
        TyKind::Array(t, c) => Json::Obj(
            map![
                "kind"@ => text("Array"),
                "ty"@ => ty_ref(tcx, t),
                "size"@ => const_doc(tcx, c),
            ],
        ),
        TyKind::Ref(t, m) => Json::Obj(
            map![
                "kind"@ => text("Ref"),
                "ty"@ => ty_ref(tcx, t),
                "mutability"@ => json_of(m.json),
            ],
        ),
        TyKind::RawPtr(t, m) => Json::Obj(
            map![
                "kind"@ => text("RawPtr"),
                "ty"@ => ty_ref(tcx, t),
                "mutability"@ => json_of(m.json),
            ],
        ),
        TyKind::Adt(adt, substs) => Json::Obj(
            map![
                "kind"@ => text("Adt"),
                "name"@ => Json::Str(adt_text(tcx, AdtInst { adt, substs })),
                "orig_def_id"@ => def_doc(tcx, tcx.adt_data(adt).did),
                "substs"@ => substs_doc(tcx, substs),
            ],
        ),
        TyKind::FnDef(d, substs) => Json::Obj(
            map!["kind"@ => text("FnDef"), "defid"@ => Json::Str(fn_text(tcx, d, substs))],
        ),
        TyKind::Closure(tys) => Json::Obj(
            map!["kind"@ => text("Closure"), "upvar_tys"@ => ty_refs_doc(tcx, tys@)],
        ),
        TyKind::Dynamic(dt, DynKind::Dyn) => Json::Obj(
            map![
                "kind"@ => text("Dynamic"),
                "trait_id"@ => Json::Str(trait_text(tcx, dt.trait_inst)),
                "predicates"@ => ex_preds_doc(tcx, dt.predicates@),
            ],
        ),
        TyKind::Dynamic(dt, DynKind::DynStar) => bare_doc("DynamicStar"),
        TyKind::FnPtr(sig) => Json::Obj(
            map!["kind"@ => text("FnPtr"), "signature"@ => sig_doc(tcx, sig.erased)],
        ),
        TyKind::Never => bare_doc("Never"),
        TyKind::Error => bare_doc("Error"),
        TyKind::Infer => bare_doc("Infer"),
        TyKind::Bound => bare_doc("Bound"),
        TyKind::Placeholder => bare_doc("Placeholder"),
        TyKind::Foreign => bare_doc("Foreign"),
        TyKind::Generator => bare_doc("Generator"),
        TyKind::GeneratorWitness => bare_doc("GeneratorWitness"),
        TyKind::Alias(_) => bare_doc("Alias"),
        TyKind::Param => Json::Null,
    }
}

/// What the shape of a type refers to.
pub open spec fn kind_refs(tcx: &TyCtxt, kind: TyKind) -> Refs {
    match kind {
        TyKind::Tuple(tys) => Refs::of_tys(tys@),
        TyKind::Slice(t) => Refs::of_ty(t),
        TyKind::Array(t, c) => Refs::of_ty(t).and(Refs::of_ty(c.ty)),
        TyKind::Ref(t, _) => Refs::of_ty(t),
        TyKind::RawPtr(t, _) => Refs::of_ty(t),
        TyKind::Adt(adt, substs) => Refs::of_adt(AdtInst { adt, substs }).and(
            substs_refs(tcx, substs),
        ),
        TyKind::FnDef(d, substs) => fn_refs(tcx, d, substs),
        TyKind::Closure(tys) => Refs::of_tys(tys@),
        TyKind::Dynamic(dt, DynKind::Dyn) => Refs::of_trait(dt.trait_inst).and(
            ex_preds_refs(tcx, dt.predicates@),
        ),
        TyKind::FnPtr(sig) => sig_refs(sig.erased),
        _ => Refs::nothing(),
    }
}

/// The type can be shown, as far as its own shape goes: it is neither a type parameter nor a
/// projection, the length of an array is a number, and names exist.
pub open spec fn kind_ok(tcx: &TyCtxt, kind: TyKind) -> bool {
    match kind {
        TyKind::Array(_, c) => const_ok(tcx, c),
        TyKind::FnDef(d, substs) => fn_named(tcx, d, substs),
        TyKind::Dynamic(dt, DynKind::Dyn) => trait_named(dt.trait_inst),
        TyKind::Alias(AliasKind::Projection) => false,
        TyKind::Param => false,
        _ => true,
    }
}

/// The JSON form of a type, as the table of types holds it.
pub open spec fn ty_doc(tcx: &TyCtxt, t: Ty) -> Json {
    kind_doc(tcx, tcx.kind_of(t))
}

/// What the JSON form of a type refers to.
pub open spec fn ty_refs(tcx: &TyCtxt, t: Ty) -> Refs {
    kind_refs(tcx, tcx.kind_of(t))
}

/// `b` is `a`, or a type that `a` refers to through however many others.
pub open spec fn reaches(tcx: &TyCtxt, a: Ty, b: Ty) -> bool
    decreases a.0,
{
    a == b || exists|c: Ty|
        c.0 < a.0 && #[trigger] ty_refs(tcx, a).tys.contains(c) && reaches(tcx, c, b)
}

/// All types that the types of `s` reach.
pub open spec fn closure(tcx: &TyCtxt, s: Set<Ty>) -> Set<Ty> {
    Set::new(|b: Ty| exists|a: Ty| s.contains(a) && #[trigger] reaches(tcx, a, b))
}

/// All types that are reached from what is referred to are known and can be shown.
pub open spec fn refs_ok(tcx: &TyCtxt, r: Refs) -> bool {
    &&& forall|t: Ty| r.tys.contains(t) ==> #[trigger] tcx.has_ty(t)
    &&& forall|t: Ty|
        closure(tcx, r.tys).contains(t) ==> kind_ok(tcx, #[trigger] tcx.kind_of(t))
}

// ---- Instances ----

/// The first type among generic arguments.
pub open spec fn first_type(args: Seq<GenericArg>) -> Option<Ty>
    decreases args.len(),
{
    if args.len() == 0 {
        None
    } else {
        match args[0] {
            GenericArg::Type(t) => Some(t),
            _ => first_type(args.drop_first()),
        }
    }
}

/// How many of the first `raw` entries of a vtable are methods.
pub open spec fn method_index(vtable: Seq<VtblEntry>, raw: nat) -> nat {
    let n = if raw < vtable.len() {
        raw as int
    } else {
        vtable.len() as int
    };
    vtable.take(n).filter(|e: VtblEntry| e is Method).len()
}

/// The principal trait of the trait object type that is the self type of generic arguments.
pub open spec fn self_principal(tcx: &TyCtxt, s: SubstsRef) -> Principal {
    tcx.kind_of(first_type(tcx.args_of(s))->0)->Dynamic_0.principal->0
}

/// The self type of generic arguments is a trait object type with a principal trait.
pub open spec fn has_self_principal(tcx: &TyCtxt, s: SubstsRef) -> bool {
    &&& first_type(tcx.args_of(s)) matches Some(t)
    &&& tcx.kind_of(t) matches TyKind::Dynamic(dt, _)
    &&& dt.principal is Some
}

/// The types of the parts that a clone shim for `t` clones one by one.
pub open spec fn clone_parts(tcx: &TyCtxt, t: Ty) -> Seq<Ty> {
    match tcx.kind_of(t) {
        TyKind::Array(e, _) => seq![e],
        TyKind::Tuple(tys) => tys@,
        TyKind::Closure(tys) => tys@,
        _ => Seq::empty(),
    }
}

/// The function that a clone shim calls for a part of type `t`.
pub open spec fn callee_doc(tcx: &TyCtxt, d: DefId, t: Ty) -> Json {
    match tcx.clone_resolutions@[(d, t)] {
        Resolution::Resolved(inst) => Json::Str(inst_text(tcx, inst)),
        _ => Json::Null,
    }
}

/// What the call of a clone shim for a part of type `t` refers to.
pub open spec fn callee_refs(tcx: &TyCtxt, d: DefId, t: Ty) -> Refs {
    match tcx.clone_resolutions@[(d, t)] {
        Resolution::Resolved(inst) => Refs::of_inst(inst),
        _ => Refs::nothing(),
    }
}

/// It is known what a clone shim calls for a part of type `t`.
pub open spec fn callee_ok(tcx: &TyCtxt, d: DefId, t: Ty) -> bool {
    &&& tcx.clone_resolutions@.dom().contains((d, t))
    &&& match tcx.clone_resolutions@[(d, t)] {
        Resolution::Resolved(inst) => inst_named(tcx, inst),
        Resolution::Unresolved => true,
        Resolution::Failed => false,
    }
}

/// The calls of a clone shim.
pub open spec fn callees_doc(tcx: &TyCtxt, d: DefId, parts: Seq<Ty>) -> Json {
    Json::Arr(parts.map_values(|t: Ty| callee_doc(tcx, d, t)))
}

/// An instance of a definition with generic arguments.
pub open spec fn shim_doc(tcx: &TyCtxt, kind: &str, d: DefId, substs: SubstsRef) -> Json {
    Json::Obj(
        map![
            "kind"@ => text(kind),
            "def_id"@ => def_doc(tcx, d),
            "substs"@ => substs_doc(tcx, substs),
        ],
    )
}

/// An instance of a definition with generic arguments, for a type.
pub open spec fn ty_shim_doc(
    tcx: &TyCtxt,
    kind: &str,
    d: DefId,
    substs: SubstsRef,
    ty: Json,
) -> Json {
    Json::Obj(
        map![
            "kind"@ => text(kind),
            "def_id"@ => def_doc(tcx, d),
            "substs"@ => substs_doc(tcx, substs),
            "ty"@ => ty,
        ],
    )
}

/// An instance.
pub open spec fn inst_doc(tcx: &TyCtxt, inst: Instance) -> Json {
    let substs = tcx.substs_data(inst.substs).normalized;
    match inst.def {
        InstanceDef::Item(item) => shim_doc(tcx, "Item", item.did, substs),
        InstanceDef::Intrinsic(d) => shim_doc(tcx, "Intrinsic", d, substs),
        InstanceDef::VTableShim(d) => shim_doc(tcx, "VTableShim", d, substs),
        InstanceDef::ReifyShim(d) => shim_doc(tcx, "ReifyShim", d, substs),
        InstanceDef::FnPtrShim(d, t) => ty_shim_doc(tcx, "FnPtrShim", d, substs, ty_ref(tcx, t)),
        InstanceDef::Virtual(d, idx) => {
            let principal = self_principal(tcx, substs);
            Json::Obj(
                map![
                    "kind"@ => text("Virtual"),
                    "trait_id"@ => Json::Str(trait_text(tcx, principal.trait_inst)),
                    "item_id"@ => def_doc(tcx, d),
                    "index"@ => Json::Num(method_index(principal.vtable@, idx as nat)),
                ],
            )
        },
        InstanceDef::ClosureOnceShim { call_once, .. } => Json::Obj(
            map![
                "kind"@ => text("ClosureOnceShim"),
                "call_once"@ => def_doc(tcx, call_once),
                "substs"@ => substs_doc(tcx, substs),
            ],
        ),
        InstanceDef::DropGlue(d, t) => ty_shim_doc(
            tcx,
            "DropGlue",
            d,
            substs,
            match t {
                Some(t) => ty_ref(tcx, t),
                None => Json::Null,
            },
        ),
        InstanceDef::CloneShim(d, t) => Json::Obj(
            map![
                "kind"@ => text("CloneShim"),
                "def_id"@ => def_doc(tcx, d),
                "substs"@ => substs_doc(tcx, substs),
                "ty"@ => ty_ref(tcx, t),
                "callees"@ => callees_doc(tcx, d, clone_parts(tcx, t)),
            ],
        ),
    }
}

/// What the JSON form of an instance refers to.
pub open spec fn inst_refs(tcx: &TyCtxt, inst: Instance) -> Refs {
    let substs = tcx.substs_data(inst.substs).normalized;
    match inst.def {
        InstanceDef::FnPtrShim(_, t) => substs_refs(tcx, substs).and(Refs::of_ty(t)),
        InstanceDef::Virtual(_, _) => Refs::of_trait(self_principal(tcx, substs).trait_inst),
        InstanceDef::DropGlue(_, Some(t)) => substs_refs(tcx, substs).and(Refs::of_ty(t)),
        InstanceDef::CloneShim(d, t) => callees_refs(tcx, d, clone_parts(tcx, t)).and(
            substs_refs(tcx, substs),
        ).and(Refs::of_ty(t)),
        _ => substs_refs(tcx, substs),
    }
}

/// What the calls of a clone shim refer to.
pub open spec fn callees_refs(tcx: &TyCtxt, d: DefId, parts: Seq<Ty>) -> Refs {
    Refs::each(parts.len(), |i: int| callee_refs(tcx, d, parts[i]))
}

/// The JSON form of an instance exists.
pub open spec fn inst_ok(tcx: &TyCtxt, inst: Instance) -> bool {
    let substs = tcx.substs_data(inst.substs).normalized;
    &&& inst.within(tcx)
    &&& refs_ok(tcx, inst_refs(tcx, inst))
    &&& match inst.def {
        InstanceDef::Virtual(_, _) => {
            &&& has_self_principal(tcx, substs)
            &&& trait_named(self_principal(tcx, substs).trait_inst)
        },
        InstanceDef::CloneShim(d, t) => forall|i: int|
            0 <= i < clone_parts(tcx, t).len() ==> callee_ok(
                tcx,
                d,
                #[trigger] clone_parts(tcx, t)[i],
            ),
        _ => true,
    }
}

// ---- Data types ----

/// How the discriminant of a variant is given.
pub open spec fn discr_doc(tcx: &TyCtxt, discr: VariantDiscr) -> Json {
    match discr {
        VariantDiscr::Relative(i) => Json::Obj(
            map!["kind"@ => text("Relative"), "index"@ => Json::Num(i as nat)],
        ),
        VariantDiscr::Explicit(d) => Json::Obj(
            map![
                "kind"@ => text("Explicit"),
                "name"@ => Json::Str(fn_text(tcx, d, tcx.empty_substs)),
            ],
        ),
    }
}

/// What the discriminant of a variant refers to.
pub open spec fn discr_refs(tcx: &TyCtxt, discr: VariantDiscr) -> Refs {
    match discr {
        VariantDiscr::Relative(_) => Refs::nothing(),
        VariantDiscr::Explicit(d) => fn_refs(tcx, d, tcx.empty_substs),
    }
}

/// The discriminant of a variant can be shown.
pub open spec fn discr_ok(tcx: &TyCtxt, discr: VariantDiscr) -> bool {
    discr matches VariantDiscr::Explicit(d) ==> tcx.has_def(d) && fn_named(tcx, d, tcx.empty_substs)
}

/// A field of a data type with generic arguments `substs`.
pub open spec fn field_doc(tcx: &TyCtxt, f: FieldDef, substs: SubstsRef) -> Json {
    Json::Obj(
        map![
            "name"@ => def_doc(tcx, f.did),
            "ty"@ => ty_ref(tcx, tcx.field_tys@[(f.did, substs)]),
        ],
    )
}

/// What a field refers to.
pub open spec fn field_refs(tcx: &TyCtxt, f: FieldDef, substs: SubstsRef) -> Refs {
    Refs::of_ty(tcx.field_tys@[(f.did, substs)])
}

/// The type of a field is known.
pub open spec fn field_ok(tcx: &TyCtxt, f: FieldDef, substs: SubstsRef) -> bool {
    &&& tcx.has_def(f.did)
    &&& tcx.field_tys@.dom().contains((f.did, substs))
    &&& refs_ok(tcx, field_refs(tcx, f, substs))
}

/// The fields of a variant.
pub open spec fn fields_doc(tcx: &TyCtxt, fs: Seq<FieldDef>, substs: SubstsRef) -> Json {
    Json::Arr(fs.map_values(|f: FieldDef| field_doc(tcx, f, substs)))
}

/// What the fields of a variant refer to.
pub open spec fn fields_refs(tcx: &TyCtxt, fs: Seq<FieldDef>, substs: SubstsRef) -> Refs {
    Refs::each(fs.len(), |i: int| field_refs(tcx, fs[i], substs))
}

/// The kind of a constructor, where there is one.
pub open spec fn ctor_doc(kind: Option<CtorKind>) -> Json {
    match kind {
        Some(k) => json_of(k.json),
        None => Json::Null,
    }
}

/// A variant of a data type with generic arguments `substs`; `discr_value` is its discriminant
/// where the data type has them.
pub open spec fn variant_doc(
    tcx: &TyCtxt,
    v: VariantDef,
    substs: SubstsRef,
    discr_value: Option<Seq<char>>,
) -> Json {
    Json::Obj(
        map![
            "name"@ => def_doc(tcx, v.def_id),
            "discr"@ => discr_doc(tcx, v.discr),
            "fields"@ => fields_doc(tcx, v.fields@, substs),
            "ctor_kind"@ => ctor_doc(v.ctor_kind),
            "discr_value"@ => match discr_value {
                Some(s) => Json::Str(s),
                None => Json::Null,
            },
            "inhabited"@ => Json::Bool(tcx.inhabited@[(v.def_id, substs)]),
        ],
    )
}

/// What a variant refers to.
pub open spec fn variant_refs(tcx: &TyCtxt, v: VariantDef, substs: SubstsRef) -> Refs {
    discr_refs(tcx, v.discr).and(fields_refs(tcx, v.fields@, substs))
}

/// A variant can be shown.
pub open spec fn variant_ok(tcx: &TyCtxt, v: VariantDef, substs: SubstsRef) -> bool {
    &&& v.within(tcx)
    &&& discr_ok(tcx, v.discr)
    &&& tcx.inhabited@.dom().contains((v.def_id, substs))
    &&& forall|i: int|
        0 <= i < v.fields.len() ==> field_ok(tcx, #[trigger] v.fields@[i], substs)
}

/// The variants of a data type: those of an enum in the order of its discriminants.
pub open spec fn variants_doc(tcx: &TyCtxt, ai: AdtInst) -> Json {
    let data = tcx.adt_data(ai.adt);
    if data.kind is Enum {
        Json::Arr(
            Seq::new(
                data.discriminants@.len(),
                |i: int|
                    variant_doc(
                        tcx,
                        data.variants@[data.discriminants@[i].variant as int],
                        ai.substs,
                        Some(data.discriminants@[i].value@),
                    ),
            ),
        )
    } else {
        Json::Arr(
            Seq::new(
                data.variants@.len(),
                |i: int| variant_doc(tcx, data.variants@[i], ai.substs, None),
            ),
        )
    }
}

/// What the variants of a data type refer to.
pub open spec fn variants_refs(tcx: &TyCtxt, ai: AdtInst) -> Refs {
    let data = tcx.adt_data(ai.adt);
    if data.kind is Enum {
        Refs::each(
            data.discriminants@.len(),
            |i: int|
                variant_refs(
                    tcx,
                    data.variants@[data.discriminants@[i].variant as int],
                    ai.substs,
                ),
        )
    } else {
        Refs::each(
            data.variants@.len(),
            |i: int| variant_refs(tcx, data.variants@[i], ai.substs),
        )
    }
}

/// Which kind of data type it is; for an enum, with the type of the discriminant.
pub open spec fn adt_kind_doc(tcx: &TyCtxt, adt: AdtDef) -> Json {
    match tcx.adt_data(adt).kind {
        AdtKind::Struct => bare_doc("Struct"),
        AdtKind::Enum => Json::Obj(
            map![
                "kind"@ => text("Enum"),
                "discr_ty"@ => ty_ref(tcx, tcx.adt_data(adt).discr_ty),
            ],
        ),
        AdtKind::Union => bare_doc("Union"),
    }
}

/// What the kind of a data type refers to.
pub open spec fn adt_kind_refs(tcx: &TyCtxt, adt: AdtDef) -> Refs {
    if tcx.adt_data(adt).kind is Enum {
        Refs::of_ty(tcx.adt_data(adt).discr_ty)
    } else {
        Refs::nothing()
    }
}

/// A data type with its generic arguments.
pub open spec fn adt_doc(tcx: &TyCtxt, ai: AdtInst) -> Json {
    Json::Obj(
        map![
            "name"@ => Json::Str(adt_text(tcx, ai)),
            "kind"@ => adt_kind_doc(tcx, ai.adt),
            "variants"@ => variants_doc(tcx, ai),
            "size"@ => Json::Num(tcx.sizes@[tcx.adt_tys@[ai]] as nat),
            "repr_transparent"@ => Json::Bool(tcx.adt_data(ai.adt).repr_transparent),
            "orig_def_id"@ => def_doc(tcx, tcx.adt_data(ai.adt).did),
            "orig_substs"@ => substs_doc(tcx, ai.substs),
        ],
    )
}

/// What the JSON form of a data type refers to.
pub open spec fn adt_refs(tcx: &TyCtxt, ai: AdtInst) -> Refs {
    adt_kind_refs(tcx, ai.adt).and(variants_refs(tcx, ai)).and(substs_refs(tcx, ai.substs))
}

/// The variants that are shown can be shown.
pub open spec fn variants_ok(tcx: &TyCtxt, ai: AdtInst) -> bool {
    let data = tcx.adt_data(ai.adt);
    if data.kind is Enum {
        forall|i: int|
            0 <= i < data.discriminants.len() ==> variant_ok(
                tcx,
                data.variants@[(#[trigger] data.discriminants@[i]).variant as int],
                ai.substs,
            )
    } else {
        forall|i: int|
            0 <= i < data.variants.len() ==> variant_ok(
                tcx,
                #[trigger] data.variants@[i],
                ai.substs,
            )
    }
}

/// The variants of a data type are listed as they are defined: those of an enum once each, in
/// their order, by its discriminants; a struct or a union has one.
pub open spec fn variants_listed(data: AdtData) -> bool {
    if data.kind is Enum {
        &&& data.discriminants.len() == data.variants.len()
        &&& forall|i: int|
            0 <= i < data.discriminants.len() ==> (#[trigger] data.discriminants@[i]).variant == i
    } else {
        data.variants.len() == 1
    }
}

/// The JSON form of a data type exists: its variants are listed as they are defined, its layout
/// is known, and its parts can be shown.
pub open spec fn adt_ok(tcx: &TyCtxt, ai: AdtInst) -> bool {
    &&& ai.within(tcx)
    &&& variants_listed(tcx.adt_data(ai.adt))
    &&& tcx.adt_tys@.dom().contains(ai)
    &&& tcx.sizes@.dom().contains(tcx.adt_tys@[ai])
    &&& refs_ok(tcx, adt_refs(tcx, ai))
    &&& variants_ok(tcx, ai)
}

} // verus!
