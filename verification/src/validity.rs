//! Deciding whether a compiler session is consistent.

use crate::consts::get_const_usize;
use crate::ctxt::args_below;
use crate::ctxt::tys_below;
use crate::ctxt::AdtData;
use crate::ctxt::AdtDef;
use crate::ctxt::AdtInst;
use crate::ctxt::AllocId;
use crate::ctxt::ConstKind;
use crate::ctxt::DefId;
use crate::ctxt::DynTy;
use crate::ctxt::ExistentialPredicate;
use crate::ctxt::GenericArg;
use crate::ctxt::GlobalAlloc;
use crate::ctxt::Instance;
use crate::ctxt::InstanceDef;
use crate::ctxt::OpTy;
use crate::ctxt::OpValue;
use crate::ctxt::Resolution;
use crate::ctxt::SubstsRef;
use crate::ctxt::Term;
use crate::ctxt::TraitInst;
use crate::ctxt::Ty;
use crate::ctxt::TyCtxt;
use crate::ctxt::TyKind;
use crate::ctxt::ValTree;
use crate::ctxt::VariantDef;
use crate::ctxt::VariantDiscr;
use crate::table::Accepts;
use vstd::prelude::*;
use vstd::string::*;

verus! {

/// Whether the types among some generic arguments come before `n`.
fn args_in(args: &Vec<GenericArg>, n: usize) -> (b: bool)
    ensures
        b == args_below(args@, n as nat),
{
    let mut i: usize = 0;
    while i < args.len()
        invariant
            i <= args.len(),
            forall|j: int|
                0 <= j < i ==> (#[trigger] args@[j] matches GenericArg::Type(t) ==> t.0 < n),
        decreases args.len() - i,
    {
        if let GenericArg::Type(t) = args[i] {
            if t.0 >= n {
                assert(args@[i as int] == GenericArg::Type(t));
                return false;
            }
        }
        i = i + 1;
    }
    true
}

/// Whether the types of a list come before `n`.
fn tys_in(tys: &Vec<Ty>, n: usize) -> (b: bool)
    ensures
        b == tys_below(tys@, n as nat),
{
    let mut i: usize = 0;
    while i < tys.len()
        invariant
            i <= tys.len(),
            forall|j: int| 0 <= j < i ==> (#[trigger] tys@[j]).0 < n,
        decreases tys.len() - i,
    {
        if tys[i].0 >= n {
            assert(tys@[i as int].0 >= n);
            return false;
        }
        i = i + 1;
    }
    true
}

/// Whether a list of generic arguments is known, and its types come before `n`.
fn substs_in(tcx: &TyCtxt, substs: SubstsRef, n: usize) -> (b: bool)
    ensures
        b == tcx.substs_below(substs, n as nat),
{
    substs.0 < tcx.substs.len() && args_in(&tcx.substs[substs.0].args, n)
}

/// Whether the parts of a predicate are known, and its types come before `n`.
fn predicate_in(tcx: &TyCtxt, p: &ExistentialPredicate, n: usize) -> (b: bool)
    ensures
        b == p.below(tcx, n as nat),
{
    match p {
        ExistentialPredicate::Trait { def_id, substs } => def_id.0 < tcx.defs.len() && substs_in(
            tcx,
            *substs,
            n,
        ),
        ExistentialPredicate::Projection { def_id, substs, term } => def_id.0 < tcx.defs.len()
            && substs_in(tcx, *substs, n) && match term {
            Term::Ty(t) => t.0 < n,
            Term::Const => true,
        },
        ExistentialPredicate::AutoTrait(def_id) => def_id.0 < tcx.defs.len(),
    }
}

/// Whether the parts of a trait are known.
fn trait_in(tcx: &TyCtxt, ti: &TraitInst) -> (b: bool)
    ensures
        b == ti.within(tcx),
{
    let trait_known = match ti.trait_ref {
        Some(d) => d.0 < tcx.defs.len(),
        None => true,
    };
    let ty_known = match ti.dyn_ty {
        Some(t) => t.0 < tcx.tys.len(),
        None => true,
    };
    trait_known && ty_known
}

/// Whether the parts of an instance are known.
fn instance_in(tcx: &TyCtxt, inst: &Instance) -> (b: bool)
    ensures
        b == inst.within(tcx),
{
    inst.substs.0 < tcx.substs.len() && match inst.def {
        InstanceDef::Item(item) => item.did.0 < tcx.defs.len(),
        InstanceDef::Intrinsic(d) => d.0 < tcx.defs.len(),
        InstanceDef::VTableShim(d) => d.0 < tcx.defs.len(),
        InstanceDef::ReifyShim(d) => d.0 < tcx.defs.len(),
        InstanceDef::FnPtrShim(d, t) => d.0 < tcx.defs.len() && t.0 < tcx.tys.len(),
        InstanceDef::Virtual(d, _) => d.0 < tcx.defs.len(),
        InstanceDef::ClosureOnceShim { call_once, .. } => call_once.0 < tcx.defs.len(),
        InstanceDef::DropGlue(d, t) => d.0 < tcx.defs.len() && match t {
            Some(t) => t.0 < tcx.tys.len(),
            None => true,
        },
        InstanceDef::CloneShim(d, t) => d.0 < tcx.defs.len() && t.0 < tcx.tys.len(),
    }
}

/// Whether the parts of a trait object type are known, and its types come before `n`.
fn dynamic_in(tcx: &TyCtxt, dt: &DynTy, n: usize) -> (b: bool)
    ensures
        b == ({
            &&& dt.trait_inst.within(tcx)
            &&& dt.principal matches Some(p) ==> p.trait_inst.within(tcx)
            &&& forall|i: int|
                0 <= i < dt.predicates.len() ==> (#[trigger] dt.predicates@[i]).below(
                    tcx,
                    n as nat,
                )
        }),
{
    let principal_known = match &dt.principal {
        Some(p) => trait_in(tcx, &p.trait_inst),
        None => true,
    };
    if !trait_in(tcx, &dt.trait_inst) || !principal_known {
        return false;
    }
    let mut i: usize = 0;
    while i < dt.predicates.len()
        invariant
            i <= dt.predicates.len(),
            forall|j: int|
                0 <= j < i ==> (#[trigger] dt.predicates@[j]).below(tcx, n as nat),
        decreases dt.predicates.len() - i,
    {
        if !predicate_in(tcx, &dt.predicates[i], n) {
            assert(!dt.predicates@[i as int].below(tcx, n as nat));
            return false;
        }
        i = i + 1;
    }
    true
}

/// Whether the parts of a type are known, and the types among them come before `n`.
fn kind_in(tcx: &TyCtxt, kind: &TyKind, n: usize) -> (b: bool)
    ensures
        b == kind.below(tcx, n as nat),
{
    match kind {
        TyKind::Adt(adt, substs) => adt.0 < tcx.adts.len() && substs_in(tcx, *substs, n),
        TyKind::Array(t, c) => t.0 < n && c.ty.0 < n,
        TyKind::Slice(t) => t.0 < n,
        TyKind::RawPtr(t, _) => t.0 < n,
        TyKind::Ref(t, _) => t.0 < n,
        TyKind::FnDef(d, substs) => d.0 < tcx.defs.len() && substs.0 < tcx.substs.len(),
        TyKind::FnPtr(sig) => tys_in(&sig.erased.inputs, n) && sig.erased.output.0 < n,
        TyKind::Dynamic(dt, _) => dynamic_in(tcx, dt, n),
        TyKind::Closure(tys) => tys_in(tys, n),
        TyKind::Tuple(tys) => tys_in(tys, n),
        _ => true,
    }
}

/// Whether the parts of a variant are known.
fn variant_in(tcx: &TyCtxt, v: &VariantDef) -> (b: bool)
    ensures
        b == v.within(tcx),
{
    let discr_known = match v.discr {
        VariantDiscr::Explicit(d) => d.0 < tcx.defs.len(),
        VariantDiscr::Relative(_) => true,
    };
    if v.def_id.0 >= tcx.defs.len() || !discr_known {
        return false;
    }
    let mut i: usize = 0;
    while i < v.fields.len()
        invariant
            i <= v.fields.len(),
            forall|j: int| 0 <= j < i ==> tcx.has_def((#[trigger] v.fields@[j]).did),
        decreases v.fields.len() - i,
    {
        if v.fields[i].did.0 >= tcx.defs.len() {
            assert(!tcx.has_def(v.fields@[i as int].did));
            return false;
        }
        i = i + 1;
    }
    true
}

/// Whether the parts of a data type definition are known.
fn adt_in(tcx: &TyCtxt, data: &AdtData) -> (b: bool)
    ensures
        b == data.within(tcx),
{
    if data.did.0 >= tcx.defs.len() || data.discr_ty.0 >= tcx.tys.len() {
        return false;
    }
    let mut i: usize = 0;
    while i < data.variants.len()
        invariant
            i <= data.variants.len(),
            forall|j: int| 0 <= j < i ==> (#[trigger] data.variants@[j]).within(tcx),
        decreases data.variants.len() - i,
    {
        if !variant_in(tcx, &data.variants[i]) {
            assert(!data.variants@[i as int].within(tcx));
            return false;
        }
        i = i + 1;
    }
    let mut k: usize = 0;
    while k < data.discriminants.len()
        invariant
            k <= data.discriminants.len(),
            forall|j: int|
                0 <= j < k ==> (#[trigger] data.discriminants@[j]).variant < data.variants.len(),
        decreases data.discriminants.len() - k,
    {
        if data.discriminants[k].variant >= data.variants.len() {
            assert(data.discriminants@[k as int].variant >= data.variants.len());
            return false;
        }
        k = k + 1;
    }
    true
}

/// Whether `t` is the type of the arrays of `len` elements of type `elem`.
fn array_in(tcx: &TyCtxt, t: Ty, elem: Ty, len: u64) -> (b: bool)
    ensures
        b == tcx.is_array_ty(t, elem, len),
{
    if t.0 >= tcx.tys.len() {
        return false;
    }
    match tcx.kind(t) {
        TyKind::Array(e, c) => match c.kind {
            ConstKind::Value(ValTree::Leaf(val)) => *e == elem && val.size == tcx.pointer_size
                && val.data <= u64::MAX as u128 && get_const_usize(tcx, *c) as u64 == len,
            _ => false,
        },
        _ => false,
    }
}

/// Whether `t` is the type that a data type is with its generic arguments.
fn adt_ty_in(tcx: &TyCtxt, t: Ty, ai: AdtInst) -> (b: bool)
    ensures
        b == tcx.is_adt_ty(t, ai),
{
    if t.0 >= tcx.tys.len() {
        return false;
    }
    match tcx.kind(t) {
        TyKind::Adt(adt, substs) => *adt == ai.adt && *substs == ai.substs,
        _ => false,
    }
}

/// That an answer fits what was asked, in a session.
pub struct Fits<'a> {
    pub tcx: &'a TyCtxt,
}

/// Whether what a function resolves to is known.
fn resolution_in(tcx: &TyCtxt, r: &Resolution) -> (b: bool)
    ensures
        b == (*r matches Resolution::Resolved(inst) ==> inst.within(tcx)),
{
    match r {
        Resolution::Resolved(inst) => instance_in(tcx, inst),
        _ => true,
    }
}

// What a function resolves to is known.
impl<'a> Accepts<(DefId, SubstsRef), Resolution> for Fits<'a> {
    open spec fn accepts(&self, k: (DefId, SubstsRef), v: Resolution) -> bool {
        v matches Resolution::Resolved(inst) ==> inst.within(self.tcx)
    }

    fn accept(&self, k: &(DefId, SubstsRef), v: &Resolution) -> (b: bool) {
        resolution_in(self.tcx, v)
    }
}

// What a method of `Clone` resolves to is known.
impl<'a> Accepts<(DefId, Ty), Resolution> for Fits<'a> {
    open spec fn accepts(&self, k: (DefId, Ty), v: Resolution) -> bool {
        v matches Resolution::Resolved(inst) ==> inst.within(self.tcx)
    }

    fn accept(&self, k: &(DefId, Ty), v: &Resolution) -> (b: bool) {
        resolution_in(self.tcx, v)
    }
}

// Drop glue is known.
impl<'a> Accepts<Ty, Instance> for Fits<'a> {
    open spec fn accepts(&self, k: Ty, v: Instance) -> bool {
        v.within(self.tcx)
    }

    fn accept(&self, k: &Ty, v: &Instance) -> (b: bool) {
        instance_in(self.tcx, v)
    }
}

// The type of a field is known.
impl<'a> Accepts<(DefId, SubstsRef), Ty> for Fits<'a> {
    open spec fn accepts(&self, k: (DefId, SubstsRef), v: Ty) -> bool {
        self.tcx.has_ty(v)
    }

    fn accept(&self, k: &(DefId, SubstsRef), v: &Ty) -> (b: bool) {
        v.0 < self.tcx.tys.len()
    }
}

// An array type is what it is listed for.
impl<'a> Accepts<(Ty, u64), Ty> for Fits<'a> {
    open spec fn accepts(&self, k: (Ty, u64), v: Ty) -> bool {
        self.tcx.is_array_ty(v, k.0, k.1)
    }

    fn accept(&self, k: &(Ty, u64), v: &Ty) -> (b: bool) {
        array_in(self.tcx, *v, k.0, k.1)
    }
}

// The type of a data type is what it is listed for.
impl<'a> Accepts<AdtInst, Ty> for Fits<'a> {
    open spec fn accepts(&self, k: AdtInst, v: Ty) -> bool {
        self.tcx.is_adt_ty(v, k)
    }

    fn accept(&self, k: &AdtInst, v: &Ty) -> (b: bool) {
        adt_ty_in(self.tcx, *v, *k)
    }
}

// What is read from an operand has its type and size.
impl<'a> Accepts<OpTy, OpValue> for Fits<'a> {
    open spec fn accepts(&self, k: OpTy, v: OpValue) -> bool {
        v.ty == k.ty && v.size == k.size
    }

    fn accept(&self, k: &OpTy, v: &OpValue) -> (b: bool) {
        v.ty == k.ty && v.size == k.size
    }
}

impl TyCtxt {
    /// Whether types are listed after the types that they are made of.
    fn tys_valid(&self) -> (b: bool)
        ensures
            b == self.tys_wf(),
    {
        let mut i: usize = 0;
        while i < self.tys.len()
            invariant
                i <= self.tys.len(),
                forall|t: Ty|
                    t.0 < i ==> (#[trigger] self.kind_of(t)).below(self, t.0 as nat),
            decreases self.tys.len() - i,
        {
            assert(self.kind_of(Ty(i)) == self.tys@[i as int].kind);
            if !kind_in(self, &self.tys[i].kind, i) {
                assert(self.has_ty(Ty(i)));
                return false;
            }
            i = i + 1;
        }
        if self.u8_ty.0 >= self.tys.len() {
            return false;
        }
        match self.kind(self.u8_ty) {
            TyKind::Uint(_) => true,
            _ => false,
        }
    }

    /// Whether the hashes of crates are long enough.
    fn defs_valid(&self) -> (b: bool)
        ensures
            b == self.defs_wf(),
    {
        let mut i: usize = 0;
        while i < self.defs.len()
            invariant
                i <= self.defs.len(),
                forall|d: DefId|
                    d.0 < i ==> {
                        &&& (#[trigger] self.def_data(d)).crate_hash.is_ascii()
                        &&& self.def_data(d).crate_hash@.len() >= 8
                    },
            decreases self.defs.len() - i,
        {
            let hash = &self.defs[i].crate_hash;
            assert(self.def_data(DefId(i)).crate_hash == hash);
            if !hash.is_ascii() || hash.as_str().unicode_len() < 8 {
                assert(self.has_def(DefId(i)));
                return false;
            }
            i = i + 1;
        }
        true
    }

    /// Whether what lists of generic arguments mention is known.
    fn substs_valid(&self) -> (b: bool)
        ensures
            b == self.substs_wf(),
    {
        let mut i: usize = 0;
        while i < self.substs.len()
            invariant
                i <= self.substs.len(),
                forall|s: SubstsRef|
                    s.0 < i ==> {
                        &&& args_below((#[trigger] self.substs_data(s)).args@, self.tys@.len())
                        &&& self.has_substs(self.substs_data(s).erased)
                        &&& self.has_substs(self.substs_data(s).normalized)
                    },
            decreases self.substs.len() - i,
        {
            let data = &self.substs[i];
            assert(self.substs_data(SubstsRef(i)) == *data);
            if !args_in(&data.args, self.tys.len()) || data.erased.0 >= self.substs.len()
                || data.normalized.0 >= self.substs.len() {
                assert(self.has_substs(SubstsRef(i)));
                return false;
            }
            i = i + 1;
        }
        self.empty_substs.0 < self.substs.len() && self.args(self.empty_substs).len() == 0
    }

    /// Whether what data type definitions and allocations mention is known.
    fn adts_valid(&self) -> (b: bool)
        ensures
            b == self.adts_wf(),
    {
        let mut i: usize = 0;
        while i < self.adts.len()
            invariant
                i <= self.adts.len(),
                forall|a: AdtDef| a.0 < i ==> (#[trigger] self.adt_data(a)).within(self),
                forall|a: AdtDef, b: AdtDef|
                    a.0 < i && b.0 < i && (#[trigger] self.adt_data(a)).did == (
                    #[trigger] self.adt_data(b)).did ==> a == b,
            decreases self.adts.len() - i,
        {
            assert(self.adt_data(AdtDef(i)) == self.adts@[i as int]);
            if !adt_in(self, &self.adts[i]) {
                assert(self.has_adt(AdtDef(i)));
                return false;
            }
            let did = self.adts[i].did;
            let mut k: usize = 0;
            while k < i
                invariant
                    k <= i,
                    i < self.adts.len(),
                    did == self.adt_data(AdtDef(i)).did,
                    forall|a: AdtDef| a.0 < k ==> (#[trigger] self.adt_data(a)).did != did,
                decreases i - k,
            {
                assert(self.adt_data(AdtDef(k)) == self.adts@[k as int]);
                if self.adts[k].did == did {
                    assert(self.has_adt(AdtDef(k)) && self.has_adt(AdtDef(i)));
                    assert(AdtDef(k) != AdtDef(i));
                    return false;
                }
                k = k + 1;
            }
            i = i + 1;
        }
        let mut j: usize = 0;
        while j < self.allocs.len()
            invariant
                j <= self.allocs.len(),
                forall|a: AllocId|
                    a.0 < j ==> match #[trigger] self.alloc_of(a) {
                        Some(GlobalAlloc::Function(i)) => i.within(self),
                        Some(GlobalAlloc::Static(d)) => self.has_def(d),
                        _ => true,
                    },
            decreases self.allocs.len() - j,
        {
            assert(self.alloc_of(AllocId(j)) == self.allocs@[j as int]);
            let known = match &self.allocs[j] {
                Some(GlobalAlloc::Function(inst)) => instance_in(self, inst),
                Some(GlobalAlloc::Static(d)) => d.0 < self.defs.len(),
                _ => true,
            };
            if !known {
                assert(self.has_alloc(AllocId(j)));
                return false;
            }
            j = j + 1;
        }
        true
    }

    /// Whether what the answers to queries mention is known, and is what was asked for.
    fn answers_valid(&self) -> (b: bool)
        ensures
            b == self.answers_wf(),
    {
        let fits = Fits { tcx: self };
        self.resolutions.all(&fits) && self.clone_resolutions.all(&fits) && self.drop_glue.all(
            &fits,
        ) && self.field_tys.all(&fits) && self.array_tys.all(&fits) && self.adt_tys.all(&fits)
            && self.operands.all(&fits)
    }

    /// Whether the session is consistent.
    pub fn is_valid(&self) -> (b: bool)
        ensures
            b == self.wf(),
    {
        self.tys_valid() && self.defs_valid() && self.substs_valid() && self.adts_valid()
            && self.answers_valid()
    }
}

} // verus!
