//! What the compiler knows about a program, as plain data.
//!
//! Types, generic argument lists and definitions are interned: a value of [`Ty`], [`SubstsRef`],
//! [`DefId`], [`AdtDef`] or [`AllocId`] is an index into the matching list of [`TyCtxt`].  The
//! tables of [`TyCtxt`] hold the compiler's answers to the queries that rendering asks.

use crate::docs::const_ok;
use crate::docs::const_usize;
use crate::table::Key;
use crate::table::Table;
use serde_json::Value;
use vstd::pervasive::unreached;
use vstd::prelude::*;

verus! {

/// An interned type.
#[derive(Clone, Copy, PartialEq, Eq, Structural, Debug)]
pub struct Ty(pub usize);

/// A definition: a function, a data type, a field and the like.
#[derive(Clone, Copy, PartialEq, Eq, Structural, Debug)]
pub struct DefId(pub usize);

/// An interned list of generic arguments.
#[derive(Clone, Copy, PartialEq, Eq, Structural, Debug)]
pub struct SubstsRef(pub usize);

/// A data type definition.
#[derive(Clone, Copy, PartialEq, Eq, Structural, Debug)]
pub struct AdtDef(pub usize);

/// An allocation of the constant evaluator.
#[derive(Clone, Copy, PartialEq, Eq, Structural, Debug)]
pub struct AllocId(pub usize);

/// The contents of an allocation, interned: allocations with equal contents share them.
#[derive(Clone, Copy, PartialEq, Eq, Structural, Debug)]
pub struct ConstAllocation(pub usize);

/// A definition, with the const parameter that it is the argument of, if there is one.
#[derive(Clone, Copy, PartialEq, Eq, Structural, Debug)]
pub struct WithOptConstParam {
    pub did: DefId,
    pub const_param_did: Option<DefId>,
}

/// What code an instance stands for.
#[derive(Clone, Copy, PartialEq, Eq, Structural, Debug)]
pub enum InstanceDef {
    Item(WithOptConstParam),
    Intrinsic(DefId),
    VTableShim(DefId),
    ReifyShim(DefId),
    FnPtrShim(DefId, Ty),
    Virtual(DefId, usize),
    ClosureOnceShim { call_once: DefId, tracks_caller: bool },
    /// The glue for dropping a value; `None` in place of a type for glue that does nothing.
    DropGlue(DefId, Option<Ty>),
    CloneShim(DefId, Ty),
}

/// A monomorphic function.
#[derive(Clone, Copy, PartialEq, Eq, Structural, Debug)]
pub struct Instance {
    pub def: InstanceDef,
    pub substs: SubstsRef,
}

/// A data type with its generic arguments.
#[derive(Clone, Copy, PartialEq, Eq, Structural, Debug)]
pub struct AdtInst {
    pub adt: AdtDef,
    pub substs: SubstsRef,
}

/// A trait as the vtable of a trait object sees it: the trait, if there is a principal one, and
/// the trait object type that stands for it.
#[derive(Clone, Copy, PartialEq, Eq, Structural, Debug)]
pub struct TraitInst {
    pub trait_ref: Option<DefId>,
    pub dyn_ty: Option<Ty>,
}

/// An integer constant of the type system: so many bytes and their value.
#[derive(Clone, Copy, PartialEq, Eq, Structural, Debug)]
pub struct ScalarInt {
    pub size: u64,
    pub data: u128,
}

/// The value of a constant of the type system.
#[derive(Clone, Copy, PartialEq, Eq, Structural, Debug)]
pub enum ValTree {
    Leaf(ScalarInt),
    /// An aggregate, by its number.
    Branch(usize),
}

/// A constant of the type system that has not been evaluated.
#[derive(Clone, Copy, PartialEq, Eq, Structural, Debug)]
pub struct UnevaluatedConst {
    pub def: WithOptConstParam,
    pub substs: SubstsRef,
}

/// What a constant of the type system is.
#[derive(Clone, Copy, PartialEq, Eq, Structural, Debug)]
pub enum ConstKind {
    Value(ValTree),
    Unevaluated(UnevaluatedConst),
    /// A parameter, an inference variable or an error.
    Unknown,
}

/// A constant of the type system, such as the length of an array.
#[derive(Clone, Copy, PartialEq, Eq, Structural, Debug)]
pub struct Const {
    pub ty: Ty,
    pub kind: ConstKind,
}

/// A pointer of the constant evaluator.
#[derive(Clone, Copy, PartialEq, Eq, Structural, Debug)]
pub struct Pointer {
    pub alloc: AllocId,
    pub offset: u64,
}

/// A scalar of the constant evaluator.
#[derive(Clone, Copy, PartialEq, Eq, Structural, Debug)]
pub enum Scalar {
    Int(ScalarInt),
    /// A pointer and its size in bytes.
    Ptr(Pointer, u64),
}

/// What an operand holds that is not in memory.
#[derive(Clone, Copy, PartialEq, Eq, Structural, Debug)]
pub enum Immediate {
    Uninit,
    Scalar(Scalar),
    ScalarPair(Scalar, Scalar),
}

/// Where the constant evaluator finds a value.
#[derive(Clone, Copy, PartialEq, Eq, Structural, Debug)]
pub enum Operand {
    Immediate(Immediate),
    Indirect(Pointer),
}

/// An operand of the constant evaluator, with its type and the size of that.
#[derive(Clone, Copy, PartialEq, Eq, Structural, Debug)]
pub struct OpTy {
    pub op: Operand,
    pub ty: Ty,
    pub size: u64,
}

/// The value of an evaluated constant.  An allocation stands for memory that was set up for it.
#[derive(Clone, Copy, PartialEq, Eq, Structural, Debug)]
pub enum ConstValue {
    Scalar(Scalar),
    ZeroSized,
    Slice { data: AllocId, start: usize, end: usize },
    ByRef { alloc: AllocId, offset: u64 },
}

/// A constant of a function body that has not been evaluated.
#[derive(Clone, Copy, PartialEq, Eq, Structural, Debug)]
pub struct Unevaluated {
    pub def: WithOptConstParam,
    pub substs: SubstsRef,
    pub promoted: Option<u32>,
}

impl Key for Ty {
    fn same(&self, other: &Self) -> (b: bool) {
        *self == *other
    }
}

impl Key for DefId {
    fn same(&self, other: &Self) -> (b: bool) {
        *self == *other
    }
}

impl Key for SubstsRef {
    fn same(&self, other: &Self) -> (b: bool) {
        *self == *other
    }
}

impl Key for ConstAllocation {
    fn same(&self, other: &Self) -> (b: bool) {
        *self == *other
    }
}

impl Key for OpTy {
    fn same(&self, other: &Self) -> (b: bool) {
        *self == *other
    }
}

impl Key for Instance {
    fn same(&self, other: &Self) -> (b: bool) {
        *self == *other
    }
}

impl Key for AdtInst {
    fn same(&self, other: &Self) -> (b: bool) {
        *self == *other
    }
}

impl Key for TraitInst {
    fn same(&self, other: &Self) -> (b: bool) {
        *self == *other
    }
}

impl Key for Const {
    fn same(&self, other: &Self) -> (b: bool) {
        *self == *other
    }
}

impl Key for Unevaluated {
    fn same(&self, other: &Self) -> (b: bool) {
        *self == *other
    }
}

/// A signed integer kind: whether it is `isize`, and its JSON form.
pub struct IntTy {
    pub is_isize: bool,
    pub json: Value,
}

/// An unsigned integer kind: whether it is `usize`, and its JSON form.
pub struct UintTy {
    pub is_usize: bool,
    pub json: Value,
}

/// A floating point kind: its JSON form.
pub struct FloatTy {
    pub json: Value,
}

/// Whether a reference or a pointer can write, and the JSON form of that.
pub struct Mutability {
    pub is_mut: bool,
    pub json: Value,
}

/// A calling convention: its JSON form.
pub struct Abi {
    pub json: Value,
}

/// The kind of a constructor: its JSON form.
pub struct CtorKind {
    pub json: Value,
}

/// The number of a variant: its JSON form.
pub struct VariantIdx {
    pub json: Value,
}

/// A generic argument.
#[derive(Clone, Copy, PartialEq, Eq, Structural, Debug)]
pub enum GenericArg {
    Type(Ty),
    Lifetime,
    Const,
}

/// The right-hand side of a projection.
#[derive(Clone, Copy, PartialEq, Eq, Structural, Debug)]
pub enum Term {
    Ty(Ty),
    Const,
}

/// A function signature.
pub struct FnSig {
    pub inputs: Vec<Ty>,
    pub output: Ty,
    pub abi: Abi,
}

/// A function signature under a binder; `erased` is the signature with the regions that the
/// binder binds erased.
pub struct PolyFnSig {
    pub erased: FnSig,
}

/// A predicate of a trait object type, its bound regions erased.
pub enum ExistentialPredicate {
    Trait { def_id: DefId, substs: SubstsRef },
    Projection { def_id: DefId, substs: SubstsRef, term: Term },
    AutoTrait(DefId),
}

/// How a trait object is represented.
#[derive(Clone, Copy, PartialEq, Eq, Structural, Debug)]
pub enum DynKind {
    Dyn,
    DynStar,
}

/// An entry of a vtable as the compiler lays it out.
#[derive(Clone, Copy, PartialEq, Eq, Structural, Debug)]
pub enum VtblEntry {
    MetadataDropInPlace,
    MetadataSize,
    MetadataAlign,
    Vacant,
    Method(Instance),
    TraitVPtr,
}

/// The principal trait of a trait object type, with the object type itself as the self type.
pub struct Principal {
    pub trait_inst: TraitInst,
    pub vtable: Vec<VtblEntry>,
}

/// A trait object type.
pub struct DynTy {
    pub predicates: Vec<ExistentialPredicate>,
    pub trait_inst: TraitInst,
    pub principal: Option<Principal>,
}

/// Which kind of alias a type is.
#[derive(Clone, Copy, PartialEq, Eq, Structural, Debug)]
pub enum AliasKind {
    Projection,
    Opaque,
}

/// The shape of a type.
pub enum TyKind {
    Bool,
    Char,
    Int(IntTy),
    Uint(UintTy),
    Float(FloatTy),
    Adt(AdtDef, SubstsRef),
    Foreign,
    Str,
    Array(Ty, Const),
    Slice(Ty),
    RawPtr(Ty, Mutability),
    Ref(Ty, Mutability),
    FnDef(DefId, SubstsRef),
    FnPtr(PolyFnSig),
    Dynamic(DynTy, DynKind),
    /// A closure, with the types of the variables that it captures.
    Closure(Vec<Ty>),
    Generator,
    GeneratorWitness,
    Never,
    Tuple(Vec<Ty>),
    Alias(AliasKind),
    Param,
    Bound,
    Placeholder,
    Infer,
    Error,
}

/// A type: its shape, the ID under which it is interned, and its stable hash.
pub struct TyData {
    pub kind: TyKind,
    pub id: String,
    pub hash: u64,
}

/// A definition: the name and the hash of its crate, and its path within the crate.
pub struct DefData {
    pub crate_name: String,
    pub crate_hash: String,
    pub path: String,
}

/// A list of generic arguments.
pub struct SubstsData {
    pub args: Vec<GenericArg>,
    /// The stable hash of the list.
    pub hash: u64,
    /// The list with all regions erased.
    pub erased: SubstsRef,
    /// The list normalized, with all regions erased.
    pub normalized: SubstsRef,
    pub has_erasable_regions: bool,
    pub needs_subst: bool,
}

/// How the discriminant of a variant is given.
#[derive(Clone, Copy, PartialEq, Eq, Structural, Debug)]
pub enum VariantDiscr {
    /// By the distance from the last explicit one.
    Relative(u32),
    /// By a constant.
    Explicit(DefId),
}

/// A field of a variant.
#[derive(Clone, Copy, PartialEq, Eq, Structural, Debug)]
pub struct FieldDef {
    pub did: DefId,
}

/// A variant of a data type.
pub struct VariantDef {
    pub def_id: DefId,
    pub discr: VariantDiscr,
    pub fields: Vec<FieldDef>,
    pub ctor_kind: Option<CtorKind>,
}

/// The discriminant of a variant: which variant, and the value in decimal.
pub struct Discriminant {
    pub variant: usize,
    pub value: String,
}

/// Which kind of data type a definition is.
#[derive(Clone, Copy, PartialEq, Eq, Structural, Debug)]
pub enum AdtKind {
    Struct,
    Enum,
    Union,
}

/// A data type definition.
pub struct AdtData {
    pub did: DefId,
    pub kind: AdtKind,
    pub repr_transparent: bool,
    /// The integer type of the discriminant.
    pub discr_ty: Ty,
    pub variants: Vec<VariantDef>,
    pub discriminants: Vec<Discriminant>,
}

/// What an allocation is.
#[derive(Clone, Copy, PartialEq, Eq, Structural, Debug)]
pub enum GlobalAlloc {
    Function(Instance),
    VTable,
    Static(DefId),
    Memory(ConstAllocation),
}

/// What resolving a function came to.
#[derive(Clone, Copy, PartialEq, Eq, Structural, Debug)]
pub enum Resolution {
    Resolved(Instance),
    /// There is no instance to be found.
    Unresolved,
    /// Resolving ran into an error.
    Failed,
}

/// How the fields of a value are laid out, as far as a length can be told from it.
#[derive(Clone, Copy, PartialEq, Eq, Structural, Debug)]
pub enum FieldsShape {
    Array { count: u64 },
    Other,
}

/// A place in memory: where it is, what it holds, and the metadata of the pointer to it.
#[derive(Clone, Copy, PartialEq, Eq, Structural, Debug)]
pub struct MPlaceTy {
    pub ptr: Pointer,
    pub ty: Ty,
    pub is_unsized: bool,
    pub fields: FieldsShape,
    pub meta: Option<Scalar>,
}

/// What the constant evaluator reads from an operand, down to its last parts.
pub struct OpValue {
    pub ty: Ty,
    /// The size of the type in bytes.
    pub size: u64,
    pub read: OpRead,
    /// The operand as text, for debugging.
    pub debug: String,
}

/// What the constant evaluator reads from an operand.
pub enum OpRead {
    /// The bits of a truth value, a character or an integer.
    Bits(u128),
    /// A floating point number as text.
    Float(String),
    /// The fields of a struct or a tuple, the elements of an array, or the variables that a
    /// closure captures.
    Fields(Vec<OpValue>),
    /// The variant of an enum, and its fields.
    Variant { variant: u32, fields: Vec<OpValue> },
    /// The allocation that a function pointer points to; `None` for one without provenance.
    FnPtr(Option<AllocId>),
    /// A reference or a raw pointer without provenance: its address, and whether it has
    /// metadata.
    Addr { offset: u64, has_meta: bool },
    /// A reference or a raw pointer into an allocation.
    Place(Box<PlaceValue>),
    /// Nothing was read.
    Unread,
}

/// What the constant evaluator finds behind a reference or a raw pointer.
pub struct PlaceValue {
    pub place: MPlaceTy,
    pub contents: Contents,
}

/// What the constant evaluator reads from a place.
pub enum Contents {
    /// The bytes of a `str`.
    Bytes(Vec<u8>),
    /// The elements of a slice.
    Elements(Vec<OpValue>),
    /// The place as an operand.
    Whole(OpValue),
    /// Nothing was read: the place need not be rendered.
    Unread,
}

/// A compiler session.
pub struct TyCtxt {
    pub tys: Vec<TyData>,
    pub defs: Vec<DefData>,
    pub substs: Vec<SubstsData>,
    pub adts: Vec<AdtData>,
    /// What each allocation is; `None` for one that is not known any more.
    pub allocs: Vec<Option<GlobalAlloc>>,
    /// The list without generic arguments.
    pub empty_substs: SubstsRef,
    /// The type `u8`.
    pub u8_ty: Ty,
    /// The size of a pointer in bytes.
    pub pointer_size: u64,
    /// The instance of a function with given generic arguments.
    pub resolutions: Table<(DefId, SubstsRef), Resolution>,
    /// The instance of a method of `Clone` for a given type.
    pub clone_resolutions: Table<(DefId, Ty), Resolution>,
    /// The drop glue of a type.
    pub drop_glue: Table<Ty, Instance>,
    /// The type of a field with given generic arguments for its data type.
    pub field_tys: Table<(DefId, SubstsRef), Ty>,
    /// Whether a variant has values, with given generic arguments for its data type.
    pub inhabited: Table<(DefId, SubstsRef), bool>,
    /// A data type with its generic arguments, as a type.
    pub adt_tys: Table<AdtInst, Ty>,
    /// The size in bytes of a type that has a layout.
    pub sizes: Table<Ty, u64>,
    /// The type of the arrays with a given element type and length.
    pub array_tys: Table<(Ty, u64), Ty>,
    /// The ID of the static that holds an allocation which is seen through a pointer type.
    pub alloc_ids: Table<(ConstAllocation, Ty), String>,
    /// The value of an aggregate or scalar constant of the type system.
    pub const_vals: Table<Const, ConstValue>,
    /// The value of a constant that had to be evaluated; no entry where evaluation fails.
    pub const_evals: Table<Unevaluated, ConstValue>,
    /// What the constant evaluator reads from an operand.
    pub operands: Table<OpTy, OpValue>,
}

/// The types among some generic arguments come before `n`.
pub open spec fn args_below(args: Seq<GenericArg>, n: nat) -> bool {
    forall|i: int|
        0 <= i < args.len() ==> (#[trigger] args[i] matches GenericArg::Type(t) ==> t.0 < n)
}

/// The types of a list come before `n`.
pub open spec fn tys_below(tys: Seq<Ty>, n: nat) -> bool {
    forall|i: int| 0 <= i < tys.len() ==> (#[trigger] tys[i]).0 < n
}

impl FnSig {
    /// The types of the signature come before `n`.
    pub open spec fn below(&self, n: nat) -> bool {
        tys_below(self.inputs@, n) && self.output.0 < n
    }
}

impl ExistentialPredicate {
    /// The parts of the predicate are known, and its types come before `n`.
    pub open spec fn below(&self, tcx: &TyCtxt, n: nat) -> bool {
        match self {
            ExistentialPredicate::Trait { def_id, substs } => {
                &&& tcx.has_def(*def_id)
                &&& tcx.substs_below(*substs, n)
            },
            ExistentialPredicate::Projection { def_id, substs, term } => {
                &&& tcx.has_def(*def_id)
                &&& tcx.substs_below(*substs, n)
                &&& term matches Term::Ty(t) ==> t.0 < n
            },
            ExistentialPredicate::AutoTrait(d) => tcx.has_def(*d),
        }
    }
}

impl Instance {
    /// The parts of the instance are known.
    pub open spec fn within(&self, tcx: &TyCtxt) -> bool {
        &&& tcx.has_substs(self.substs)
        &&& match self.def {
            InstanceDef::Item(item) => tcx.has_def(item.did),
            InstanceDef::Intrinsic(d) => tcx.has_def(d),
            InstanceDef::VTableShim(d) => tcx.has_def(d),
            InstanceDef::ReifyShim(d) => tcx.has_def(d),
            InstanceDef::FnPtrShim(d, t) => tcx.has_def(d) && tcx.has_ty(t),
            InstanceDef::Virtual(d, _) => tcx.has_def(d),
            InstanceDef::ClosureOnceShim { call_once, .. } => tcx.has_def(call_once),
            InstanceDef::DropGlue(d, t) => tcx.has_def(d) && (t matches Some(t) ==> tcx.has_ty(t)),
            InstanceDef::CloneShim(d, t) => tcx.has_def(d) && tcx.has_ty(t),
        }
    }
}

impl AdtInst {
    /// The parts of the data type are known.
    pub open spec fn within(&self, tcx: &TyCtxt) -> bool {
        tcx.has_adt(self.adt) && tcx.has_substs(self.substs)
    }
}

impl TraitInst {
    /// The parts of the trait are known.
    pub open spec fn within(&self, tcx: &TyCtxt) -> bool {
        &&& self.trait_ref matches Some(d) ==> tcx.has_def(d)
        &&& self.dyn_ty matches Some(t) ==> tcx.has_ty(t)
    }
}

impl TyKind {
    /// The parts of the type are known, and the types among them come before `n`.
    pub open spec fn below(&self, tcx: &TyCtxt, n: nat) -> bool {
        match self {
            TyKind::Adt(adt, substs) => tcx.has_adt(*adt) && tcx.substs_below(*substs, n),
            TyKind::Array(t, c) => t.0 < n && c.ty.0 < n,
            TyKind::Slice(t) => t.0 < n,
            TyKind::RawPtr(t, _) => t.0 < n,
            TyKind::Ref(t, _) => t.0 < n,
            TyKind::FnDef(d, substs) => tcx.has_def(*d) && tcx.has_substs(*substs),
            TyKind::FnPtr(sig) => sig.erased.below(n),
            TyKind::Dynamic(dt, _) => {
                &&& dt.trait_inst.within(tcx)
                &&& dt.principal matches Some(p) ==> p.trait_inst.within(tcx)
                &&& forall|i: int|
                    0 <= i < dt.predicates.len() ==> (#[trigger] dt.predicates@[i]).below(tcx, n)
            },
            TyKind::Closure(tys) => tys_below(tys@, n),
            TyKind::Tuple(tys) => tys_below(tys@, n),
            _ => true,
        }
    }
}

impl VariantDef {
    /// The parts of the variant are known.
    pub open spec fn within(&self, tcx: &TyCtxt) -> bool {
        &&& tcx.has_def(self.def_id)
        &&& self.discr matches VariantDiscr::Explicit(d) ==> tcx.has_def(d)
        &&& forall|i: int|
            0 <= i < self.fields.len() ==> tcx.has_def((#[trigger] self.fields@[i]).did)
    }
}

impl AdtData {
    /// The parts of the definition are known.
    pub open spec fn within(&self, tcx: &TyCtxt) -> bool {
        &&& tcx.has_def(self.did)
        &&& tcx.has_ty(self.discr_ty)
        &&& forall|i: int|
            0 <= i < self.variants.len() ==> (#[trigger] self.variants@[i]).within(tcx)
        &&& forall|i: int|
            0 <= i < self.discriminants.len() ==> (#[trigger] self.discriminants@[i]).variant
                < self.variants.len()
    }
}

impl TyCtxt {
    pub open spec fn has_ty(&self, t: Ty) -> bool {
        t.0 < self.tys.len()
    }

    pub open spec fn has_def(&self, d: DefId) -> bool {
        d.0 < self.defs.len()
    }

    pub open spec fn has_substs(&self, s: SubstsRef) -> bool {
        s.0 < self.substs.len()
    }

    pub open spec fn has_adt(&self, a: AdtDef) -> bool {
        a.0 < self.adts.len()
    }

    pub open spec fn has_alloc(&self, a: AllocId) -> bool {
        a.0 < self.allocs.len()
    }

    /// The list is known, and its types come before `n`.
    pub open spec fn substs_below(&self, s: SubstsRef, n: nat) -> bool {
        self.has_substs(s) && args_below(self.args_of(s), n)
    }

    /// The data of a type.
    pub open spec fn ty_data(&self, t: Ty) -> TyData {
        self.tys@[t.0 as int]
    }

    /// The shape of a type.
    pub open spec fn kind_of(&self, t: Ty) -> TyKind {
        self.ty_data(t).kind
    }

    /// The data of a list of generic arguments.
    pub open spec fn substs_data(&self, s: SubstsRef) -> SubstsData {
        self.substs@[s.0 as int]
    }

    /// The generic arguments of a list.
    pub open spec fn args_of(&self, s: SubstsRef) -> Seq<GenericArg> {
        self.substs_data(s).args@
    }

    /// The data of a definition.
    pub open spec fn def_data(&self, d: DefId) -> DefData {
        self.defs@[d.0 as int]
    }

    /// The data of a data type definition.
    pub open spec fn adt_data(&self, a: AdtDef) -> AdtData {
        self.adts@[a.0 as int]
    }

    /// What an allocation is.
    pub open spec fn alloc_of(&self, a: AllocId) -> Option<GlobalAlloc> {
        self.allocs@[a.0 as int]
    }

    /// Types are listed after the types that they are made of.
    pub open spec fn tys_wf(&self) -> bool {
        &&& forall|t: Ty|
            self.has_ty(t) ==> (#[trigger] self.kind_of(t)).below(self, t.0 as nat)
        &&& self.has_ty(self.u8_ty)
        &&& self.kind_of(self.u8_ty) is Uint
    }

    /// The hash of a crate is given by at least eight ASCII characters.
    pub open spec fn defs_wf(&self) -> bool {
        forall|d: DefId|
            self.has_def(d) ==> {
                &&& (#[trigger] self.def_data(d)).crate_hash.is_ascii()
                &&& self.def_data(d).crate_hash@.len() >= 8
            }
    }

    /// What lists of generic arguments mention is known.
    pub open spec fn substs_wf(&self) -> bool {
        &&& forall|s: SubstsRef|
            self.has_substs(s) ==> {
                &&& args_below((#[trigger] self.substs_data(s)).args@, self.tys@.len())
                &&& self.has_substs(self.substs_data(s).erased)
                &&& self.has_substs(self.substs_data(s).normalized)
            }
        &&& self.has_substs(self.empty_substs)
        &&& self.args_of(self.empty_substs).len() == 0
    }

    /// What data type definitions and allocations mention is known, and no data type is defined
    /// twice.
    pub open spec fn adts_wf(&self) -> bool {
        &&& forall|a: AdtDef| self.has_adt(a) ==> (#[trigger] self.adt_data(a)).within(self)
        &&& forall|a: AdtDef, b: AdtDef|
            self.has_adt(a) && self.has_adt(b) && (#[trigger] self.adt_data(a)).did == (
            #[trigger] self.adt_data(b)).did ==> a == b
        &&& forall|a: AllocId|
            self.has_alloc(a) ==> match #[trigger] self.alloc_of(a) {
                Some(GlobalAlloc::Function(i)) => i.within(self),
                Some(GlobalAlloc::Static(d)) => self.has_def(d),
                _ => true,
            }
    }

    /// What functions resolve to is known.
    pub open spec fn resolutions_wf(&self) -> bool {
        forall|k: (DefId, SubstsRef)|
            #[trigger] self.resolutions@.dom().contains(k) ==> (self.resolutions@[k] matches
                Resolution::Resolved(i) ==> i.within(self))
    }

    /// What methods of `Clone` resolve to is known.
    pub open spec fn clone_resolutions_wf(&self) -> bool {
        forall|k: (DefId, Ty)|
            #[trigger] self.clone_resolutions@.dom().contains(k) ==> (
            self.clone_resolutions@[k] matches Resolution::Resolved(i) ==> i.within(self))
    }

    /// Drop glue is known.
    pub open spec fn drop_glue_wf(&self) -> bool {
        forall|t: Ty|
            #[trigger] self.drop_glue@.dom().contains(t) ==> self.drop_glue@[t].within(self)
    }

    /// The types of fields are known.
    pub open spec fn field_tys_wf(&self) -> bool {
        forall|k: (DefId, SubstsRef)|
            #[trigger] self.field_tys@.dom().contains(k) ==> self.has_ty(self.field_tys@[k])
    }

    /// `t` is the type of the arrays of `len` elements of type `elem`.
    pub open spec fn is_array_ty(&self, t: Ty, elem: Ty, len: u64) -> bool {
        &&& self.has_ty(t)
        &&& self.kind_of(t) matches TyKind::Array(e, c)
        &&& e == elem
        &&& const_ok(self, c)
        &&& const_usize(c) == len
    }

    /// `t` is the type that a data type is with its generic arguments.
    pub open spec fn is_adt_ty(&self, t: Ty, ai: AdtInst) -> bool {
        &&& self.has_ty(t)
        &&& self.kind_of(t) matches TyKind::Adt(adt, substs)
        &&& adt == ai.adt
        &&& substs == ai.substs
    }

    /// Array types are what they are listed for.
    pub open spec fn array_tys_wf(&self) -> bool {
        forall|k: (Ty, u64)|
            #[trigger] self.array_tys@.dom().contains(k) ==> self.is_array_ty(
                self.array_tys@[k],
                k.0,
                k.1,
            )
    }

    /// The types of data types are what they are listed for.
    pub open spec fn adt_tys_wf(&self) -> bool {
        forall|ai: AdtInst|
            #[trigger] self.adt_tys@.dom().contains(ai) ==> self.is_adt_ty(self.adt_tys@[ai], ai)
    }

    /// What is read from an operand has its type and size.
    pub open spec fn operands_wf(&self) -> bool {
        forall|k: OpTy|
            #[trigger] self.operands@.dom().contains(k) ==> {
                &&& self.operands@[k].ty == k.ty
                &&& self.operands@[k].size == k.size
            }
    }

    /// What the answers to queries mention is known, and is what was asked for.
    pub open spec fn answers_wf(&self) -> bool {
        &&& self.resolutions_wf()
        &&& self.clone_resolutions_wf()
        &&& self.drop_glue_wf()
        &&& self.field_tys_wf()
        &&& self.array_tys_wf()
        &&& self.adt_tys_wf()
        &&& self.operands_wf()
    }

    /// The session is consistent.
    pub open spec fn wf(&self) -> bool {
        &&& self.tys_wf()
        &&& self.defs_wf()
        &&& self.substs_wf()
        &&& self.adts_wf()
        &&& self.answers_wf()
    }

    /// The shape of a type.
    pub fn kind(&self, t: Ty) -> (k: &TyKind)
        requires
            self.has_ty(t),
        ensures
            *k == self.kind_of(t),
    {
        &self.tys[t.0].kind
    }

    /// The generic arguments of a list.
    pub fn args(&self, s: SubstsRef) -> (args: &Vec<GenericArg>)
        requires
            self.has_substs(s),
        ensures
            args@ == self.args_of(s),
    {
        &self.substs[s.0].args
    }

    /// The definition of the data type that `did` names.
    pub fn adt_def(&self, did: DefId) -> (a: AdtDef)
        requires
            self.wf(),
            exists|a: AdtDef| self.has_adt(a) && (#[trigger] self.adt_data(a)).did == did,
        ensures
            self.has_adt(a),
            self.adt_data(a).did == did,
    {
        let mut i: usize = 0;
        while i < self.adts.len()
            invariant
                i <= self.adts.len(),
                exists|a: AdtDef|
                    i <= a.0 < self.adts.len() && (#[trigger] self.adt_data(a)).did == did,
            decreases self.adts.len() - i,
        {
            assert(self.adt_data(AdtDef(i)) == self.adts@[i as int]);
            if self.adts[i].did == did {
                return AdtDef(i);
            }
            i = i + 1;
        }
        unreached()
    }
}

} // verus!
