//! JSON forms of types, instances, data types and generic parameters.

use mir_ty_json::adts::handle_adt_ag;
use mir_ty_json::adts::is_adt_ak;
use mir_ty_json::adts::AggregateKind;
use mir_ty_json::adts::ToJsonAg;
use mir_ty_json::consts::get_const_usize;
use mir_ty_json::ctxt::Abi;
use mir_ty_json::ctxt::AdtData;
use mir_ty_json::ctxt::AdtDef;
use mir_ty_json::ctxt::AdtInst;
use mir_ty_json::ctxt::AdtKind;
use mir_ty_json::ctxt::AliasKind;
use mir_ty_json::ctxt::Const;
use mir_ty_json::ctxt::ConstKind;
use mir_ty_json::ctxt::CtorKind;
use mir_ty_json::ctxt::DefData;
use mir_ty_json::ctxt::DefId;
use mir_ty_json::ctxt::Discriminant;
use mir_ty_json::ctxt::DynKind;
use mir_ty_json::ctxt::DynTy;
use mir_ty_json::ctxt::ExistentialPredicate;
use mir_ty_json::ctxt::FieldDef;
use mir_ty_json::ctxt::FloatTy;
use mir_ty_json::ctxt::FnSig;
use mir_ty_json::ctxt::GenericArg;
use mir_ty_json::ctxt::Instance;
use mir_ty_json::ctxt::InstanceDef;
use mir_ty_json::ctxt::IntTy;
use mir_ty_json::ctxt::Mutability;
use mir_ty_json::ctxt::PolyFnSig;
use mir_ty_json::ctxt::Principal;
use mir_ty_json::ctxt::Resolution;
use mir_ty_json::ctxt::ScalarInt;
use mir_ty_json::ctxt::SubstsData;
use mir_ty_json::ctxt::SubstsRef;
use mir_ty_json::ctxt::Term;
use mir_ty_json::ctxt::TraitInst;
use mir_ty_json::ctxt::Ty;
use mir_ty_json::ctxt::TyCtxt;
use mir_ty_json::ctxt::TyData;
use mir_ty_json::ctxt::TyKind;
use mir_ty_json::ctxt::UintTy;
use mir_ty_json::ctxt::ValTree;
use mir_ty_json::ctxt::VariantDef;
use mir_ty_json::ctxt::VariantDiscr;
use mir_ty_json::ctxt::VariantIdx;
use mir_ty_json::ctxt::VtblEntry;
use mir_ty_json::ctxt::WithOptConstParam;
use mir_ty_json::generics::AliasTy;
use mir_ty_json::generics::GenericParamDef;
use mir_ty_json::generics::GenericPredicates;
use mir_ty_json::generics::Generics;
use mir_ty_json::generics::Predicate;
use mir_ty_json::generics::TraitRef;
use mir_ty_json::names::adjust_method_index;
use mir_ty_json::names::adt_inst_id_str;
use mir_ty_json::names::def_id_str;
use mir_ty_json::names::ext_def_id_str;
use mir_ty_json::names::get_drop_fn_name;
use mir_ty_json::names::get_fn_def_name;
use mir_ty_json::names::inst_id_str;
use mir_ty_json::names::trait_inst_id_str;
use mir_ty_json::state::MirState;
use mir_ty_json::table::Table;
use mir_ty_json::to_json::BorrowKind;
use mir_ty_json::to_json::ParamTy;
use mir_ty_json::to_json::ToJson;
use serde_json::Value;

const BOOL: Ty = Ty(0);
const CHAR: Ty = Ty(1);
const I32: Ty = Ty(2);
const U8: Ty = Ty(3);
const USIZE: Ty = Ty(4);
const F64: Ty = Ty(5);
const STR: Ty = Ty(6);
const REF_STR: Ty = Ty(7);
const SLICE: Ty = Ty(8);
const PAIR: Ty = Ty(9);
const ARRAY: Ty = Ty(10);
const RAW: Ty = Ty(11);
const POINT: Ty = Ty(12);
const FN_DEF: Ty = Ty(13);
const FN_LOST: Ty = Ty(14);
const FN_PTR: Ty = Ty(15);
const CLOSURE: Ty = Ty(16);
const DYN: Ty = Ty(17);
const DYN_STAR: Ty = Ty(18);
const NEVER: Ty = Ty(19);
const OPAQUE: Ty = Ty(20);
const COLOR: Ty = Ty(21);

const MAIN: DefId = DefId(0);
const POINT_DEF: DefId = DefId(1);
const X_DEF: DefId = DefId(2);
const COLOR_DEF: DefId = DefId(3);
const RED_DEF: DefId = DefId(4);
const BLUE_DEF: DefId = DefId(5);
const BLUE_DISCR: DefId = DefId(6);
const DRAW: DefId = DefId(7);
const CLONE: DefId = DefId(8);

const NO_ARGS: SubstsRef = SubstsRef(0);
const I32_ARG: SubstsRef = SubstsRef(1);
const I32_LIFETIME: SubstsRef = SubstsRef(2);
const DYN_ARG: SubstsRef = SubstsRef(3);

const POINT_ADT: AdtDef = AdtDef(0);
const COLOR_ADT: AdtDef = AdtDef(1);

fn json(s: &str) -> Value {
    serde_json::from_str(s).unwrap()
}

fn def(path: &str) -> DefData {
    DefData {
        crate_name: "demo".to_string(),
        crate_hash: "0123456789abcdef".to_string(),
        path: path.to_string(),
    }
}

fn ty(id: &str, kind: TyKind) -> TyData {
    TyData { kind, id: id.to_string(), hash: 0xabc }
}

fn substs(args: Vec<GenericArg>, hash: u64, erased: usize) -> SubstsData {
    SubstsData {
        args,
        hash,
        erased: SubstsRef(erased),
        normalized: SubstsRef(erased),
        has_erasable_regions: false,
        needs_subst: false,
    }
}

fn item(did: DefId, substs: SubstsRef) -> Instance {
    Instance {
        def: InstanceDef::Item(WithOptConstParam { did, const_param_did: None }),
        substs,
    }
}

fn usize_const(n: u128) -> Const {
    Const { ty: USIZE, kind: ConstKind::Value(ValTree::Leaf(ScalarInt { size: 8, data: n })) }
}

fn session() -> TyCtxt {
    let draw_trait = TraitInst { trait_ref: Some(DRAW), dyn_ty: Some(I32) };
    let tys = vec![
        ty("ty::bool", TyKind::Bool),
        ty("ty::char", TyKind::Char),
        ty("ty::i32", TyKind::Int(IntTy { is_isize: false, json: json("\"I32\"") })),
        ty("ty::u8", TyKind::Uint(UintTy { is_usize: false, json: json("\"U8\"") })),
        ty("ty::usize", TyKind::Uint(UintTy { is_usize: true, json: json("\"Usize\"") })),
        ty("ty::f64", TyKind::Float(FloatTy { json: json("\"F64\"") })),
        ty("ty::str", TyKind::Str),
        ty("ty::ref_str", TyKind::Ref(STR, Mutability { is_mut: false, json: json("\"Not\"") })),
        ty("ty::slice", TyKind::Slice(U8)),
        ty("ty::pair", TyKind::Tuple(vec![I32, BOOL])),
        ty("ty::array", TyKind::Array(U8, usize_const(3))),
        ty("ty::raw", TyKind::RawPtr(U8, Mutability { is_mut: true, json: json("\"Mut\"") })),
        ty("ty::point", TyKind::Adt(POINT_ADT, I32_ARG)),
        ty("ty::fn_def", TyKind::FnDef(MAIN, NO_ARGS)),
        ty("ty::fn_lost", TyKind::FnDef(MAIN, I32_ARG)),
        ty(
            "ty::fn_ptr",
            TyKind::FnPtr(
                PolyFnSig {
                    erased: FnSig {
                        inputs: vec![I32, U8],
                        output: BOOL,
                        abi: Abi { json: json("\"Rust\"") },
                    },
                },
            ),
        ),
        ty("ty::closure", TyKind::Closure(vec![CHAR])),
        ty(
            "ty::dyn",
            TyKind::Dynamic(
                DynTy {
                    predicates: vec![
                        ExistentialPredicate::Trait { def_id: DRAW, substs: I32_ARG },
                        ExistentialPredicate::Projection {
                            def_id: DRAW,
                            substs: NO_ARGS,
                            term: Term::Ty(BOOL),
                        },
                        ExistentialPredicate::Projection {
                            def_id: DRAW,
                            substs: NO_ARGS,
                            term: Term::Const,
                        },
                        ExistentialPredicate::AutoTrait(MAIN),
                    ],
                    trait_inst: draw_trait,
                    principal: Some(
                        Principal {
                            trait_inst: draw_trait,
                            vtable: vec![
                                VtblEntry::MetadataDropInPlace,
                                VtblEntry::MetadataSize,
                                VtblEntry::MetadataAlign,
                                VtblEntry::Method(item(MAIN, NO_ARGS)),
                                VtblEntry::Vacant,
                                VtblEntry::Method(item(DRAW, NO_ARGS)),
                            ],
                        },
                    ),
                },
                DynKind::Dyn,
            ),
        ),
        ty(
            "ty::dyn_star",
            TyKind::Dynamic(
                DynTy {
                    predicates: vec![],
                    trait_inst: TraitInst { trait_ref: None, dyn_ty: None },
                    principal: None,
                },
                DynKind::DynStar,
            ),
        ),
        ty("ty::never", TyKind::Never),
        ty("ty::opaque", TyKind::Alias(AliasKind::Opaque)),
        ty("ty::color", TyKind::Adt(COLOR_ADT, NO_ARGS)),
    ];
    let adts = vec![
        AdtData {
            did: POINT_DEF,
            kind: AdtKind::Struct,
            repr_transparent: true,
            discr_ty: I32,
            variants: vec![VariantDef {
                def_id: POINT_DEF,
                discr: VariantDiscr::Relative(0),
                fields: vec![FieldDef { did: X_DEF }],
                ctor_kind: None,
            }],
            discriminants: vec![],
        },
        AdtData {
            did: COLOR_DEF,
            kind: AdtKind::Enum,
            repr_transparent: false,
            discr_ty: U8,
            variants: vec![
                VariantDef {
                    def_id: RED_DEF,
                    discr: VariantDiscr::Relative(0),
                    fields: vec![],
                    ctor_kind: Some(CtorKind { json: json("\"Const\"") }),
                },
                VariantDef {
                    def_id: BLUE_DEF,
                    discr: VariantDiscr::Explicit(BLUE_DISCR),
                    fields: vec![],
                    ctor_kind: Some(CtorKind { json: json("\"Const\"") }),
                },
            ],
            discriminants: vec![
                Discriminant { variant: 0, value: "0".to_string() },
                Discriminant { variant: 1, value: "7".to_string() },
            ],
        },
    ];
    let mut tcx = TyCtxt {
        tys,
        defs: vec![
            def("::main[0]"),
            def("::Point[0]"),
            def("::Point[0]::x[0]"),
            def("::Color[0]"),
            def("::Color[0]::Red[0]"),
            def("::Color[0]::Blue[0]"),
            def("::Color[0]::Blue[0]::{const}[0]"),
            def("::Draw[0]"),
            def("::Clone[0]::clone[0]"),
        ],
        substs: vec![
            substs(vec![], 1, 0),
            substs(vec![GenericArg::Type(I32)], 0xfeed, 1),
            substs(vec![GenericArg::Type(I32), GenericArg::Lifetime, GenericArg::Const], 3, 1),
            substs(vec![GenericArg::Lifetime, GenericArg::Type(DYN)], 4, 3),
        ],
        adts,
        allocs: vec![],
        empty_substs: NO_ARGS,
        u8_ty: U8,
        pointer_size: 8,
        resolutions: Table::new(),
        clone_resolutions: Table::new(),
        drop_glue: Table::new(),
        field_tys: Table::new(),
        inhabited: Table::new(),
        adt_tys: Table::new(),
        sizes: Table::new(),
        array_tys: Table::new(),
        alloc_ids: Table::new(),
        const_vals: Table::new(),
        const_evals: Table::new(),
        operands: Table::new(),
    };
    tcx.resolutions.insert((MAIN, NO_ARGS), Resolution::Resolved(item(MAIN, NO_ARGS)));
    tcx.resolutions.insert((MAIN, I32_ARG), Resolution::Failed);
    tcx.resolutions.insert((DRAW, NO_ARGS), Resolution::Unresolved);
    tcx.resolutions.insert(
        (BLUE_DISCR, NO_ARGS),
        Resolution::Resolved(item(BLUE_DISCR, NO_ARGS)),
    );
    tcx.clone_resolutions.insert((CLONE, I32), Resolution::Resolved(item(CLONE, I32_ARG)));
    tcx.clone_resolutions.insert((CLONE, BOOL), Resolution::Unresolved);
    tcx.drop_glue.insert(
        I32,
        Instance { def: InstanceDef::DropGlue(MAIN, None), substs: I32_ARG },
    );
    tcx.drop_glue.insert(
        POINT,
        Instance { def: InstanceDef::DropGlue(MAIN, Some(POINT)), substs: I32_ARG },
    );
    tcx.field_tys.insert((X_DEF, I32_ARG), I32);
    tcx.inhabited.insert((POINT_DEF, I32_ARG), true);
    tcx.inhabited.insert((RED_DEF, NO_ARGS), true);
    tcx.inhabited.insert((BLUE_DEF, NO_ARGS), false);
    tcx.adt_tys.insert(AdtInst { adt: POINT_ADT, substs: I32_ARG }, POINT);
    tcx.adt_tys.insert(AdtInst { adt: COLOR_ADT, substs: NO_ARGS }, COLOR);
    tcx.sizes.insert(POINT, 4);
    tcx.sizes.insert(COLOR, 1);
    tcx
}

/// The JSON form that the table of types holds for a type.
fn interned(t: Ty) -> Value {
    let tcx = session();
    let mut mir = MirState::new(&tcx);
    t.to_json(&mut mir);
    mir.tys.get(&t).unwrap().json.clone()
}

#[test]
fn names_of_definitions() {
    let tcx = session();
    assert_eq!(def_id_str(&tcx, MAIN), "demo/01234567::main[0]");
    assert_eq!(
        ext_def_id_str(&tcx, MAIN, "_x", 0x1f),
        "demo/01234567::main[0]::_x000000000000001f[0]"
    );
    assert_eq!(
        ext_def_id_str(&tcx, MAIN, "_x", u64::MAX),
        "demo/01234567::main[0]::_xffffffffffffffff[0]"
    );
    assert_ne!(ext_def_id_str(&tcx, MAIN, "_x", 1), ext_def_id_str(&tcx, MAIN, "_x", 2));
}

#[test]
fn names_of_data_types_ignore_regions() {
    let tcx = session();
    let a = adt_inst_id_str(&tcx, AdtInst { adt: POINT_ADT, substs: I32_ARG });
    let b = adt_inst_id_str(&tcx, AdtInst { adt: POINT_ADT, substs: I32_LIFETIME });
    assert_eq!(a, "demo/01234567::Point[0]::_adt000000000000feed[0]");
    assert_eq!(a, b);
    assert_ne!(a, def_id_str(&tcx, POINT_DEF));
}

#[test]
fn names_of_instances() {
    let tcx = session();
    let name = |def: InstanceDef, substs: SubstsRef| inst_id_str(&tcx, Instance { def, substs });
    let plain = InstanceDef::Item(WithOptConstParam { did: MAIN, const_param_did: None });
    assert_eq!(name(plain, NO_ARGS), "demo/01234567::main[0]");
    assert_eq!(name(plain, I32_ARG), "demo/01234567::main[0]::_inst000000000000feed[0]");
    assert_eq!(name(InstanceDef::Intrinsic(MAIN), NO_ARGS), "demo/01234567::main[0]");
    assert_eq!(
        name(InstanceDef::VTableShim(MAIN), NO_ARGS),
        "demo/01234567::main[0]::_vtshim0000000000000001[0]"
    );
    assert_eq!(
        name(InstanceDef::ReifyShim(MAIN), NO_ARGS),
        "demo/01234567::main[0]::_reify0000000000000001[0]"
    );
    assert_eq!(
        name(InstanceDef::Virtual(MAIN, 12), NO_ARGS),
        "demo/01234567::main[0]::_virt12_0000000000000001[0]"
    );
    assert_eq!(
        name(InstanceDef::DropGlue(MAIN, None), NO_ARGS),
        "demo/01234567::main[0]::_drop0000000000000001[0]"
    );
    let call_once = "demo/01234567::main[0]::_callonce0000000000000001[0]";
    assert_eq!(name(InstanceDef::FnPtrShim(MAIN, I32), NO_ARGS), call_once);
    assert_eq!(
        name(InstanceDef::ClosureOnceShim { call_once: MAIN, tracks_caller: false }, NO_ARGS),
        call_once
    );
    assert_eq!(
        name(InstanceDef::CloneShim(MAIN, I32), NO_ARGS),
        "demo/01234567::main[0]::_shim0000000000000001[0]"
    );
}

#[test]
fn names_of_traits() {
    let tcx = session();
    assert_eq!(
        trait_inst_id_str(&tcx, &TraitInst { trait_ref: None, dyn_ty: None }),
        "trait/0::empty[0]"
    );
    assert_eq!(
        trait_inst_id_str(&tcx, &TraitInst { trait_ref: Some(DRAW), dyn_ty: Some(I32) }),
        "demo/01234567::Draw[0]::_trait0000000000000abc[0]"
    );
}

#[test]
fn function_names_mark_functions_as_used() {
    let tcx = session();
    let mut mir = MirState::new(&tcx);
    assert_eq!(get_fn_def_name(&mut mir, MAIN, NO_ARGS), "demo/01234567::main[0]");
    assert_eq!(mir.used.instances.as_slice(), &[item(MAIN, NO_ARGS)]);
    // One that does not resolve goes by the name of its definition.
    assert_eq!(get_fn_def_name(&mut mir, MAIN, I32_ARG), "demo/01234567::main[0]");
    assert_eq!(get_fn_def_name(&mut mir, DRAW, NO_ARGS), "demo/01234567::Draw[0]");
    assert_eq!(mir.used.instances.as_slice().len(), 1);
}

#[test]
fn drop_glue_that_does_nothing_has_no_name() {
    let tcx = session();
    let mut mir = MirState::new(&tcx);
    assert_eq!(get_drop_fn_name(&mut mir, I32), None);
    assert_eq!(mir.used.instances.as_slice().len(), 0);
    assert_eq!(
        get_drop_fn_name(&mut mir, POINT).unwrap(),
        "demo/01234567::main[0]::_drop000000000000feed[0]"
    );
    assert_eq!(mir.used.instances.as_slice().len(), 1);
}

#[test]
fn method_indices_skip_what_is_no_method() {
    let m = VtblEntry::Method(item(MAIN, NO_ARGS));
    let vtable = vec![VtblEntry::MetadataSize, m, VtblEntry::Vacant, m, VtblEntry::TraitVPtr, m];
    assert_eq!(adjust_method_index(&vtable, 1), 0);
    assert_eq!(adjust_method_index(&vtable, 3), 1);
    assert_eq!(adjust_method_index(&vtable, 5), 2);
    assert_eq!(adjust_method_index(&vtable, 100), 3);
    assert_eq!(adjust_method_index(&vec![], 4), 0);
}

#[test]
fn shapes_of_types() {
    assert_eq!(interned(BOOL), json(r#"{"kind": "Bool"}"#));
    assert_eq!(interned(CHAR), json(r#"{"kind": "Char"}"#));
    assert_eq!(interned(I32), json(r#"{"kind": "Int", "intkind": "I32"}"#));
    assert_eq!(interned(U8), json(r#"{"kind": "Uint", "uintkind": "U8"}"#));
    assert_eq!(interned(F64), json(r#"{"kind": "Float", "size": "F64"}"#));
    assert_eq!(interned(STR), json(r#"{"kind": "Str"}"#));
    assert_eq!(
        interned(REF_STR),
        json(r#"{"kind": "Ref", "ty": "ty::str", "mutability": "Not"}"#)
    );
    assert_eq!(interned(RAW), json(r#"{"kind": "RawPtr", "ty": "ty::u8", "mutability": "Mut"}"#));
    assert_eq!(interned(SLICE), json(r#"{"kind": "Slice", "ty": "ty::u8"}"#));
    assert_eq!(interned(PAIR), json(r#"{"kind": "Tuple", "tys": ["ty::i32", "ty::bool"]}"#));
    assert_eq!(
        interned(ARRAY),
        json(
            r#"{"kind": "Array", "ty": "ty::u8", "size": {
                "ty": "ty::usize",
                "rendered": {"kind": "usize", "size": 8, "val": "3"}}}"#
        )
    );
    assert_eq!(
        interned(POINT),
        json(
            r#"{"kind": "Adt", "name": "demo/01234567::Point[0]::_adt000000000000feed[0]",
                "orig_def_id": "demo/01234567::Point[0]", "substs": ["ty::i32"]}"#
        )
    );
    assert_eq!(
        interned(FN_DEF),
        json(r#"{"kind": "FnDef", "defid": "demo/01234567::main[0]"}"#)
    );
    assert_eq!(
        interned(FN_LOST),
        json(r#"{"kind": "FnDef", "defid": "demo/01234567::main[0]"}"#)
    );
    assert_eq!(
        interned(FN_PTR),
        json(
            r#"{"kind": "FnPtr", "signature": {
                "inputs": ["ty::i32", "ty::u8"], "output": "ty::bool", "abi": "Rust"}}"#
        )
    );
    assert_eq!(interned(CLOSURE), json(r#"{"kind": "Closure", "upvar_tys": ["ty::char"]}"#));
    assert_eq!(interned(DYN_STAR), json(r#"{"kind": "DynamicStar"}"#));
    assert_eq!(interned(NEVER), json(r#"{"kind": "Never"}"#));
    assert_eq!(interned(OPAQUE), json(r#"{"kind": "Alias"}"#));
}

#[test]
fn shapes_of_types_without_parts() {
    let kinds = vec![
        (TyKind::Error, "Error"),
        (TyKind::Infer, "Infer"),
        (TyKind::Bound, "Bound"),
        (TyKind::Placeholder, "Placeholder"),
        (TyKind::Foreign, "Foreign"),
        (TyKind::Generator, "Generator"),
        (TyKind::GeneratorWitness, "GeneratorWitness"),
    ];
    for (kind, name) in kinds {
        let mut tcx = session();
        tcx.tys.push(ty("ty::last", kind));
        let last = Ty(tcx.tys.len() - 1);
        let mut mir = MirState::new(&tcx);
        assert_eq!(last.to_json(&mut mir), json("\"ty::last\""));
        let expected = json(&format!("{{\"kind\": \"{}\"}}", name));
        assert_eq!(mir.tys.get(&last).unwrap().json, expected);
    }
}

#[test]
fn trait_objects() {
    assert_eq!(
        interned(DYN),
        json(
            r#"{"kind": "Dynamic",
                "trait_id": "demo/01234567::Draw[0]::_trait0000000000000abc[0]",
                "predicates": [
                    {"kind": "Trait", "trait": "demo/01234567::Draw[0]", "substs": ["ty::i32"]},
                    {"kind": "Projection", "proj": "demo/01234567::Draw[0]", "substs": [],
                     "rhs_ty": "ty::bool"},
                    {"kind": "Projection_Const"},
                    {"kind": "AutoTrait", "trait": "demo/01234567::main[0]"}]}"#
        )
    );
    let tcx = session();
    let mut mir = MirState::new(&tcx);
    DYN.to_json(&mut mir);
    let draw = TraitInst { trait_ref: Some(DRAW), dyn_ty: Some(I32) };
    assert_eq!(mir.used.traits.as_slice(), &[draw]);
}

#[test]
fn showing_a_type_puts_its_parts_into_the_table() {
    let tcx = session();
    let mut mir = MirState::new(&tcx);
    assert_eq!(PAIR.to_json(&mut mir), json("\"ty::pair\""));
    assert!(mir.tys.get(&I32).is_some());
    assert!(mir.tys.get(&BOOL).is_some());
    assert!(mir.tys.get(&CHAR).is_none());
    // A type comes after its parts.
    let order: Vec<Ty> = mir.tys.rows().iter().map(|row| row.0).collect();
    assert_eq!(order, vec![I32, BOOL, PAIR]);
}

#[test]
fn showing_a_type_twice_changes_nothing_more() {
    let tcx = session();
    let mut mir = MirState::new(&tcx);
    let first = POINT.to_json(&mut mir);
    let rows = mir.tys.rows().len();
    let used = mir.used.types.as_slice().len();
    assert_eq!(used, 1);
    assert_eq!(POINT.to_json(&mut mir), first);
    assert_eq!(mir.tys.rows().len(), rows);
    assert_eq!(mir.used.types.as_slice().len(), used);
}

#[test]
fn a_type_stays_shown_whatever_comes_after() {
    let tcx = session();
    let mut mir = MirState::new(&tcx);
    let first = POINT.to_json(&mut mir);
    let used = mir.used.types.as_slice().len();
    vec![GenericArg::Type(CHAR), GenericArg::Const].to_json(&mut mir);
    AdtInst { adt: COLOR_ADT, substs: NO_ARGS }.to_json(&mut mir);
    item(MAIN, I32_ARG).to_json(&mut mir);
    FieldDef { did: X_DEF }.tojson(&mut mir, I32_ARG);
    let rows = mir.tys.rows().len();
    assert_eq!(POINT.to_json(&mut mir), first);
    assert_eq!(mir.tys.rows().len(), rows);
    assert_eq!(mir.used.types.as_slice().len(), used);
}

#[test]
fn order_of_showing_does_not_matter() {
    let tcx = session();
    let mut a = MirState::new(&tcx);
    PAIR.to_json(&mut a);
    POINT.to_json(&mut a);
    let mut b = MirState::new(&tcx);
    POINT.to_json(&mut b);
    PAIR.to_json(&mut b);
    for i in 0..tcx.tys.len() {
        assert_eq!(a.tys.get(&Ty(i)).is_some(), b.tys.get(&Ty(i)).is_some());
    }
    assert_eq!(a.used.types.as_slice(), b.used.types.as_slice());
}

#[test]
fn generic_arguments() {
    let tcx = session();
    let mut mir = MirState::new(&tcx);
    assert_eq!(
        I32_LIFETIME.to_json(&mut mir),
        json(r#"["ty::i32", "nonty::Lifetime", "nonty::Const"]"#)
    );
    assert_eq!(GenericArg::Lifetime.to_json(&mut mir), json("\"nonty::Lifetime\""));
    assert_eq!(GenericArg::Type(CHAR).to_json(&mut mir), json("\"ty::char\""));
    assert_eq!(
        vec![GenericArg::Const, GenericArg::Type(U8)].to_json(&mut mir),
        json(r#"["nonty::Const", "ty::u8"]"#)
    );
    assert!(mir.tys.get(&CHAR).is_some());
}

#[test]
fn simple_forms() {
    let tcx = session();
    let mut mir = MirState::new(&tcx);
    assert_eq!(BorrowKind::Shared.to_json(&mut mir), json("\"Shared\""));
    assert_eq!(BorrowKind::Shallow.to_json(&mut mir), json("\"Shallow\""));
    assert_eq!(BorrowKind::Unique.to_json(&mut mir), json("\"Unique\""));
    let borrow = BorrowKind::Mut { allow_two_phase_borrow: true };
    assert_eq!(borrow.to_json(&mut mir), json("\"Mut\""));
    assert_eq!(ParamTy { index: 5 }.to_json(&mut mir), json("5"));
    assert_eq!(MAIN.to_json(&mut mir), json("\"demo/01234567::main[0]\""));
    assert_eq!(
        VariantDiscr::Relative(2).to_json(&mut mir),
        json(r#"{"kind": "Relative", "index": 2}"#)
    );
    assert_eq!(
        VariantDiscr::Explicit(BLUE_DISCR).to_json(&mut mir),
        json(
            r#"{"kind": "Explicit", "name": "demo/01234567::Color[0]::Blue[0]::{const}[0]"}"#
        )
    );
    assert_eq!(mir.used.instances.as_slice(), &[item(BLUE_DISCR, NO_ARGS)]);
}

#[test]
fn constants_of_the_type_system() {
    let tcx = session();
    let mut mir = MirState::new(&tcx);
    assert_eq!(get_const_usize(&tcx, usize_const(41)), 41);
    assert_eq!(
        usize_const(41).to_json(&mut mir),
        json(r#"{"ty": "ty::usize", "rendered": {"kind": "usize", "size": 8, "val": "41"}}"#)
    );
}

#[test]
fn instances_with_generic_arguments() {
    let tcx = session();
    let mut mir = MirState::new(&tcx);
    let main = "demo/01234567::main[0]";
    for (def, kind) in vec![
        (InstanceDef::Item(WithOptConstParam { did: MAIN, const_param_did: None }), "Item"),
        (InstanceDef::Intrinsic(MAIN), "Intrinsic"),
        (InstanceDef::VTableShim(MAIN), "VTableShim"),
        (InstanceDef::ReifyShim(MAIN), "ReifyShim"),
    ] {
        // The normalized arguments are shown.
        assert_eq!(
            Instance { def, substs: I32_LIFETIME }.to_json(&mut mir),
            json(&format!(
                "{{\"kind\": \"{}\", \"def_id\": \"{}\", \"substs\": [\"ty::i32\"]}}",
                kind, main
            ))
        );
    }
    let shim = InstanceDef::ClosureOnceShim { call_once: MAIN, tracks_caller: true };
    assert_eq!(
        Instance { def: shim, substs: NO_ARGS }.to_json(&mut mir),
        json(
            r#"{"kind": "ClosureOnceShim", "call_once": "demo/01234567::main[0]", "substs": []}"#
        )
    );
}

#[test]
fn instances_with_a_type() {
    let tcx = session();
    let mut mir = MirState::new(&tcx);
    assert_eq!(
        Instance { def: InstanceDef::FnPtrShim(MAIN, FN_PTR), substs: NO_ARGS }.to_json(&mut mir),
        json(
            r#"{"kind": "FnPtrShim", "def_id": "demo/01234567::main[0]", "substs": [],
                "ty": "ty::fn_ptr"}"#
        )
    );
    assert_eq!(
        Instance { def: InstanceDef::DropGlue(MAIN, Some(POINT)), substs: NO_ARGS }
            .to_json(&mut mir),
        json(
            r#"{"kind": "DropGlue", "def_id": "demo/01234567::main[0]", "substs": [],
                "ty": "ty::point"}"#
        )
    );
    assert_eq!(
        Instance { def: InstanceDef::DropGlue(MAIN, None), substs: NO_ARGS }.to_json(&mut mir),
        json(
            r#"{"kind": "DropGlue", "def_id": "demo/01234567::main[0]", "substs": [],
                "ty": null}"#
        )
    );
    assert!(mir.tys.get(&FN_PTR).is_some());
    assert!(mir.tys.get(&POINT).is_some());
}

#[test]
fn virtual_calls() {
    let tcx = session();
    let mut mir = MirState::new(&tcx);
    let virt = |idx: usize| Instance { def: InstanceDef::Virtual(DRAW, idx), substs: DYN_ARG };
    assert_eq!(
        virt(5).to_json(&mut mir),
        json(
            r#"{"kind": "Virtual",
                "trait_id": "demo/01234567::Draw[0]::_trait0000000000000abc[0]",
                "item_id": "demo/01234567::Draw[0]",
                "index": 1}"#
        )
    );
    assert_eq!(virt(3).to_json(&mut mir)["index"], json("0"));
    let draw = TraitInst { trait_ref: Some(DRAW), dyn_ty: Some(I32) };
    assert_eq!(mir.used.traits.as_slice(), &[draw]);
    // Only the trait is marked: the object type is not shown.
    assert!(mir.tys.get(&DYN).is_none());
}

#[test]
fn clone_shims() {
    let tcx = session();
    let mut mir = MirState::new(&tcx);
    let shim = |t: Ty| Instance { def: InstanceDef::CloneShim(CLONE, t), substs: NO_ARGS };
    assert_eq!(
        shim(PAIR).to_json(&mut mir),
        json(
            r#"{"kind": "CloneShim", "def_id": "demo/01234567::Clone[0]::clone[0]",
                "substs": [], "ty": "ty::pair",
                "callees": [
                    "demo/01234567::Clone[0]::clone[0]::_inst000000000000feed[0]",
                    null]}"#
        )
    );
    assert_eq!(mir.used.instances.as_slice(), &[item(CLONE, I32_ARG)]);
    // There are no parts to clone one by one.
    assert_eq!(shim(CHAR).to_json(&mut mir)["callees"], json("[]"));
}

#[test]
fn structs() {
    let tcx = session();
    let mut mir = MirState::new(&tcx);
    let point = AdtInst { adt: POINT_ADT, substs: I32_ARG };
    assert_eq!(
        point.to_json(&mut mir),
        json(
            r#"{"name": "demo/01234567::Point[0]::_adt000000000000feed[0]",
                "kind": {"kind": "Struct"},
                "variants": [{
                    "name": "demo/01234567::Point[0]",
                    "discr": {"kind": "Relative", "index": 0},
                    "fields": [{"name": "demo/01234567::Point[0]::x[0]", "ty": "ty::i32"}],
                    "ctor_kind": null,
                    "discr_value": null,
                    "inhabited": true}],
                "size": 4,
                "repr_transparent": true,
                "orig_def_id": "demo/01234567::Point[0]",
                "orig_substs": ["ty::i32"]}"#
        )
    );
    // Showing a definition does not mark it as used.
    assert_eq!(mir.used.types.as_slice().len(), 0);
}

#[test]
fn enums() {
    let tcx = session();
    let mut mir = MirState::new(&tcx);
    let color = AdtInst { adt: COLOR_ADT, substs: NO_ARGS };
    assert_eq!(
        color.to_json(&mut mir),
        json(
            r#"{"name": "demo/01234567::Color[0]::_adt0000000000000001[0]",
                "kind": {"kind": "Enum", "discr_ty": "ty::u8"},
                "variants": [
                    {"name": "demo/01234567::Color[0]::Red[0]",
                     "discr": {"kind": "Relative", "index": 0},
                     "fields": [], "ctor_kind": "Const", "discr_value": "0",
                     "inhabited": true},
                    {"name": "demo/01234567::Color[0]::Blue[0]",
                     "discr": {"kind": "Explicit",
                               "name": "demo/01234567::Color[0]::Blue[0]::{const}[0]"},
                     "fields": [], "ctor_kind": "Const", "discr_value": "7",
                     "inhabited": false}],
                "size": 1,
                "repr_transparent": false,
                "orig_def_id": "demo/01234567::Color[0]",
                "orig_substs": []}"#
        )
    );
    assert!(mir.tys.get(&U8).is_some());
}

#[test]
fn unions() {
    let mut tcx = session();
    tcx.adts[0].kind = AdtKind::Union;
    let mut mir = MirState::new(&tcx);
    let point = AdtInst { adt: POINT_ADT, substs: I32_ARG };
    assert_eq!(point.to_json(&mut mir)["kind"], json(r#"{"kind": "Union"}"#));
}

#[test]
fn fields() {
    let tcx = session();
    let mut mir = MirState::new(&tcx);
    let field = FieldDef { did: X_DEF };
    let one = json(r#"{"name": "demo/01234567::Point[0]::x[0]", "ty": "ty::i32"}"#);
    assert_eq!(field.tojson(&mut mir, I32_ARG), one);
    let two = json(&format!("[{}, {}]", one, one));
    assert_eq!(vec![field, field].tojson(&mut mir, I32_ARG), two);
    assert_eq!([field, field][..].tojson(&mut mir, I32_ARG), two);
}

#[test]
fn aggregates() {
    let tcx = session();
    let mut mir = MirState::new(&tcx);
    let ak = AggregateKind::Adt(COLOR_DEF, VariantIdx { json: json("1") }, NO_ARGS);
    assert!(is_adt_ak(&ak));
    assert!(!is_adt_ak(&AggregateKind::Tuple));
    let ops = vec![CHAR, BOOL];
    let shown = handle_adt_ag(&mut mir, &ak, &ops);
    let color = AdtInst { adt: COLOR_ADT, substs: NO_ARGS };
    assert_eq!(shown["adt"], color.to_json(&mut mir));
    assert_eq!(shown["variant"], json("1"));
    assert_eq!(shown["ops"], json(r#"["ty::char", "ty::bool"]"#));
}

#[test]
fn predicates() {
    let tcx = session();
    let mut mir = MirState::new(&tcx);
    let trait_ref = TraitRef { def_id: DRAW, substs: I32_ARG };
    let alias = AliasTy { def_id: MAIN, substs: NO_ARGS };
    let outer = GenericPredicates {
        predicates: vec![
            Predicate::Projection { projection_ty: alias, term: Term::Ty(CHAR) },
            Predicate::Projection { projection_ty: alias, term: Term::Const },
        ],
        parent: None,
    };
    let inner = GenericPredicates {
        predicates: vec![Predicate::Trait(trait_ref), Predicate::Other],
        parent: Some(Box::new(outer)),
    };
    assert_eq!(
        inner.to_json(&mut mir),
        json(
            r#"{"predicates": [
                {"trait_pred": {"trait": "demo/01234567::Draw[0]", "substs": ["ty::i32"]}},
                "unknown_pred",
                {"projection_ty": {"substs": [], "def_id": "demo/01234567::main[0]"},
                 "ty": "ty::char"},
                "unknown_const_projection"]}"#
        )
    );
    assert!(mir.tys.get(&CHAR).is_some());
}

#[test]
fn parameters() {
    let tcx = session();
    let mut mir = MirState::new(&tcx);
    let outer = Generics {
        params: vec![GenericParamDef { name: "T".to_string(), def_id: MAIN }],
        parent: None,
    };
    let inner = Generics {
        params: vec![GenericParamDef { name: "U".to_string(), def_id: DRAW }],
        parent: Some(Box::new(outer)),
    };
    assert_eq!(
        inner.to_json(&mut mir),
        json(
            r#"{"params": [
                {"param_def": "T", "def_id": "demo/01234567::main[0]"},
                {"param_def": "U", "def_id": "demo/01234567::Draw[0]"}]}"#
        )
    );
}

#[test]
fn consistent_sessions() {
    assert!(session().is_valid());
    // A type must come after its parts.
    let mut tcx = session();
    tcx.tys[SLICE.0].kind = TyKind::Slice(SLICE);
    assert!(!tcx.is_valid());
    // The hash of a crate must have eight characters.
    let mut tcx = session();
    tcx.defs[0].crate_hash = "0123456".to_string();
    assert!(!tcx.is_valid());
    // Generic arguments must be known.
    let mut tcx = session();
    tcx.substs[1].args.push(GenericArg::Type(Ty(1000)));
    assert!(!tcx.is_valid());
    // No data type is defined twice.
    let mut tcx = session();
    tcx.adts[1].did = POINT_DEF;
    assert!(!tcx.is_valid());
    // The last answer to a query counts.
    let mut tcx = session();
    tcx.field_tys.insert((X_DEF, I32_ARG), Ty(1000));
    assert!(!tcx.is_valid());
    tcx.field_tys.insert((X_DEF, I32_ARG), I32);
    assert!(tcx.is_valid());
    // Array types and the types of data types must be what they are listed for.
    let mut tcx = session();
    tcx.array_tys.insert((U8, 3), ARRAY);
    assert!(tcx.is_valid());
    tcx.array_tys.insert((U8, 4), ARRAY);
    assert!(!tcx.is_valid());
    let mut tcx = session();
    tcx.array_tys.insert((CHAR, 3), ARRAY);
    assert!(!tcx.is_valid());
    let mut tcx = session();
    tcx.adt_tys.insert(AdtInst { adt: POINT_ADT, substs: I32_ARG }, COLOR);
    assert!(!tcx.is_valid());
    let mut tcx = session();
    tcx.drop_glue.insert(I32, item(DefId(1000), NO_ARGS));
    assert!(!tcx.is_valid());
    let mut tcx = session();
    tcx.resolutions.insert(
        (MAIN, NO_ARGS),
        Resolution::Resolved(item(MAIN, SubstsRef(1000))),
    );
    assert!(!tcx.is_valid());
}
