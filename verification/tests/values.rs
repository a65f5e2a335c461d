//! JSON forms of constant values.

use mir_ty_json::consts::as_opty;
use mir_ty_json::consts::eval_mir_constant;
use mir_ty_json::consts::Constant;
use mir_ty_json::consts::ConstantKind;
use mir_ty_json::ctxt::Abi;
use mir_ty_json::ctxt::AdtData;
use mir_ty_json::ctxt::AdtDef;
use mir_ty_json::ctxt::AdtKind;
use mir_ty_json::ctxt::AllocId;
use mir_ty_json::ctxt::Const;
use mir_ty_json::ctxt::ConstAllocation;
use mir_ty_json::ctxt::ConstKind;
use mir_ty_json::ctxt::ConstValue;
use mir_ty_json::ctxt::Contents;
use mir_ty_json::ctxt::DefData;
use mir_ty_json::ctxt::DefId;
use mir_ty_json::ctxt::FieldDef;
use mir_ty_json::ctxt::FieldsShape;
use mir_ty_json::ctxt::FloatTy;
use mir_ty_json::ctxt::FnSig;
use mir_ty_json::ctxt::GlobalAlloc;
use mir_ty_json::ctxt::Immediate;
use mir_ty_json::ctxt::Instance;
use mir_ty_json::ctxt::InstanceDef;
use mir_ty_json::ctxt::IntTy;
use mir_ty_json::ctxt::MPlaceTy;
use mir_ty_json::ctxt::Mutability;
use mir_ty_json::ctxt::OpRead;
use mir_ty_json::ctxt::OpTy;
use mir_ty_json::ctxt::OpValue;
use mir_ty_json::ctxt::Operand;
use mir_ty_json::ctxt::PlaceValue;
use mir_ty_json::ctxt::Pointer;
use mir_ty_json::ctxt::PolyFnSig;
use mir_ty_json::ctxt::Scalar;
use mir_ty_json::ctxt::ScalarInt;
use mir_ty_json::ctxt::SubstsData;
use mir_ty_json::ctxt::SubstsRef;
use mir_ty_json::ctxt::Ty;
use mir_ty_json::ctxt::TyCtxt;
use mir_ty_json::ctxt::TyData;
use mir_ty_json::ctxt::TyKind;
use mir_ty_json::ctxt::UintTy;
use mir_ty_json::ctxt::Unevaluated;
use mir_ty_json::ctxt::UnevaluatedConst;
use mir_ty_json::ctxt::ValTree;
use mir_ty_json::ctxt::VariantDef;
use mir_ty_json::ctxt::VariantDiscr;
use mir_ty_json::ctxt::WithOptConstParam;
use mir_ty_json::render::mplace_ty_len;
use mir_ty_json::render::render_opty;
use mir_ty_json::render::try_render_opty;
use mir_ty_json::render::try_render_ref_opty;
use mir_ty_json::render::InterpError;
use mir_ty_json::state::MirState;
use mir_ty_json::table::Table;
use mir_ty_json::text::dec_text;
use mir_ty_json::text::fits_bytes;
use mir_ty_json::text::hex16_text;
use mir_ty_json::text::signed_text;
use mir_ty_json::to_json::ToJson;
use serde_json::Value;

const BOOL: Ty = Ty(0);
const CHAR: Ty = Ty(1);
const I32: Ty = Ty(2);
const ISIZE: Ty = Ty(3);
const U8: Ty = Ty(4);
const USIZE: Ty = Ty(5);
const F64: Ty = Ty(6);
const STR: Ty = Ty(7);
const REF_STR: Ty = Ty(8);
const SLICE: Ty = Ty(9);
const REF_SLICE: Ty = Ty(10);
const ARRAY: Ty = Ty(12);
const RAW: Ty = Ty(13);
const POINT: Ty = Ty(14);
const MAYBE: Ty = Ty(15);
const FN_DEF: Ty = Ty(16);
const FN_PTR: Ty = Ty(17);
const CLOSURE: Ty = Ty(18);
const REF_I32: Ty = Ty(19);
const MUT_I32: Ty = Ty(20);
const PAIR: Ty = Ty(21);

const MAIN: DefId = DefId(0);
const NO_ARGS: SubstsRef = SubstsRef(0);

const FN_ALLOC: AllocId = AllocId(0);
const VTABLE_ALLOC: AllocId = AllocId(1);
const STATIC_ALLOC: AllocId = AllocId(2);
const MEM_ALLOC: AllocId = AllocId(3);
const GONE_ALLOC: AllocId = AllocId(4);
const SAME_MEM_ALLOC: AllocId = AllocId(5);

const MEM: ConstAllocation = ConstAllocation(0);

fn json(s: &str) -> Value {
    serde_json::from_str(s).unwrap()
}

fn ty(id: &str, kind: TyKind) -> TyData {
    TyData { kind, id: id.to_string(), hash: 0 }
}

fn not_mut() -> Mutability {
    Mutability { is_mut: false, json: json("\"Not\"") }
}

fn is_mut() -> Mutability {
    Mutability { is_mut: true, json: json("\"Mut\"") }
}

fn main_inst() -> Instance {
    Instance {
        def: InstanceDef::Item(WithOptConstParam { did: MAIN, const_param_did: None }),
        substs: NO_ARGS,
    }
}

fn variant(fields: usize) -> VariantDef {
    VariantDef {
        def_id: MAIN,
        discr: VariantDiscr::Relative(0),
        fields: vec![FieldDef { did: MAIN }; fields],
        ctor_kind: None,
    }
}

fn adt(did: DefId, kind: AdtKind, variants: Vec<VariantDef>) -> AdtData {
    AdtData {
        did,
        kind,
        repr_transparent: false,
        discr_ty: I32,
        variants,
        discriminants: vec![],
    }
}

fn session() -> TyCtxt {
    let length = Const {
        ty: USIZE,
        kind: ConstKind::Value(ValTree::Leaf(ScalarInt { size: 8, data: 2 })),
    };
    let mut defs = Vec::new();
    for path in ["::main[0]", "::Point[0]", "::Maybe[0]"] {
        defs.push(DefData {
            crate_name: "demo".to_string(),
            crate_hash: "0123456789abcdef".to_string(),
            path: path.to_string(),
        });
    }
    let mut tcx = TyCtxt {
        tys: vec![
            ty("ty::bool", TyKind::Bool),
            ty("ty::char", TyKind::Char),
            ty("ty::i32", TyKind::Int(IntTy { is_isize: false, json: json("\"I32\"") })),
            ty("ty::isize", TyKind::Int(IntTy { is_isize: true, json: json("\"Isize\"") })),
            ty("ty::u8", TyKind::Uint(UintTy { is_usize: false, json: json("\"U8\"") })),
            ty("ty::usize", TyKind::Uint(UintTy { is_usize: true, json: json("\"Usize\"") })),
            ty("ty::f64", TyKind::Float(FloatTy { json: json("\"F64\"") })),
            ty("ty::str", TyKind::Str),
            ty("ty::ref_str", TyKind::Ref(STR, not_mut())),
            ty("ty::slice", TyKind::Slice(U8)),
            ty("ty::ref_slice", TyKind::Ref(SLICE, not_mut())),
            ty("ty::unit", TyKind::Tuple(vec![])),
            ty("ty::array", TyKind::Array(U8, length)),
            ty("ty::raw", TyKind::RawPtr(U8, is_mut())),
            ty("ty::point", TyKind::Adt(AdtDef(0), NO_ARGS)),
            ty("ty::maybe", TyKind::Adt(AdtDef(1), NO_ARGS)),
            ty("ty::fn_def", TyKind::FnDef(MAIN, NO_ARGS)),
            ty(
                "ty::fn_ptr",
                TyKind::FnPtr(
                    PolyFnSig {
                        erased: FnSig {
                            inputs: vec![],
                            output: BOOL,
                            abi: Abi { json: json("\"Rust\"") },
                        },
                    },
                ),
            ),
            ty("ty::closure", TyKind::Closure(vec![I32])),
            ty("ty::ref_i32", TyKind::Ref(I32, not_mut())),
            ty("ty::mut_i32", TyKind::Ref(I32, is_mut())),
            ty("ty::pair", TyKind::Tuple(vec![I32, FN_PTR])),
        ],
        defs,
        substs: vec![SubstsData {
            args: vec![],
            hash: 1,
            erased: NO_ARGS,
            normalized: NO_ARGS,
            has_erasable_regions: false,
            needs_subst: false,
        }],
        adts: vec![
            adt(DefId(1), AdtKind::Struct, vec![variant(2)]),
            adt(DefId(2), AdtKind::Enum, vec![variant(0), variant(1)]),
        ],
        allocs: vec![
            Some(GlobalAlloc::Function(main_inst())),
            Some(GlobalAlloc::VTable),
            Some(GlobalAlloc::Static(MAIN)),
            Some(GlobalAlloc::Memory(MEM)),
            None,
            Some(GlobalAlloc::Memory(MEM)),
        ],
        empty_substs: NO_ARGS,
        u8_ty: U8,
        pointer_size: 8,
        resolutions: Table::new(),
        clone_resolutions: Table::new(),
        drop_glue: Table::new(),
        field_tys: Table::new(),
        inhabited: Table::new(),
        adt_tys: Table::new(),
        sizes: Table::new(),
        array_tys: Table::new(),
        alloc_ids: Table::new(),
        const_vals: Table::new(),
        const_evals: Table::new(),
        operands: Table::new(),
    };
    tcx.sizes.insert(I32, 4);
    tcx.sizes.insert(REF_STR, 16);
    tcx.array_tys.insert((U8, 2), ARRAY);
    for t in [REF_STR, REF_SLICE, REF_I32, MUT_I32] {
        tcx.alloc_ids.insert((MEM, t), format!("demo/alloc::{}", t.0));
    }
    tcx
}

fn op(ty: Ty, size: u64, read: OpRead) -> OpValue {
    OpValue { ty, size, read, debug: "the operand".to_string() }
}

fn i32_op(n: u128) -> OpValue {
    op(I32, 4, OpRead::Bits(n))
}

fn u8_op(n: u128) -> OpValue {
    op(U8, 1, OpRead::Bits(n))
}

/// A function pointer to something that is not known any more: it has no JSON form.
fn lost() -> OpValue {
    op(FN_PTR, 8, OpRead::FnPtr(Some(GONE_ALLOC)))
}

fn place(alloc: AllocId, ty: Ty, len: Option<u128>) -> MPlaceTy {
    MPlaceTy {
        ptr: Pointer { alloc, offset: 0 },
        ty,
        is_unsized: len.is_some(),
        fields: FieldsShape::Other,
        meta: match len {
            Some(data) => Some(Scalar::Int(ScalarInt { size: 8, data })),
            None => None,
        },
    }
}

fn reference(ty: Ty, place: MPlaceTy, contents: Contents) -> OpValue {
    op(ty, 8, OpRead::Place(Box::new(PlaceValue { place, contents })))
}

fn shown(op: &OpValue) -> Option<Value> {
    let tcx = session();
    let mut mir = MirState::new(&tcx);
    try_render_opty(&mut mir, op)
}

#[test]
fn the_session_is_consistent() {
    let mut tcx = session();
    assert!(tcx.is_valid());
    let op_ty = as_opty(&tcx, ConstValue::ZeroSized, I32);
    tcx.operands.insert(op_ty, u8_op(4));
    assert!(!tcx.is_valid());
}

#[test]
fn numbers_as_text() {
    assert_eq!(dec_text(0), "0");
    assert_eq!(dec_text(9), "9");
    assert_eq!(dec_text(10), "10");
    assert_eq!(dec_text(u128::MAX), "340282366920938463463374607431768211455");
    assert_eq!(hex16_text(0), "0000000000000000");
    assert_eq!(hex16_text(0xdeadbeef), "00000000deadbeef");
    assert_eq!(hex16_text(u64::MAX), "ffffffffffffffff");
    assert!(fits_bytes(0, 0));
    assert!(!fits_bytes(1, 0));
    assert!(fits_bytes(255, 1));
    assert!(!fits_bytes(256, 1));
    assert!(fits_bytes(u128::MAX, 16));
    assert!(!fits_bytes(u128::MAX, 15));
    assert!(fits_bytes(u128::MAX, u64::MAX));
    assert_eq!(signed_text(127, 1), "127");
    assert_eq!(signed_text(128, 1), "-128");
    assert_eq!(signed_text(255, 1), "-1");
    assert_eq!(signed_text(0x7fff_ffff, 4), "2147483647");
    assert_eq!(signed_text(0x8000_0000, 4), "-2147483648");
    assert_eq!(signed_text(u128::MAX, 16), "-1");
    assert_eq!(signed_text(1 << 127, 16), "-170141183460469231731687303715884105728");
}

#[test]
fn scalars() {
    let bits = |t: Ty, size: u64, n: u128| shown(&op(t, size, OpRead::Bits(n))).unwrap();
    assert_eq!(bits(BOOL, 1, 1), json(r#"{"kind": "bool", "size": 1, "val": "1"}"#));
    assert_eq!(bits(CHAR, 4, 97), json(r#"{"kind": "char", "size": 4, "val": "97"}"#));
    assert_eq!(bits(U8, 1, 255), json(r#"{"kind": "uint", "size": 1, "val": "255"}"#));
    assert_eq!(bits(USIZE, 8, 12), json(r#"{"kind": "usize", "size": 8, "val": "12"}"#));
    assert_eq!(
        bits(I32, 4, 0xffff_fffe),
        json(r#"{"kind": "int", "size": 4, "val": "-2"}"#)
    );
    assert_eq!(bits(ISIZE, 8, 3), json(r#"{"kind": "isize", "size": 8, "val": "3"}"#));
    assert_eq!(
        shown(&op(F64, 8, OpRead::Float("1.5".to_string()))).unwrap(),
        json(r#"{"kind": "float", "size": 8, "val": "1.5"}"#)
    );
    assert_eq!(shown(&op(FN_DEF, 0, OpRead::Unread)).unwrap(), json(r#"{"kind": "zst"}"#));
}

#[test]
fn structs_need_all_their_fields() {
    let good = op(POINT, 8, OpRead::Fields(vec![i32_op(1), i32_op(2)]));
    assert_eq!(
        shown(&good).unwrap(),
        json(
            r#"{"kind": "struct", "fields": [
                {"kind": "int", "size": 4, "val": "1"},
                {"kind": "int", "size": 4, "val": "2"}]}"#
        )
    );
    let bad = op(POINT, 8, OpRead::Fields(vec![i32_op(1), lost()]));
    assert_eq!(shown(&bad), None);
}

#[test]
fn enums_need_all_fields_of_the_variant() {
    let good = op(MAYBE, 8, OpRead::Variant { variant: 1, fields: vec![i32_op(1)] });
    assert_eq!(
        shown(&good).unwrap(),
        json(
            r#"{"kind": "enum", "variant": 1, "fields": [
                {"kind": "int", "size": 4, "val": "1"}]}"#
        )
    );
    let bad = op(MAYBE, 8, OpRead::Variant { variant: 1, fields: vec![lost()] });
    assert_eq!(shown(&bad), None);
    let empty = op(MAYBE, 8, OpRead::Variant { variant: 0, fields: vec![] });
    assert_eq!(
        shown(&empty).unwrap(),
        json(r#"{"kind": "enum", "variant": 0, "fields": []}"#)
    );
}

#[test]
fn closures_need_all_captured_variables() {
    let good = op(CLOSURE, 4, OpRead::Fields(vec![i32_op(1)]));
    assert_eq!(
        shown(&good).unwrap(),
        json(
            r#"{"kind": "closure", "upvars": [{"kind": "int", "size": 4, "val": "1"}]}"#
        )
    );
    let bad = op(CLOSURE, 4, OpRead::Fields(vec![lost()]));
    assert_eq!(shown(&bad), None);
}

#[test]
fn arrays_hold_null_for_what_has_no_form() {
    let tcx = session();
    let mut mir = MirState::new(&tcx);
    let array = op(ARRAY, 2, OpRead::Fields(vec![u8_op(7), lost()]));
    assert_eq!(
        try_render_opty(&mut mir, &array).unwrap(),
        json(
            r#"{"kind": "array", "element_ty": "ty::u8", "elements": [
                {"kind": "uint", "size": 1, "val": "7"}, null]}"#
        )
    );
    assert!(mir.tys.get(&U8).is_some());
    assert!(mir.tys.get(&ARRAY).is_none());
}

#[test]
fn tuples_note_what_has_no_form() {
    let pair = op(PAIR, 16, OpRead::Fields(vec![i32_op(1), lost()]));
    assert_eq!(
        shown(&pair).unwrap(),
        json(
            r#"{"kind": "tuple", "elements": [
                {"kind": "int", "size": 4, "val": "1"},
                {"kind": "unsupported_const", "debug_val": "the operand"}]}"#
        )
    );
}

#[test]
fn rendering_always_gives_a_document() {
    let tcx = session();
    let mut mir = MirState::new(&tcx);
    assert_eq!(
        render_opty(&mut mir, &lost()),
        json(r#"{"kind": "unsupported_const", "debug_val": "the operand"}"#)
    );
    assert_eq!(
        render_opty(&mut mir, &u8_op(1)),
        json(r#"{"kind": "uint", "size": 1, "val": "1"}"#)
    );
}

#[test]
fn function_pointers() {
    let tcx = session();
    let mut mir = MirState::new(&tcx);
    let pointer = op(FN_PTR, 8, OpRead::FnPtr(Some(FN_ALLOC)));
    assert_eq!(
        try_render_opty(&mut mir, &pointer).unwrap(),
        json(
            r#"{"kind": "fn_ptr", "instance": {
                "kind": "Item", "def_id": "demo/01234567::main[0]", "substs": []}}"#
        )
    );
    assert_eq!(mir.used.instances.as_slice(), &[main_inst()]);
    assert_eq!(try_render_opty(&mut mir, &lost()), None);
    assert_eq!(try_render_opty(&mut mir, &op(FN_PTR, 8, OpRead::FnPtr(None))), None);
}

#[test]
fn pointers_without_provenance() {
    let null = op(RAW, 8, OpRead::Addr { offset: 0, has_meta: false });
    assert_eq!(shown(&null).unwrap(), json(r#"{"kind": "raw_ptr", "val": "0"}"#));
    let addr = op(REF_I32, 8, OpRead::Addr { offset: 16, has_meta: false });
    assert_eq!(shown(&addr).unwrap(), json(r#"{"kind": "raw_ptr", "val": "16"}"#));
}

#[test]
fn references_to_statics() {
    let r = reference(REF_I32, place(STATIC_ALLOC, I32, None), Contents::Unread);
    assert_eq!(
        shown(&r).unwrap(),
        json(r#"{"kind": "static_ref", "def_id": "demo/01234567::main[0]"}"#)
    );
    let s = reference(REF_STR, place(STATIC_ALLOC, STR, Some(4)), Contents::Unread);
    assert_eq!(
        shown(&s).unwrap(),
        json(r#"{"kind": "slice", "def_id": "demo/01234567::main[0]", "len": 4}"#)
    );
}

#[test]
fn references_to_what_cannot_be_shown() {
    for alloc in [VTABLE_ALLOC, GONE_ALLOC, FN_ALLOC] {
        let r = reference(REF_I32, place(alloc, I32, None), Contents::Unread);
        assert_eq!(shown(&r), None);
    }
}

#[test]
fn references_to_memory() {
    let tcx = session();
    let mut mir = MirState::new(&tcx);
    let r = reference(REF_I32, place(MEM_ALLOC, I32, None), Contents::Whole(i32_op(5)));
    let expected = json(r#"{"kind": "static_ref", "def_id": "demo/alloc::19"}"#);
    assert_eq!(try_render_opty(&mut mir, &r).unwrap(), expected);
    assert_eq!(
        mir.allocs.get(&(MEM, REF_I32)).unwrap().body,
        json(
            r#"{"kind": "constant", "mutable": false, "ty": "ty::i32",
                "rendered": {"kind": "int", "size": 4, "val": "5"}}"#
        )
    );
    // Memory that has a static is not looked at again.
    let again = reference(REF_I32, place(SAME_MEM_ALLOC, I32, None), Contents::Unread);
    assert_eq!(try_render_opty(&mut mir, &again).unwrap(), expected);
    assert_eq!(mir.allocs.rows().len(), 1);
    // Seen through another pointer type it gets another static.
    let m = reference(MUT_I32, place(MEM_ALLOC, I32, None), Contents::Whole(i32_op(5)));
    assert_eq!(
        try_render_opty(&mut mir, &m).unwrap(),
        json(r#"{"kind": "static_ref", "def_id": "demo/alloc::20"}"#)
    );
    assert_eq!(mir.allocs.rows().len(), 2);
}

#[test]
fn memory_that_has_no_form() {
    let mut tcx = session();
    tcx.tys.push(ty("ty::ref_fn", TyKind::Ref(FN_PTR, not_mut())));
    let ref_fn = Ty(tcx.tys.len() - 1);
    tcx.alloc_ids.insert((MEM, ref_fn), "demo/alloc::fn".to_string());
    let mut mir = MirState::new(&tcx);
    let r = reference(ref_fn, place(MEM_ALLOC, FN_PTR, None), Contents::Whole(lost()));
    assert_eq!(
        try_render_opty(&mut mir, &r).unwrap(),
        json(r#"{"kind": "static_ref", "def_id": "demo/alloc::fn"}"#)
    );
    assert_eq!(
        mir.allocs.get(&(MEM, ref_fn)).unwrap().body["rendered"],
        json("null")
    );
}

#[test]
fn strings() {
    let tcx = session();
    let mut mir = MirState::new(&tcx);
    let s = reference(
        REF_STR,
        place(MEM_ALLOC, STR, Some(2)),
        Contents::Bytes(vec![104, 105]),
    );
    let shown = try_render_opty(&mut mir, &s).unwrap();
    assert_eq!(shown, json(r#"{"kind": "slice", "def_id": "demo/alloc::8", "len": 2}"#));
    let body = &mir.allocs.get(&(MEM, REF_STR)).unwrap().body;
    assert_eq!(
        *body,
        json(
            r#"{"kind": "constant", "mutable": false, "ty": "ty::array",
                "rendered": {"kind": "strbody", "elements": [104, 105], "len": 2}}"#
        )
    );
    assert_eq!(shown["len"], body["rendered"]["len"]);
    assert!(mir.tys.get(&ARRAY).is_some());
}

#[test]
fn slices() {
    let tcx = session();
    let mut mir = MirState::new(&tcx);
    let s = reference(
        REF_SLICE,
        place(MEM_ALLOC, SLICE, Some(2)),
        Contents::Elements(vec![u8_op(1), u8_op(2)]),
    );
    let shown = try_render_opty(&mut mir, &s).unwrap();
    assert_eq!(shown, json(r#"{"kind": "slice", "def_id": "demo/alloc::10", "len": 2}"#));
    assert_eq!(
        mir.allocs.get(&(MEM, REF_SLICE)).unwrap().body,
        json(
            r#"{"kind": "constant", "mutable": false, "ty": "ty::array",
                "rendered": {"kind": "array", "elements": [
                    {"kind": "uint", "size": 1, "val": "1"},
                    {"kind": "uint", "size": 1, "val": "2"}], "len": 2}}"#
        )
    );
}

#[test]
fn rendering_twice_changes_nothing_more() {
    let tcx = session();
    let mut mir = MirState::new(&tcx);
    let s = reference(
        REF_SLICE,
        place(MEM_ALLOC, SLICE, Some(2)),
        Contents::Elements(vec![u8_op(1), u8_op(2)]),
    );
    let first = try_render_opty(&mut mir, &s);
    let (tys, allocs) = (mir.tys.rows().len(), mir.allocs.rows().len());
    assert_eq!(try_render_opty(&mut mir, &s), first);
    assert_eq!((mir.tys.rows().len(), mir.allocs.rows().len()), (tys, allocs));
}

#[test]
fn a_reference_shown_later_finds_the_same_static() {
    let tcx = session();
    let mut mir = MirState::new(&tcx);
    let r = reference(REF_I32, place(MEM_ALLOC, I32, None), Contents::Whole(i32_op(5)));
    let first = try_render_ref_opty(&mut mir, &r, I32, &not_mut());
    let body = mir.allocs.get(&(MEM, REF_I32)).unwrap().body.clone();
    // Other things are shown, and the same memory with other contents is offered.
    try_render_opty(&mut mir, &op(FN_PTR, 8, OpRead::FnPtr(Some(FN_ALLOC))));
    let other = reference(REF_I32, place(MEM_ALLOC, I32, None), Contents::Whole(i32_op(6)));
    assert_eq!(try_render_ref_opty(&mut mir, &other, I32, &not_mut()), first);
    assert_eq!(try_render_ref_opty(&mut mir, &r, I32, &not_mut()), first);
    assert_eq!(mir.allocs.rows().len(), 1);
    assert_eq!(mir.allocs.get(&(MEM, REF_I32)).unwrap().body, body);
}

#[test]
fn rendering_stops_at_the_first_needed_part_without_form() {
    let tcx = session();
    let mut mir = MirState::new(&tcx);
    let known = op(FN_PTR, 8, OpRead::FnPtr(Some(FN_ALLOC)));
    assert_eq!(
        try_render_opty(&mut mir, &op(POINT, 16, OpRead::Fields(vec![lost(), known]))),
        None
    );
    assert_eq!(mir.used.instances.as_slice().len(), 0);
    let known = op(FN_PTR, 8, OpRead::FnPtr(Some(FN_ALLOC)));
    assert_eq!(
        try_render_opty(&mut mir, &op(POINT, 16, OpRead::Fields(vec![known, lost()]))),
        None
    );
    assert_eq!(mir.used.instances.as_slice().len(), 1);
}

#[test]
fn lengths_of_places() {
    let tcx = session();
    assert_eq!(mplace_ty_len(&place(MEM_ALLOC, STR, Some(9)), &tcx), Ok(9));
    let mut sized = place(MEM_ALLOC, ARRAY, None);
    sized.fields = FieldsShape::Array { count: 2 };
    assert_eq!(mplace_ty_len(&sized, &tcx), Ok(2));
    let mut bad = place(MEM_ALLOC, SLICE, Some(9));
    bad.meta = Some(Scalar::Ptr(Pointer { alloc: MEM_ALLOC, offset: 0 }, 8));
    assert_eq!(mplace_ty_len(&bad, &tcx), Err(InterpError::NotMachineUsize));
    bad.meta = Some(Scalar::Int(ScalarInt { size: 4, data: 9 }));
    assert_eq!(mplace_ty_len(&bad, &tcx), Err(InterpError::NotMachineUsize));
}

#[test]
fn operands_of_constants() {
    let tcx = session();
    let four = Scalar::Int(ScalarInt { size: 4, data: 4 });
    assert_eq!(
        as_opty(&tcx, ConstValue::Scalar(four), I32),
        OpTy { op: Operand::Immediate(Immediate::Scalar(four)), ty: I32, size: 4 }
    );
    assert_eq!(
        as_opty(&tcx, ConstValue::ZeroSized, I32),
        OpTy { op: Operand::Immediate(Immediate::Uninit), ty: I32, size: 4 }
    );
    assert_eq!(
        as_opty(&tcx, ConstValue::ByRef { alloc: MEM_ALLOC, offset: 8 }, I32),
        OpTy {
            op: Operand::Indirect(Pointer { alloc: MEM_ALLOC, offset: 8 }),
            ty: I32,
            size: 4,
        }
    );
    assert_eq!(
        as_opty(&tcx, ConstValue::Slice { data: MEM_ALLOC, start: 3, end: 10 }, REF_STR),
        OpTy {
            op: Operand::Immediate(
                Immediate::ScalarPair(
                    Scalar::Ptr(Pointer { alloc: MEM_ALLOC, offset: 3 }, 8),
                    Scalar::Int(ScalarInt { size: 8, data: 7 }),
                ),
            ),
            ty: REF_STR,
            size: 16,
        }
    );
}

#[test]
fn constant_values() {
    let mut tcx = session();
    let val = ConstValue::Scalar(Scalar::Int(ScalarInt { size: 4, data: 4 }));
    let op_ty = as_opty(&tcx, val, I32);
    tcx.operands.insert(op_ty, i32_op(4));
    let mut mir = MirState::new(&tcx);
    assert_eq!(
        (val, I32).to_json(&mut mir),
        json(
            r#"{"ty": "ty::i32", "rendered": {"kind": "int", "size": 4, "val": "4"}}"#
        )
    );
    assert!(mir.tys.get(&I32).is_some());
    // A second time changes nothing more.
    (val, I32).to_json(&mut mir);
    assert_eq!(mir.tys.rows().len(), 1);
}

#[test]
fn evaluating_constants() {
    let mut tcx = session();
    let one = ConstValue::Scalar(Scalar::Int(ScalarInt { size: 4, data: 1 }));
    let two = ConstValue::Scalar(Scalar::Int(ScalarInt { size: 4, data: 2 }));
    let def = WithOptConstParam { did: MAIN, const_param_did: None };
    let leaf = Const {
        ty: I32,
        kind: ConstKind::Value(ValTree::Leaf(ScalarInt { size: 4, data: 1 })),
    };
    let open = Const {
        ty: I32,
        kind: ConstKind::Unevaluated(UnevaluatedConst { def, substs: NO_ARGS }),
    };
    let promoted = Unevaluated { def, substs: NO_ARGS, promoted: Some(0) };
    tcx.const_vals.insert(leaf, one);
    tcx.const_evals.insert(Unevaluated { def, substs: NO_ARGS, promoted: None }, two);
    tcx.const_evals.insert(promoted, ConstValue::ZeroSized);
    let eval = |literal: ConstantKind| eval_mir_constant(&tcx, &Constant { literal });
    assert_eq!(eval(ConstantKind::Ty(leaf)), one);
    assert_eq!(eval(ConstantKind::Ty(open)), two);
    assert_eq!(eval(ConstantKind::Unevaluated(promoted, I32)), ConstValue::ZeroSized);
    assert_eq!(eval(ConstantKind::Val(two, I32)), two);
}
