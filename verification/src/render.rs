//! Showing constant values.

use crate::consts::get_const_usize;
use crate::ctxt::AdtKind;
use crate::ctxt::AllocId;
use crate::ctxt::Contents;
use crate::ctxt::FieldsShape;
use crate::ctxt::GlobalAlloc;
use crate::ctxt::MPlaceTy;
use crate::ctxt::Mutability;
use crate::ctxt::OpRead;
use crate::ctxt::OpValue;
use crate::ctxt::PlaceValue;
use crate::ctxt::Scalar;
use crate::ctxt::Ty;
use crate::ctxt::TyCtxt;
use crate::ctxt::TyKind;
use crate::docs::refs_ok;
use crate::docs::Refs;
use crate::instances::inst_json;
use crate::json::array_value;
use crate::json::bool_value;
use crate::json::json_of;
use crate::json::number_value;
use crate::json::object_value;
use crate::json::option_value;
use crate::json::put;
use crate::json::string_value;
use crate::json::tagged;
use crate::json::text_value;
use crate::json::Json;
use crate::names::def_id_str;
use crate::state::record;
use crate::state::MirState;
use crate::text::dec_text;
use crate::text::fits_bytes;
use crate::text::signed_text;
use crate::types::ty_json;
use crate::values::all_docs;
use crate::values::all_shown;
use crate::values::body_after;
use crate::values::body_doc;
use crate::values::body_ok;
use crate::values::bytes_doc;
use crate::values::fn_ptr_after;
use crate::values::fn_ptr_doc;
use crate::values::fn_ptr_ok;
use crate::values::has_len;
use crate::values::lemma_op_docs;
use crate::values::op_after;
use crate::values::op_doc;
use crate::values::op_docs;
use crate::values::op_ok;
use crate::values::op_shown;
use crate::values::ops_after;
use crate::values::ops_ok;
use crate::values::or_null;
use crate::values::or_nulls;
use crate::values::place_len;
use crate::values::ref_after;
use crate::values::ref_doc;
use crate::values::ref_ok;
use crate::values::scalar_doc;
use crate::values::static_doc;
use serde_json::Value;
use vstd::pervasive::unreached;
use vstd::prelude::*;

verus! {

/// Why something could not be read from a place.
#[derive(Clone, Copy, PartialEq, Eq, Structural, Debug)]
pub enum InterpError {
    /// The metadata of a pointer is no number of the size of a pointer.
    NotMachineUsize,
}

/// How many elements a place holds.
pub fn mplace_ty_len(mplace_ty: &MPlaceTy, cx: &TyCtxt) -> (len: Result<u64, InterpError>)
    requires
        has_len(cx, *mplace_ty),
    ensures
        len == match place_len(cx, *mplace_ty) {
            Some(n) => Ok::<u64, InterpError>(n),
            None => Err(InterpError::NotMachineUsize),
        },
{
    if mplace_ty.is_unsized {
        // We need to consult the metadata.
        match (cx.kind(mplace_ty.ty), mplace_ty.meta) {
            (TyKind::Slice(_), Some(meta)) | (TyKind::Str, Some(meta)) => match meta {
                Scalar::Int(i) if i.size == cx.pointer_size => {
                    if i.data > u64::MAX as u128 {
                        return unreached();
                    }
                    Ok(i.data as u64)
                },
                _ => Err(InterpError::NotMachineUsize),
            },
            _ => unreached(),
        }
    } else {
        // Go through the layout.
        match mplace_ty.fields {
            FieldsShape::Array { count } => Ok(count),
            FieldsShape::Other => unreached(),
        }
    }
}

/// A scalar: what it is, its size in bytes and its value.
fn scalar_json(kind: &str, size: u64, val: String) -> (v: Value)
    ensures
        json_of(v) == scalar_doc(kind, size, val@),
{
    let mut o = tagged(kind);
    put(&mut o, "size", number_value(size));
    put(&mut o, "val", string_value(val));
    object_value(o)
}

/// Bytes as numbers.
fn bytes_json(bytes: &Vec<u8>) -> (v: Value)
    ensures
        json_of(v) == bytes_doc(bytes@),
{
    let mut items: Vec<Value> = Vec::new();
    let mut i: usize = 0;
    while i < bytes.len()
        invariant
            i <= bytes.len(),
            items.len() == i,
            forall|j: int|
                0 <= j < i ==> json_of(#[trigger] items@[j]) == Json::Num(bytes@[j] as nat),
        decreases bytes.len() - i,
    {
        items.push(number_value(bytes[i] as u64));
        i = i + 1;
    }
    let v = array_value(items);
    assert(json_of(v)->Arr_0 =~= bytes_doc(bytes@)->Arr_0);
    v
}

/// A static that holds `rendered`, of type `ty`.
fn static_json(mir: &mut MirState<'_>, ty: Ty, rendered: Value) -> (v: Value)
    requires
        old(mir).wf(),
        refs_ok(old(mir).tcx, Refs::of_ty(ty)),
    ensures
        final(mir).wf(),
        final(mir).tcx == old(mir).tcx,
        json_of(v) == static_doc(old(mir).tcx, ty, json_of(rendered)),
        final(mir)@ == record(old(mir).tcx, old(mir)@, Refs::of_ty(ty)),
{
    let mut o = tagged("constant");
    put(&mut o, "mutable", bool_value(false));
    let ty = ty_json(ty, mir);
    put(&mut o, "ty", ty);
    put(&mut o, "rendered", rendered);
    object_value(o)
}

/// A function pointer.
fn try_render_fn_ptr(mir: &mut MirState<'_>, alloc: Option<AllocId>) -> (v: Option<Value>)
    requires
        old(mir).wf(),
        fn_ptr_ok(old(mir).tcx, alloc),
    ensures
        final(mir).wf(),
        final(mir).tcx == old(mir).tcx,
        v is Some <==> fn_ptr_doc(old(mir).tcx, alloc) is Some,
        v matches Some(v) ==> Some(json_of(v)) == fn_ptr_doc(old(mir).tcx, alloc),
        final(mir)@ == fn_ptr_after(old(mir).tcx, alloc, old(mir)@),
{
    let tcx = mir.tcx;
    let a = match alloc {
        Some(a) => a,
        None => return None,
    };
    assert(tcx.alloc_of(a) == tcx.allocs@[a.0 as int]);
    match tcx.allocs[a.0] {
        Some(GlobalAlloc::Function(inst)) => {
            mir.use_instance(inst);
            let mut o = tagged("fn_ptr");
            let instance = inst_json(inst, mir);
            put(&mut o, "instance", instance);
            Some(object_value(o))
        },
        Some(_) => unreached(),
        None => None,
    }
}

/// The JSON form of a value, or a note that it has none.
pub fn render_opty(mir: &mut MirState<'_>, op_ty: &OpValue) -> (v: Value)
    requires
        old(mir).wf(),
        op_ok(old(mir).tcx, *op_ty, old(mir)@),
    ensures
        final(mir).wf(),
        final(mir).tcx == old(mir).tcx,
        json_of(v) == op_shown(old(mir).tcx, *op_ty),
        final(mir)@ == op_after(old(mir).tcx, *op_ty, old(mir)@),
    decreases *op_ty, 3nat,
{
    match try_render_opty(mir, op_ty) {
        Some(v) => v,
        None => {
            let mut o = tagged("unsupported_const");
            put(&mut o, "debug_val", text_value(op_ty.debug.as_str()));
            object_value(o)
        },
    }
}

/// The JSON forms of values all of which are needed: `None` where one of them has none.
fn try_render_all(mir: &mut MirState<'_>, ops: &Vec<OpValue>) -> (v: Option<Value>)
    requires
        old(mir).wf(),
        ops_ok(old(mir).tcx, ops@, true, old(mir)@),
    ensures
        final(mir).wf(),
        final(mir).tcx == old(mir).tcx,
        v is Some <==> all_docs(op_docs(old(mir).tcx, ops@)) is Some,
        v matches Some(v) ==> json_of(v) == Json::Arr(all_docs(op_docs(old(mir).tcx, ops@))->0),
        final(mir)@ == ops_after(old(mir).tcx, ops@, true, old(mir)@),
    decreases ops@, 0nat,
{
    let ghost tcx = mir.tcx;
    let ghost m0 = mir@;
    let ghost docs = op_docs(tcx, ops@);
    let mut items: Vec<Value> = Vec::new();
    let mut i: usize = 0;
    proof {
        lemma_op_docs(tcx, ops@);
        assert(ops@.skip(0) =~= ops@);
    }
    while i < ops.len()
        invariant
            i <= ops.len(),
            mir.wf(),
            mir.tcx == tcx,
            tcx == old(mir).tcx,
            m0 == old(mir)@,
            docs == op_docs(tcx, ops@),
            docs.len() == ops.len(),
            forall|j: int| 0 <= j < ops.len() ==> #[trigger] docs[j] == op_doc(tcx, ops@[j]),
            ops_ok(tcx, ops@.skip(i as int), true, mir@),
            ops_after(tcx, ops@, true, m0) == ops_after(tcx, ops@.skip(i as int), true, mir@),
            items.len() == i,
            forall|j: int| 0 <= j < i ==> Some(json_of(#[trigger] items@[j])) == docs[j],
        decreases ops.len() - i,
    {
        proof {
            assert(ops@.skip(i as int).drop_first() =~= ops@.skip(i + 1));
            assert(ops@.skip(i as int)[0] == ops@[i as int]);
            assert(decreases_to!(ops@ => ops@[i as int]));
        }
        match try_render_opty(mir, &ops[i]) {
            Some(item) => items.push(item),
            None => {
                assert(docs[i as int] is None);
                return None;
            },
        }
        i = i + 1;
    }
    let v = array_value(items);
    proof {
        assert forall|j: int| 0 <= j < docs.len() implies (#[trigger] docs[j]) is Some by {
            assert(Some(json_of(items@[j])) == docs[j]);
        }
        assert(json_of(v)->Arr_0 =~= all_docs(docs)->0);
    }
    Some(v)
}

/// The JSON forms of values, `null` for one that has none.
fn render_each(mir: &mut MirState<'_>, ops: &Vec<OpValue>) -> (v: Value)
    requires
        old(mir).wf(),
        ops_ok(old(mir).tcx, ops@, false, old(mir)@),
    ensures
        final(mir).wf(),
        final(mir).tcx == old(mir).tcx,
        json_of(v) == Json::Arr(or_nulls(op_docs(old(mir).tcx, ops@))),
        final(mir)@ == ops_after(old(mir).tcx, ops@, false, old(mir)@),
    decreases ops@, 0nat,
{
    let ghost tcx = mir.tcx;
    let ghost m0 = mir@;
    let ghost docs = op_docs(tcx, ops@);
    let mut items: Vec<Value> = Vec::new();
    let mut i: usize = 0;
    proof {
        lemma_op_docs(tcx, ops@);
        assert(ops@.skip(0) =~= ops@);
    }
    while i < ops.len()
        invariant
            i <= ops.len(),
            mir.wf(),
            mir.tcx == tcx,
            docs == op_docs(tcx, ops@),
            docs.len() == ops.len(),
            forall|j: int| 0 <= j < ops.len() ==> #[trigger] docs[j] == op_doc(tcx, ops@[j]),
            ops_ok(tcx, ops@.skip(i as int), false, mir@),
            ops_after(tcx, ops@, false, m0) == ops_after(tcx, ops@.skip(i as int), false, mir@),
            items.len() == i,
            forall|j: int| 0 <= j < i ==> json_of(#[trigger] items@[j]) == or_null(docs[j]),
        decreases ops.len() - i,
    {
        proof {
            assert(ops@.skip(i as int).drop_first() =~= ops@.skip(i + 1));
            assert(ops@.skip(i as int)[0] == ops@[i as int]);
            assert(decreases_to!(ops@ => ops@[i as int]));
        }
        let item = try_render_opty(mir, &ops[i]);
        assert(docs[i as int] == op_doc(tcx, ops@[i as int]));
        items.push(option_value(item));
        i = i + 1;
    }
    let v = array_value(items);
    assert(json_of(v)->Arr_0 =~= or_nulls(docs));
    v
}

/// The JSON forms of values, or notes that they have none.
fn render_shown(mir: &mut MirState<'_>, ops: &Vec<OpValue>) -> (v: Value)
    requires
        old(mir).wf(),
        ops_ok(old(mir).tcx, ops@, false, old(mir)@),
    ensures
        final(mir).wf(),
        final(mir).tcx == old(mir).tcx,
        json_of(v) == Json::Arr(all_shown(op_docs(old(mir).tcx, ops@), ops@)),
        final(mir)@ == ops_after(old(mir).tcx, ops@, false, old(mir)@),
    decreases ops@, 0nat,
{
    let ghost tcx = mir.tcx;
    let ghost m0 = mir@;
    let mut items: Vec<Value> = Vec::new();
    let mut i: usize = 0;
    proof {
        lemma_op_docs(tcx, ops@);
        assert(ops@.skip(0) =~= ops@);
    }
    while i < ops.len()
        invariant
            i <= ops.len(),
            mir.wf(),
            mir.tcx == tcx,
            ops_ok(tcx, ops@.skip(i as int), false, mir@),
            ops_after(tcx, ops@, false, m0) == ops_after(tcx, ops@.skip(i as int), false, mir@),
            items.len() == i,
            forall|j: int| 0 <= j < i ==> json_of(#[trigger] items@[j]) == op_shown(tcx, ops@[j]),
        decreases ops.len() - i,
    {
        proof {
            assert(ops@.skip(i as int).drop_first() =~= ops@.skip(i + 1));
            assert(ops@.skip(i as int)[0] == ops@[i as int]);
            assert(decreases_to!(ops@ => ops@[i as int]));
        }
        let item = render_opty(mir, &ops[i]);
        items.push(item);
        i = i + 1;
    }
    let v = array_value(items);
    assert(json_of(v)->Arr_0 =~= all_shown(op_docs(tcx, ops@), ops@));
    v
}

/// The JSON form of a value, if it has one.
pub fn try_render_opty(mir: &mut MirState<'_>, op_ty: &OpValue) -> (v: Option<Value>)
    requires
        old(mir).wf(),
        op_ok(old(mir).tcx, *op_ty, old(mir)@),
    ensures
        final(mir).wf(),
        final(mir).tcx == old(mir).tcx,
        v is Some <==> op_doc(old(mir).tcx, *op_ty) is Some,
        v matches Some(v) ==> Some(json_of(v)) == op_doc(old(mir).tcx, *op_ty),
        final(mir)@ == op_after(old(mir).tcx, *op_ty, old(mir)@),
    decreases *op_ty, 2nat,
{
    let tcx = mir.tcx;
    match (tcx.kind(op_ty.ty), &op_ty.read) {
        (TyKind::Bool, OpRead::Bits(bits)) => Some(
            scalar_json("bool", op_ty.size, dec_text(*bits)),
        ),
        (TyKind::Char, OpRead::Bits(bits)) => Some(
            scalar_json("char", op_ty.size, dec_text(*bits)),
        ),
        (TyKind::Uint(u), OpRead::Bits(bits)) => {
            let kind = if u.is_usize {
                "usize"
            } else {
                "uint"
            };
            Some(scalar_json(kind, op_ty.size, dec_text(*bits)))
        },
        (TyKind::Int(i), OpRead::Bits(bits)) => {
            if op_ty.size < 1 || op_ty.size > 16 || !fits_bytes(*bits, op_ty.size) {
                return unreached();
            }
            let kind = if i.is_isize {
                "isize"
            } else {
                "int"
            };
            Some(scalar_json(kind, op_ty.size, signed_text(*bits, op_ty.size)))
        },
        (TyKind::Float(_), OpRead::Float(val)) => Some(
            scalar_json("float", op_ty.size, val.clone()),
        ),
        (TyKind::Adt(adt, _), OpRead::Fields(fields)) => {
            let data = &tcx.adts[adt.0];
            assert(*data == tcx.adt_data(*adt));
            if data.kind != AdtKind::Struct || data.variants.len() != 1
                || data.variants[0].fields.len() != fields.len() {
                return unreached();
            }
            assert(decreases_to!(*op_ty => op_ty.read->Fields_0@));
            match try_render_all(mir, fields) {
                Some(docs) => {
                    let mut o = tagged("struct");
                    put(&mut o, "fields", docs);
                    Some(object_value(o))
                },
                None => None,
            }
        },
        (TyKind::Adt(adt, _), OpRead::Variant { variant, fields }) => {
            let data = &tcx.adts[adt.0];
            assert(*data == tcx.adt_data(*adt));
            if data.kind != AdtKind::Enum || *variant as usize >= data.variants.len()
                || data.variants[*variant as usize].fields.len() != fields.len() {
                return unreached();
            }
            assert(decreases_to!(*op_ty => op_ty.read->Variant_fields@));
            match try_render_all(mir, fields) {
                Some(docs) => {
                    let mut o = tagged("enum");
                    put(&mut o, "variant", number_value(*variant as u64));
                    put(&mut o, "fields", docs);
                    Some(object_value(o))
                },
                None => None,
            }
        },
        (TyKind::Array(ety, size), OpRead::Fields(elements)) => {
            if elements.len() != get_const_usize(tcx, *size) {
                return unreached();
            }
            assert(decreases_to!(*op_ty => op_ty.read->Fields_0@));
            let docs = render_each(mir, elements);
            let mut o = tagged("array");
            let element_ty = ty_json(*ety, mir);
            put(&mut o, "element_ty", element_ty);
            put(&mut o, "elements", docs);
            Some(object_value(o))
        },
        // Similar to a reference in some ways.
        (TyKind::RawPtr(rty, mutability), _) => try_render_ref_opty(mir, op_ty, *rty, mutability),
        (TyKind::Ref(rty, mutability), _) => try_render_ref_opty(mir, op_ty, *rty, mutability),
        (TyKind::FnDef(_, _), _) => Some(object_value(tagged("zst"))),
        (TyKind::FnPtr(_), OpRead::FnPtr(alloc)) => try_render_fn_ptr(mir, *alloc),
        (TyKind::Closure(upvar_tys), OpRead::Fields(upvars)) => {
            if upvars.len() != upvar_tys.len() {
                return unreached();
            }
            assert(decreases_to!(*op_ty => op_ty.read->Fields_0@));
            match try_render_all(mir, upvars) {
                Some(docs) => {
                    let mut o = tagged("closure");
                    put(&mut o, "upvars", docs);
                    Some(object_value(o))
                },
                None => None,
            }
        },
        (TyKind::Tuple(elts), OpRead::Fields(fields)) => {
            if fields.len() != elts.len() {
                return unreached();
            }
            assert(decreases_to!(*op_ty => op_ty.read->Fields_0@));
            let docs = render_shown(mir, fields);
            let mut o = tagged("tuple");
            put(&mut o, "elements", docs);
            Some(object_value(o))
        },
        _ => unreached(),
    }
}

/// The static for memory behind a pointer to an `rty`.
fn make_allocation_body(mir: &mut MirState<'_>, rty: Ty, d: &PlaceValue, is_mut: bool) -> (v: Value)
    requires
        old(mir).wf(),
        old(mir).tcx.has_ty(rty),
        body_ok(old(mir).tcx, rty, *d, is_mut, old(mir)@),
    ensures
        final(mir).wf(),
        final(mir).tcx == old(mir).tcx,
        json_of(v) == body_doc(old(mir).tcx, rty, *d, is_mut),
        final(mir)@ == body_after(old(mir).tcx, rty, *d, is_mut, old(mir)@),
    decreases *d, 0nat,
{
    let tcx = mir.tcx;
    if !is_mut {
        // Special cases for strings and slices.  These and the ones in `try_render_ref_opty`
        // are kept in sync.
        match (tcx.kind(rty), &d.contents) {
            (TyKind::Str, Contents::Bytes(mem)) => {
                let len: u64 = match mplace_ty_len(&d.place, tcx) {
                    Ok(len) => len,
                    Err(_) => unreached(),
                };
                if mem.len() as u64 != len {
                    return unreached();
                }
                // The corresponding array type for the contents.
                let aty = match tcx.array_tys.get(&(tcx.u8_ty, len)) {
                    Some(aty) => *aty,
                    None => unreached(),
                };
                let mut rendered = tagged("strbody");
                put(&mut rendered, "elements", bytes_json(mem));
                put(&mut rendered, "len", number_value(len));
                return static_json(mir, aty, object_value(rendered));
            },
            (TyKind::Slice(slice_ty), Contents::Elements(elements)) => {
                let slice_len: u64 = match mplace_ty_len(&d.place, tcx) {
                    Ok(len) => len,
                    Err(_) => unreached(),
                };
                if elements.len() as u64 != slice_len {
                    return unreached();
                }
                assert(decreases_to!(*d => d.contents->Elements_0@));
                let elt_values = render_each(mir, elements);
                // The corresponding array type for the contents.
                let aty = match tcx.array_tys.get(&(*slice_ty, slice_len)) {
                    Some(aty) => *aty,
                    None => unreached(),
                };
                let mut rendered = tagged("array");
                put(&mut rendered, "elements", elt_values);
                put(&mut rendered, "len", number_value(slice_len));
                return static_json(mir, aty, object_value(rendered));
            },
            _ => {},
        }
    }
    match &d.contents {
        Contents::Whole(op) => {
            if op.ty != rty {
                return unreached();
            }
            let rendered = try_render_opty(mir, op);
            static_json(mir, rty, option_value(rendered))
        },
        _ => unreached(),
    }
}

/// The JSON form of a reference or a raw pointer to an `rty`, if it has one.
pub fn try_render_ref_opty(
    mir: &mut MirState<'_>,
    op_ty: &OpValue,
    rty: Ty,
    mutability: &Mutability,
) -> (v: Option<Value>)
    requires
        old(mir).wf(),
        old(mir).tcx.has_ty(rty),
        ref_ok(old(mir).tcx, *op_ty, rty, *mutability, old(mir)@),
    ensures
        final(mir).wf(),
        final(mir).tcx == old(mir).tcx,
        v is Some <==> ref_doc(old(mir).tcx, *op_ty, rty, *mutability) is Some,
        v matches Some(v) ==> Some(json_of(v)) == ref_doc(
            old(mir).tcx,
            *op_ty,
            rty,
            *mutability,
        ),
        final(mir)@ == ref_after(old(mir).tcx, *op_ty, rty, *mutability, old(mir)@),
    decreases *op_ty, 1nat,
{
    let tcx = mir.tcx;
    let d: &PlaceValue = match &op_ty.read {
        // Special case for null pointers.
        OpRead::Addr { offset, has_meta } => {
            if *has_meta {
                return unreached();
            }
            let mut o = tagged("raw_ptr");
            put(&mut o, "val", string_value(dec_text(*offset as u128)));
            return Some(object_value(o));
        },
        OpRead::Place(d) => &**d,
        _ => unreached(),
    };
    // References into the middle of an allocation are not handled.
    if d.place.ptr.offset != 0 {
        return unreached();
    }
    let is_mut = mutability.is_mut;
    let a = d.place.ptr.alloc;
    assert(tcx.alloc_of(a) == tcx.allocs@[a.0 as int]);
    let def_id_json = match tcx.allocs[a.0] {
        Some(GlobalAlloc::Static(def_id)) => string_value(def_id_str(tcx, def_id)),
        Some(GlobalAlloc::Memory(ca)) => {
            let ty = op_ty.ty;
            let known = match mir.alloc_id(ca, ty) {
                Some(id) => Some(id.clone()),
                None => None,
            };
            match known {
                Some(id) => string_value(id),
                None => {
                    // Create the allocation.
                    let body = make_allocation_body(mir, rty, d, is_mut);
                    string_value(mir.insert_alloc(ca, ty, body))
                },
            }
        },
        // Give up.
        _ => return None,
    };
    if !is_mut {
        // Special cases for strings and slices.  These and the ones in `make_allocation_body`
        // are kept in sync.
        match tcx.kind(rty) {
            TyKind::Str | TyKind::Slice(_) => {
                let len: u64 = match mplace_ty_len(&d.place, tcx) {
                    Ok(len) => len,
                    Err(_) => unreached(),
                };
                let mut o = tagged("slice");
                put(&mut o, "def_id", def_id_json);
                put(&mut o, "len", number_value(len));
                return Some(object_value(o));
            },
            _ => {},
        }
    }
    let mut o = tagged("static_ref");
    put(&mut o, "def_id", def_id_json);
    Some(object_value(o))
}

} // verus!
