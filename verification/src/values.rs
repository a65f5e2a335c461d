//! The JSON forms of constant values, and what showing them does to the state.

use crate::ctxt::AllocId;
use crate::ctxt::Contents;
use crate::ctxt::GlobalAlloc;
use crate::ctxt::MPlaceTy;
use crate::ctxt::Mutability;
use crate::ctxt::OpRead;
use crate::ctxt::OpValue;
use crate::ctxt::PlaceValue;
use crate::ctxt::Scalar;
use crate::ctxt::Ty;
use crate::ctxt::TyCtxt;
use crate::ctxt::TyKind;
use crate::docs::const_ok;
use crate::docs::const_usize;
use crate::docs::def_doc;
use crate::docs::inst_doc;
use crate::docs::inst_ok;
use crate::docs::inst_refs;
use crate::docs::refs_ok;
use crate::docs::text;
use crate::docs::ty_ref;
use crate::docs::Refs;
use crate::json::Json;
use crate::state::record;
use crate::state::Mir;
use crate::text::dec;
use crate::text::signed_dec;
use crate::text::two_complement;
use vstd::arithmetic::power2::pow2;
use vstd::prelude::*;

verus! {

// ---- Lengths ----

/// The length that the metadata of a pointer gives.
pub open spec fn machine_usize(tcx: &TyCtxt, s: Scalar) -> Option<u64> {
    match s {
        Scalar::Int(i) if i.size == tcx.pointer_size => Some(i.data as u64),
        _ => None,
    }
}

/// How many elements a place holds: for a slice or a `str` by the metadata of the pointer,
/// where that is a number, otherwise by the layout.
pub open spec fn place_len(tcx: &TyCtxt, place: MPlaceTy) -> Option<u64> {
    if place.is_unsized {
        machine_usize(tcx, place.meta->0)
    } else {
        Some(place.fields->count)
    }
}

/// The place is of a type that has a length.
pub open spec fn has_len(tcx: &TyCtxt, place: MPlaceTy) -> bool {
    if place.is_unsized {
        &&& tcx.has_ty(place.ty)
        &&& tcx.kind_of(place.ty) is Slice || tcx.kind_of(place.ty) is Str
        &&& place.meta matches Some(s)
        &&& s matches Scalar::Int(i) ==> i.size == tcx.pointer_size ==> i.data <= u64::MAX
    } else {
        place.fields is Array
    }
}

// ---- Scalars ----

/// A scalar: what it is, its size in bytes and its value.
pub open spec fn scalar_doc(kind: &str, size: u64, val: Seq<char>) -> Json {
    Json::Obj(
        map!["kind"@ => text(kind), "size"@ => Json::Num(size as nat), "val"@ => Json::Str(val)],
    )
}

/// A truth value, a character or an unsigned integer.
pub open spec fn bits_doc(kind: &str, op: OpValue) -> Json {
    scalar_doc(kind, op.size, dec(op.read->Bits_0 as nat))
}

/// A signed integer.
pub open spec fn int_doc(kind: &str, op: OpValue) -> Json {
    scalar_doc(
        kind,
        op.size,
        signed_dec(two_complement(op.read->Bits_0 as nat, op.size as nat)),
    )
}

/// The bits are those of a signed integer.
pub open spec fn int_ok(op: OpValue) -> bool {
    &&& op.read matches OpRead::Bits(bits)
    &&& 1 <= op.size <= 16
    &&& bits < pow2((8 * op.size) as nat)
}

// ---- Lists of documents ----

/// The documents, if there is one of each.
pub open spec fn all_docs(docs: Seq<Option<Json>>) -> Option<Seq<Json>> {
    if forall|i: int| 0 <= i < docs.len() ==> (#[trigger] docs[i]) is Some {
        Some(docs.map_values(|d: Option<Json>| d->0))
    } else {
        None
    }
}

/// The document, `null` where there is none.
pub open spec fn or_null(d: Option<Json>) -> Json {
    match d {
        Some(d) => d,
        None => Json::Null,
    }
}

/// The documents, `null` where there is none.
pub open spec fn or_nulls(docs: Seq<Option<Json>>) -> Seq<Json> {
    docs.map_values(|d: Option<Json>| or_null(d))
}

/// The document, or a note that there is none.
pub open spec fn shown(d: Option<Json>, debug: Seq<char>) -> Json {
    match d {
        Some(d) => d,
        None => Json::Obj(
            map!["kind"@ => text("unsupported_const"), "debug_val"@ => Json::Str(debug)],
        ),
    }
}

/// The documents of some values, or notes that there are none.
pub open spec fn all_shown(docs: Seq<Option<Json>>, ops: Seq<OpValue>) -> Seq<Json> {
    Seq::new(docs.len(), |i: int| shown(docs[i], ops[i].debug@))
}

/// Bytes as numbers.
pub open spec fn bytes_doc(bytes: Seq<u8>) -> Json {
    Json::Arr(bytes.map_values(|b: u8| Json::Num(b as nat)))
}

// ---- References ----

/// The static that holds what a place is in: a static of the program, or one that is made for
/// the memory.  `None` where the place is in neither.
pub open spec fn holder_doc(tcx: &TyCtxt, ptr_ty: Ty, place: MPlaceTy) -> Option<Json> {
    match tcx.alloc_of(place.ptr.alloc) {
        Some(GlobalAlloc::Static(d)) => Some(def_doc(tcx, d)),
        Some(GlobalAlloc::Memory(ca)) => Some(Json::Str(tcx.alloc_ids@[(ca, ptr_ty)]@)),
        _ => None,
    }
}

/// A pointer to this type is shown with a length.
pub open spec fn is_slice_like(tcx: &TyCtxt, rty: Ty) -> bool {
    tcx.kind_of(rty) is Str || tcx.kind_of(rty) is Slice
}

/// A reference or a raw pointer of type `ptr_ty` to an `rty`.
pub open spec fn ref_doc(
    tcx: &TyCtxt,
    op: OpValue,
    rty: Ty,
    mutability: Mutability,
) -> Option<Json> {
    match op.read {
        OpRead::Place(p) => match holder_doc(tcx, op.ty, p.place) {
            Some(holder) => if !mutability.is_mut && is_slice_like(tcx, rty) {
                Some(
                    Json::Obj(
                        map![
                            "kind"@ => text("slice"),
                            "def_id"@ => holder,
                            "len"@ => Json::Num(place_len(tcx, p.place)->0 as nat),
                        ],
                    ),
                )
            } else {
                Some(Json::Obj(map!["kind"@ => text("static_ref"), "def_id"@ => holder]))
            },
            None => None,
        },
        OpRead::Addr { offset, .. } => Some(
            Json::Obj(
                map!["kind"@ => text("raw_ptr"), "val"@ => Json::Str(dec(offset as nat))],
            ),
        ),
        _ => None,
    }
}

/// The function that a function pointer points to, if it points to something that is known.
pub open spec fn fn_ptr_doc(tcx: &TyCtxt, alloc: Option<AllocId>) -> Option<Json> {
    match alloc {
        Some(a) => match tcx.alloc_of(a) {
            Some(GlobalAlloc::Function(inst)) => Some(
                Json::Obj(
                    map!["kind"@ => text("fn_ptr"), "instance"@ => inst_doc(tcx, inst)],
                ),
            ),
            _ => None,
        },
        None => None,
    }
}

/// The state after a function pointer has been shown.
pub open spec fn fn_ptr_after(tcx: &TyCtxt, alloc: Option<AllocId>, m: Mir) -> Mir {
    match alloc {
        Some(a) => match tcx.alloc_of(a) {
            Some(GlobalAlloc::Function(inst)) => record(
                tcx,
                record(tcx, m, Refs::of_inst(inst)),
                inst_refs(tcx, inst),
            ),
            _ => m,
        },
        None => m,
    }
}

/// A function pointer with provenance points to a function, or to something that is not known
/// any more.
pub open spec fn fn_ptr_ok(tcx: &TyCtxt, alloc: Option<AllocId>) -> bool {
    alloc matches Some(a) ==> {
        &&& tcx.has_alloc(a)
        &&& match tcx.alloc_of(a) {
            Some(GlobalAlloc::Function(inst)) => inst_ok(tcx, inst),
            Some(_) => false,
            None => true,
        }
    }
}

// ---- Values ----

/// The JSON form of a value, if it has one.  A struct, an enum or a closure has one where all
/// its parts have; an array or a tuple always has one.
pub open spec fn op_doc(tcx: &TyCtxt, op: OpValue) -> Option<Json>
    decreases op,
{
    match tcx.kind_of(op.ty) {
        TyKind::Bool => Some(bits_doc("bool", op)),
        TyKind::Char => Some(bits_doc("char", op)),
        TyKind::Uint(u) => Some(
            if u.is_usize {
                bits_doc("usize", op)
            } else {
                bits_doc("uint", op)
            },
        ),
        TyKind::Int(i) => Some(
            if i.is_isize {
                int_doc("isize", op)
            } else {
                int_doc("int", op)
            },
        ),
        TyKind::Float(_) => Some(scalar_doc("float", op.size, op.read->Float_0@)),
        TyKind::Adt(adt, _) => match op.read {
            OpRead::Fields(fields) => match all_docs(op_docs(tcx, fields@)) {
                Some(docs) => Some(
                    Json::Obj(map!["kind"@ => text("struct"), "fields"@ => Json::Arr(docs)]),
                ),
                None => None,
            },
            OpRead::Variant { variant, fields } => match all_docs(op_docs(tcx, fields@)) {
                Some(docs) => Some(
                    Json::Obj(
                        map![
                            "kind"@ => text("enum"),
                            "variant"@ => Json::Num(variant as nat),
                            "fields"@ => Json::Arr(docs),
                        ],
                    ),
                ),
                None => None,
            },
            _ => None,
        },
        TyKind::Array(ety, _) => match op.read {
            OpRead::Fields(elements) => Some(
                Json::Obj(
                    map![
                        "kind"@ => text("array"),
                        "element_ty"@ => ty_ref(tcx, ety),
                        "elements"@ => Json::Arr(or_nulls(op_docs(tcx, elements@))),
                    ],
                ),
            ),
            _ => None,
        },
        TyKind::RawPtr(rty, mutability) => ref_doc(tcx, op, rty, mutability),
        TyKind::Ref(rty, mutability) => ref_doc(tcx, op, rty, mutability),
        TyKind::FnDef(_, _) => Some(Json::Obj(map!["kind"@ => text("zst")])),
        TyKind::FnPtr(_) => fn_ptr_doc(tcx, op.read->FnPtr_0),
        TyKind::Closure(_) => match op.read {
            OpRead::Fields(upvars) => match all_docs(op_docs(tcx, upvars@)) {
                Some(docs) => Some(
                    Json::Obj(map!["kind"@ => text("closure"), "upvars"@ => Json::Arr(docs)]),
                ),
                None => None,
            },
            _ => None,
        },
        TyKind::Tuple(_) => match op.read {
            OpRead::Fields(fields) => Some(
                Json::Obj(
                    map![
                        "kind"@ => text("tuple"),
                        "elements"@ => Json::Arr(
                            all_shown(op_docs(tcx, fields@), fields@),
                        ),
                    ],
                ),
            ),
            _ => None,
        },
        _ => None,
    }
}

/// The JSON forms of values, where they have one.
pub open spec fn op_docs(tcx: &TyCtxt, ops: Seq<OpValue>) -> Seq<Option<Json>>
    decreases ops,
{
    if ops.len() == 0 {
        Seq::empty()
    } else {
        seq![op_doc(tcx, ops[0])] + op_docs(tcx, ops.drop_first())
    }
}

/// The JSON form of a value, or a note that it has none.
pub open spec fn op_shown(tcx: &TyCtxt, op: OpValue) -> Json {
    shown(op_doc(tcx, op), op.debug@)
}

/// A static that holds `rendered`, of type `ty`.
pub open spec fn static_doc(tcx: &TyCtxt, ty: Ty, rendered: Json) -> Json {
    Json::Obj(
        map![
            "kind"@ => text("constant"),
            "mutable"@ => Json::Bool(false),
            "ty"@ => ty_ref(tcx, ty),
            "rendered"@ => rendered,
        ],
    )
}

/// The static that is made for memory behind a pointer to an `rty`: for a `str` or a slice that
/// cannot be written, an array of as many bytes or elements as the pointer says.
pub open spec fn body_doc(tcx: &TyCtxt, rty: Ty, p: PlaceValue, is_mut: bool) -> Json {
    let len = place_len(tcx, p.place)->0;
    if !is_mut && tcx.kind_of(rty) is Str {
        static_doc(
            tcx,
            tcx.array_tys@[(tcx.u8_ty, len)],
            Json::Obj(
                map![
                    "kind"@ => text("strbody"),
                    "elements"@ => bytes_doc(p.contents->Bytes_0@),
                    "len"@ => Json::Num(len as nat),
                ],
            ),
        )
    } else if !is_mut && tcx.kind_of(rty) is Slice {
        static_doc(
            tcx,
            tcx.array_tys@[(tcx.kind_of(rty)->Slice_0, len)],
            Json::Obj(
                map![
                    "kind"@ => text("array"),
                    "elements"@ => Json::Arr(or_nulls(op_docs(tcx, p.contents->Elements_0@))),
                    "len"@ => Json::Num(len as nat),
                ],
            ),
        )
    } else {
        static_doc(tcx, rty, or_null(op_doc(tcx, p.contents->Whole_0)))
    }
}

// ---- What showing a value does ----

/// The state after a value has been shown.
pub open spec fn op_after(tcx: &TyCtxt, op: OpValue, m: Mir) -> Mir
    decreases op, 1nat,
{
    match tcx.kind_of(op.ty) {
        TyKind::Adt(_, _) => match op.read {
            OpRead::Fields(fields) => ops_after(tcx, fields@, true, m),
            OpRead::Variant { fields, .. } => ops_after(tcx, fields@, true, m),
            _ => m,
        },
        TyKind::Array(ety, _) => match op.read {
            OpRead::Fields(elements) => record(
                tcx,
                ops_after(tcx, elements@, false, m),
                Refs::of_ty(ety),
            ),
            _ => m,
        },
        TyKind::RawPtr(rty, mutability) => ref_after(tcx, op, rty, mutability, m),
        TyKind::Ref(rty, mutability) => ref_after(tcx, op, rty, mutability, m),
        TyKind::FnPtr(_) => fn_ptr_after(tcx, op.read->FnPtr_0, m),
        TyKind::Closure(_) => match op.read {
            OpRead::Fields(upvars) => ops_after(tcx, upvars@, true, m),
            _ => m,
        },
        TyKind::Tuple(_) => match op.read {
            OpRead::Fields(fields) => ops_after(tcx, fields@, false, m),
            _ => m,
        },
        _ => m,
    }
}

/// The state after values have been shown one after the other: where all are `needed`, up to
/// the first that has no JSON form.
pub open spec fn ops_after(tcx: &TyCtxt, ops: Seq<OpValue>, needed: bool, m: Mir) -> Mir
    decreases ops, 0nat,
{
    if ops.len() == 0 {
        m
    } else if needed && op_doc(tcx, ops[0]) is None {
        op_after(tcx, ops[0], m)
    } else {
        ops_after(tcx, ops.drop_first(), needed, op_after(tcx, ops[0], m))
    }
}

/// The state after a reference or a raw pointer has been shown: a static is made for memory
/// that has none yet.
pub open spec fn ref_after(
    tcx: &TyCtxt,
    op: OpValue,
    rty: Ty,
    mutability: Mutability,
    m: Mir,
) -> Mir
    decreases op, 0nat,
{
    match op.read {
        OpRead::Place(p) => match tcx.alloc_of(p.place.ptr.alloc) {
            Some(GlobalAlloc::Memory(ca)) => if m.allocs.dom().contains((ca, op.ty)) {
                m
            } else {
                let body = body_doc(tcx, rty, *p, mutability.is_mut);
                let after = body_after(tcx, rty, *p, mutability.is_mut, m);
                Mir { allocs: after.allocs.insert((ca, op.ty), body), ..after }
            },
            _ => m,
        },
        _ => m,
    }
}

/// The state after the static for memory behind a pointer has been shown.
pub open spec fn body_after(tcx: &TyCtxt, rty: Ty, p: PlaceValue, is_mut: bool, m: Mir) -> Mir
    decreases p, 0nat,
{
    let len = place_len(tcx, p.place)->0;
    if !is_mut && tcx.kind_of(rty) is Str {
        record(tcx, m, Refs::of_ty(tcx.array_tys@[(tcx.u8_ty, len)]))
    } else if !is_mut && tcx.kind_of(rty) is Slice {
        match p.contents {
            Contents::Elements(elements) => record(
                tcx,
                ops_after(tcx, elements@, false, m),
                Refs::of_ty(tcx.array_tys@[(tcx.kind_of(rty)->Slice_0, len)]),
            ),
            _ => m,
        }
    } else {
        match p.contents {
            Contents::Whole(op) => record(tcx, op_after(tcx, op, m), Refs::of_ty(rty)),
            _ => m,
        }
    }
}

// ---- Which values can be shown ----

/// A value can be shown in a state: its type is one that values have, what was read of it is
/// what the type asks for, and its parts can be shown one after the other.
pub open spec fn op_ok(tcx: &TyCtxt, op: OpValue, m: Mir) -> bool
    decreases op, 1nat,
{
    &&& tcx.has_ty(op.ty)
    &&& match tcx.kind_of(op.ty) {
        TyKind::Bool => op.read is Bits,
        TyKind::Char => op.read is Bits,
        TyKind::Uint(_) => op.read is Bits,
        TyKind::Int(_) => int_ok(op),
        TyKind::Float(_) => op.read is Float,
        TyKind::Adt(adt, _) => match op.read {
            OpRead::Fields(fields) => {
                &&& tcx.adt_data(adt).kind is Struct
                &&& tcx.adt_data(adt).variants.len() == 1
                &&& tcx.adt_data(adt).variants@[0].fields.len() == fields.len()
                &&& ops_ok(tcx, fields@, true, m)
            },
            OpRead::Variant { variant, fields } => {
                &&& tcx.adt_data(adt).kind is Enum
                &&& variant < tcx.adt_data(adt).variants.len()
                &&& tcx.adt_data(adt).variants@[variant as int].fields.len() == fields.len()
                &&& ops_ok(tcx, fields@, true, m)
            },
            _ => false,
        },
        TyKind::Array(ety, size) => match op.read {
            OpRead::Fields(elements) => {
                &&& const_ok(tcx, size)
                &&& elements.len() == const_usize(size)
                &&& ops_ok(tcx, elements@, false, m)
                &&& refs_ok(tcx, Refs::of_ty(ety))
            },
            _ => false,
        },
        TyKind::RawPtr(rty, mutability) => ref_ok(tcx, op, rty, mutability, m),
        TyKind::Ref(rty, mutability) => ref_ok(tcx, op, rty, mutability, m),
        TyKind::FnDef(_, _) => true,
        TyKind::FnPtr(_) => {
            &&& op.read matches OpRead::FnPtr(alloc)
            &&& fn_ptr_ok(tcx, alloc)
        },
        TyKind::Closure(upvar_tys) => match op.read {
            OpRead::Fields(upvars) => {
                &&& upvar_tys.len() == upvars.len()
                &&& ops_ok(tcx, upvars@, true, m)
            },
            _ => false,
        },
        TyKind::Tuple(tys) => match op.read {
            OpRead::Fields(fields) => {
                &&& tys.len() == fields.len()
                &&& ops_ok(tcx, fields@, false, m)
            },
            _ => false,
        },
        _ => false,
    }
}

/// Values can be shown one after the other: where all are `needed`, up to the first that has no
/// JSON form.
pub open spec fn ops_ok(tcx: &TyCtxt, ops: Seq<OpValue>, needed: bool, m: Mir) -> bool
    decreases ops, 0nat,
{
    if ops.len() == 0 {
        true
    } else {
        &&& op_ok(tcx, ops[0], m)
        &&& needed && op_doc(tcx, ops[0]) is None || ops_ok(
            tcx,
            ops.drop_first(),
            needed,
            op_after(tcx, ops[0], m),
        )
    }
}

/// A reference or a raw pointer can be shown: it points to the start of its allocation, and the
/// static for memory that has none yet can be shown.
pub open spec fn ref_ok(
    tcx: &TyCtxt,
    op: OpValue,
    rty: Ty,
    mutability: Mutability,
    m: Mir,
) -> bool
    decreases op, 0nat,
{
    match op.read {
        OpRead::Addr { has_meta, .. } => !has_meta,
        OpRead::Place(p) => {
            let holder = tcx.alloc_of(p.place.ptr.alloc);
            &&& p.place.ptr.offset == 0
            &&& tcx.has_alloc(p.place.ptr.alloc)
            &&& match holder {
                Some(GlobalAlloc::Memory(ca)) => m.allocs.dom().contains((ca, op.ty)) || {
                    &&& tcx.alloc_ids@.dom().contains((ca, op.ty))
                    &&& body_ok(tcx, rty, *p, mutability.is_mut, m)
                },
                _ => true,
            }
            &&& holder is Some && (holder->0 is Static || holder->0 is Memory)
                && !mutability.is_mut && is_slice_like(tcx, rty) ==> {
                &&& has_len(tcx, p.place)
                &&& place_len(tcx, p.place) is Some
            }
        },
        _ => false,
    }
}

/// The static for memory behind a pointer can be shown.
pub open spec fn body_ok(tcx: &TyCtxt, rty: Ty, p: PlaceValue, is_mut: bool, m: Mir) -> bool
    decreases p, 0nat,
{
    let len = place_len(tcx, p.place)->0;
    if !is_mut && tcx.kind_of(rty) is Str {
        &&& has_len(tcx, p.place)
        &&& place_len(tcx, p.place) is Some
        &&& p.contents matches Contents::Bytes(bytes)
        &&& bytes.len() == len
        &&& tcx.array_tys@.dom().contains((tcx.u8_ty, len))
        &&& refs_ok(tcx, Refs::of_ty(tcx.array_tys@[(tcx.u8_ty, len)]))
    } else if !is_mut && tcx.kind_of(rty) is Slice {
        let ety = tcx.kind_of(rty)->Slice_0;
        &&& has_len(tcx, p.place)
        &&& place_len(tcx, p.place) is Some
        &&& match p.contents {
            Contents::Elements(elements) => {
                &&& elements.len() == len
                &&& ops_ok(tcx, elements@, false, m)
            },
            _ => false,
        }
        &&& tcx.array_tys@.dom().contains((ety, len))
        &&& refs_ok(tcx, Refs::of_ty(tcx.array_tys@[(ety, len)]))
    } else {
        &&& match p.contents {
            Contents::Whole(op) => op.ty == rty && op_ok(tcx, op, m),
            _ => false,
        }
        &&& refs_ok(tcx, Refs::of_ty(rty))
    }
}

/// The JSON form of each of some values.
pub proof fn lemma_op_docs(tcx: &TyCtxt, ops: Seq<OpValue>)
    ensures
        op_docs(tcx, ops).len() == ops.len(),
        forall|i: int| 0 <= i < ops.len() ==> #[trigger] op_docs(tcx, ops)[i] == op_doc(tcx, ops[i]),
    decreases ops.len(),
{
    if ops.len() > 0 {
        lemma_op_docs(tcx, ops.drop_first());
        let rest = op_docs(tcx, ops.drop_first());
        assert forall|i: int| 0 <= i < ops.len() implies #[trigger] op_docs(tcx, ops)[i] == op_doc(
            tcx,
            ops[i],
        ) by {
            if i > 0 {
                assert(op_docs(tcx, ops)[i] == rest[i - 1]);
                assert(ops.drop_first()[i - 1] == ops[i]);
            }
        }
    }
}

} // verus!
