//! What constant values show, and what showing them does.

use crate::consts::constant_value;
use crate::consts::opty_of;
use crate::consts::Constant;
use crate::consts::ConstantKind;
use crate::ctxt::AllocId;
use crate::ctxt::Const;
use crate::ctxt::ConstAllocation;
use crate::ctxt::ConstKind;
use crate::ctxt::ConstValue;
use crate::ctxt::Contents;
use crate::ctxt::FieldsShape;
use crate::ctxt::GlobalAlloc;
use crate::ctxt::Immediate;
use crate::ctxt::IntTy;
use crate::ctxt::MPlaceTy;
use crate::ctxt::Mutability;
use crate::ctxt::OpRead;
use crate::ctxt::OpValue;
use crate::ctxt::Operand;
use crate::ctxt::PlaceValue;
use crate::ctxt::Scalar;
use crate::ctxt::ScalarInt;
use crate::ctxt::Ty;
use crate::ctxt::TyCtxt;
use crate::ctxt::TyKind;
use crate::ctxt::Unevaluated;
use crate::ctxt::ValTree;
use crate::docs::const_usize;
use crate::docs::def_text;
use crate::docs::Refs;
use crate::json::Json;
use crate::laws::law_two_complement;
use crate::laws::needed_parts;
use crate::reading::digit_value;
use crate::reading::entry;
use crate::reading::has_keys;
use crate::reading::is_decimal;
use crate::reading::is_integer;
use crate::reading::law_decimal;
use crate::reading::law_integer;
use crate::reading::lemma_keys;
use crate::reading::shows;
use crate::state::lemma_closure_empty;
use crate::state::lemma_record_no_types;
use crate::state::record;
use crate::state::Mir;
use crate::text::two_complement;
use crate::to_json::ToJson;
use crate::type_laws::id;
use crate::type_laws::is_bare;
use crate::values::all_docs;
use crate::values::body_after;
use crate::values::body_doc;
use crate::values::lemma_op_docs;
use crate::values::op_after;
use crate::values::op_doc;
use crate::values::op_docs;
use crate::values::op_shown;
use crate::values::ops_after;
use crate::values::place_len;
use crate::values::ref_after;
use crate::values::ref_doc;
use vstd::arithmetic::power2::lemma2_to64;
use vstd::arithmetic::power2::lemma_pow2_adds;
use vstd::arithmetic::power2::lemma_pow2_pos;
use vstd::arithmetic::power2::pow2;
use vstd::prelude::*;

verus! {

// ---- Scalars ----

/// The form of a scalar: what it is, and its size in bytes.
pub open spec fn is_scalar(j: Json, kind: &str, size: u64) -> bool {
    &&& has_keys(j, set!["kind"@, "size"@, "val"@])
    &&& shows(j, "kind", Json::Str(kind@))
    &&& shows(j, "size", Json::Num(size as nat))
}

/// A truth value, a character or an unsigned integer shows its bits as a decimal number.
pub proof fn law_unsigned_value(tcx: &TyCtxt, op: OpValue, bits: u128)
    requires
        op.read == OpRead::Bits(bits),
        tcx.kind_of(op.ty) is Bool || tcx.kind_of(op.ty) is Char || tcx.kind_of(op.ty) is Uint,
    ensures
        ({
            &&& op_doc(tcx, op) matches Some(j)
            &&& tcx.kind_of(op.ty) is Bool ==> is_scalar(j, "bool", op.size)
            &&& tcx.kind_of(op.ty) is Char ==> is_scalar(j, "char", op.size)
            &&& tcx.kind_of(op.ty) matches TyKind::Uint(u) ==> is_scalar(
                j,
                if u.is_usize {
                    "usize"
                } else {
                    "uint"
                },
                op.size,
            )
            &&& entry(j, "val") matches Json::Str(val)
            &&& is_decimal(val, bits as nat)
        }),
{
    lemma_keys();
    law_decimal(bits as nat);
}

/// The integer that bits stand for in two's complement is the one of its range that they are
/// modulo the range.
proof fn lemma_two_complement_unique(bits: nat, bytes: nat, v: int)
    requires
        1 <= bytes,
        bits < pow2(8 * bytes),
        -pow2((8 * bytes - 1) as nat) <= v < pow2((8 * bytes - 1) as nat),
        (v - bits) % (pow2(8 * bytes) as int) == 0,
    ensures
        v == two_complement(bits, bytes),
{
    lemma_pow2_adds(1, (8 * bytes - 1) as nat);
    lemma2_to64();
    let range = pow2(8 * bytes) as int;
    let half = pow2((8 * bytes - 1) as nat) as int;
    assert(range == 2 * half);
    let q = (v - bits) / range;
    vstd::arithmetic::div_mod::lemma_fundamental_div_mod(v - bits, range);
    assert(v - bits == range * q);
    assert(-(range + half) < range * q < half + 1);
    if q >= 1 {
        assert(range * q >= range) by (nonlinear_arith)
            requires
                q >= 1,
                range >= 0,
        ;
    }
    if q <= -2 {
        assert(range * q <= -2 * range) by (nonlinear_arith)
            requires
                q <= -2,
                range >= 0,
        ;
    }
    assert(q == 0 || q == -1);
    assert(range * 0 == 0 && range * (-1) == -range) by (nonlinear_arith);
}

/// A signed integer, `isize` included, shows the one integer of the range of its size that its
/// bits are modulo the range.
pub proof fn law_signed_value(tcx: &TyCtxt, op: OpValue, i: IntTy, bits: u128, v: int)
    requires
        tcx.kind_of(op.ty) == TyKind::Int(i),
        op.read == OpRead::Bits(bits),
        1 <= op.size <= 16,
        bits < pow2((8 * op.size) as nat),
        -pow2((8 * op.size - 1) as nat) <= v < pow2((8 * op.size - 1) as nat),
        (v - bits) % (pow2((8 * op.size) as nat) as int) == 0,
    ensures
        ({
            &&& op_doc(tcx, op) matches Some(j)
            &&& is_scalar(
                j,
                if i.is_isize {
                    "isize"
                } else {
                    "int"
                },
                op.size,
            )
            &&& entry(j, "val") matches Json::Str(val)
            &&& is_integer(val, v)
        }),
{
    lemma_keys();
    lemma_two_complement_unique(bits as nat, op.size as nat, v);
    law_integer(v);
}

/// A signed integer begins with a minus sign exactly where its highest bit is set, and there is
/// an integer that it shows.
pub proof fn law_sign(tcx: &TyCtxt, op: OpValue, i: IntTy, bits: u128) -> (v: int)
    requires
        tcx.kind_of(op.ty) == TyKind::Int(i),
        op.read == OpRead::Bits(bits),
        1 <= op.size <= 16,
        bits < pow2((8 * op.size) as nat),
    ensures
        -pow2((8 * op.size - 1) as nat) <= v < pow2((8 * op.size - 1) as nat),
        (v - bits) % (pow2((8 * op.size) as nat) as int) == 0,
        v < 0 <==> bits >= pow2((8 * op.size - 1) as nat),
        ({
            &&& op_doc(tcx, op) matches Some(j)
            &&& entry(j, "val") matches Json::Str(val)
            &&& is_integer(val, v)
            &&& val[0] == '-' <==> bits >= pow2((8 * op.size - 1) as nat)
        }),
{
    let bytes = op.size as nat;
    let v = two_complement(bits as nat, bytes);
    let range = pow2(8 * bytes) as int;
    lemma_pow2_pos(8 * bytes);
    law_two_complement(bits as nat, bytes);
    lemma_pow2_adds(1, (8 * bytes - 1) as nat);
    lemma2_to64();
    if v == bits {
        assert((v - bits) % range == 0) by (nonlinear_arith)
            requires
                v == bits,
                range > 0,
        ;
    } else {
        assert(v - bits == -range);
        assert((-range) % range == 0) by (nonlinear_arith)
            requires
                range > 0,
        ;
    }
    law_signed_value(tcx, op, i, bits, v);
    let val = entry(op_doc(tcx, op)->0, "val")->Str_0;
    if v >= 0 {
        assert(digit_value(val[0]) >= 0);
    }
    v
}

/// A floating point number shows its text, and the value of a function item that it has no size.
pub proof fn law_other_scalars(tcx: &TyCtxt, op: OpValue)
    ensures
        tcx.kind_of(op.ty) is Float ==> (op.read matches OpRead::Float(txt) ==> ({
            &&& op_doc(tcx, op) matches Some(j)
            &&& is_scalar(j, "float", op.size)
            &&& shows(j, "val", Json::Str(txt@))
        })),
        tcx.kind_of(op.ty) is FnDef ==> ({
            &&& op_doc(tcx, op) matches Some(j)
            &&& is_bare(j, "zst")
        }),
{
    lemma_keys();
}

/// Showing a scalar changes nothing.
pub proof fn law_scalars_change_nothing(tcx: &TyCtxt, op: OpValue, m: Mir)
    requires
        match tcx.kind_of(op.ty) {
            TyKind::Bool => true,
            TyKind::Char => true,
            TyKind::Uint(_) => true,
            TyKind::Int(_) => true,
            TyKind::Float(_) => true,
            TyKind::FnDef(_, _) => true,
            _ => false,
        },
    ensures
        op_after(tcx, op, m) == m,
{
}

// ---- Values with parts ----

/// The document holds the documents of all parts under `key`, in their order.
pub open spec fn shows_parts(j: Json, key: &str, tcx: &TyCtxt, parts: Seq<OpValue>) -> bool {
    &&& j->Obj_0.dom().contains(key@)
    &&& entry(j, key) matches Json::Arr(docs)
    &&& docs.len() == parts.len()
    &&& forall|i: int|
        0 <= i < parts.len() ==> Some(#[trigger] docs[i]) == op_doc(tcx, parts[i])
}

/// A struct, the variant of an enum or a closure shows all its parts in their order, where each
/// has a form, and has none itself otherwise.
pub proof fn law_needed_parts(tcx: &TyCtxt, op: OpValue)
    requires
        needed_parts(tcx, op) is Some,
    ensures
        ({
            let parts = needed_parts(tcx, op)->0;
            match op_doc(tcx, op) {
                Some(j) => match (tcx.kind_of(op.ty), op.read) {
                    (TyKind::Adt(_, _), OpRead::Variant { variant, .. }) => {
                        &&& has_keys(j, set!["kind"@, "variant"@, "fields"@])
                        &&& shows(j, "kind", Json::Str("enum"@))
                        &&& shows(j, "variant", Json::Num(variant as nat))
                        &&& shows_parts(j, "fields", tcx, parts)
                    },
                    (TyKind::Adt(_, _), _) => {
                        &&& has_keys(j, set!["kind"@, "fields"@])
                        &&& shows(j, "kind", Json::Str("struct"@))
                        &&& shows_parts(j, "fields", tcx, parts)
                    },
                    _ => {
                        &&& has_keys(j, set!["kind"@, "upvars"@])
                        &&& shows(j, "kind", Json::Str("closure"@))
                        &&& shows_parts(j, "upvars", tcx, parts)
                    },
                },
                None => exists|i: int|
                    0 <= i < parts.len() && op_doc(tcx, #[trigger] parts[i]) is None,
            }
        }),
{
    lemma_keys();
    let parts = needed_parts(tcx, op)->0;
    lemma_op_docs(tcx, parts);
    let docs = op_docs(tcx, parts);
    if all_docs(docs) is Some {
        assert forall|i: int| 0 <= i < parts.len() implies Some(
            #[trigger] all_docs(docs)->0[i],
        ) == op_doc(tcx, parts[i]) by {
            assert(docs[i] is Some);
        }
    } else {
        let i = choose|i: int| 0 <= i < docs.len() && !((#[trigger] docs[i]) is Some);
        assert(op_doc(tcx, parts[i]) is None);
    }
}

/// An array shows the ID of its element type and all its elements in their order, `null` for one
/// that has no form.
pub proof fn law_array_value(
    tcx: &TyCtxt,
    op: OpValue,
    elem: Ty,
    n: Const,
    elements: Vec<OpValue>,
)
    requires
        tcx.kind_of(op.ty) == TyKind::Array(elem, n),
        op.read == OpRead::Fields(elements),
    ensures
        ({
            &&& op_doc(tcx, op) matches Some(j)
            &&& has_keys(j, set!["kind"@, "element_ty"@, "elements"@])
            &&& shows(j, "kind", Json::Str("array"@))
            &&& shows(j, "element_ty", id(tcx, elem))
            &&& is_elements(entry(j, "elements"), tcx, elements@)
        }),
{
    lemma_keys();
    lemma_op_docs(tcx, elements@);
}

/// A list with one document for each value, in their order: `null` for one that has no form.
pub open spec fn is_elements(j: Json, tcx: &TyCtxt, ops: Seq<OpValue>) -> bool {
    &&& j matches Json::Arr(docs)
    &&& docs.len() == ops.len()
    &&& forall|i: int|
        0 <= i < ops.len() ==> #[trigger] docs[i] == (match op_doc(tcx, ops[i]) {
            Some(d) => d,
            None => Json::Null,
        })
}

/// A tuple shows all its components in their order, each as it is shown on its own.
pub proof fn law_tuple_value(tcx: &TyCtxt, op: OpValue, fields: Vec<OpValue>)
    requires
        tcx.kind_of(op.ty) is Tuple,
        op.read == OpRead::Fields(fields),
    ensures
        ({
            &&& op_doc(tcx, op) matches Some(j)
            &&& has_keys(j, set!["kind"@, "elements"@])
            &&& shows(j, "kind", Json::Str("tuple"@))
            &&& entry(j, "elements") matches Json::Arr(docs)
            &&& docs.len() == fields.len()
            &&& forall|i: int|
                0 <= i < fields.len() ==> #[trigger] docs[i] == op_shown(tcx, fields@[i])
        }),
{
    lemma_keys();
    lemma_op_docs(tcx, fields@);
}

/// A value that has a form is shown by it; one that has none is noted as such, with its text for
/// debugging.
pub proof fn law_always_shown(tcx: &TyCtxt, op: OpValue)
    ensures
        match op_doc(tcx, op) {
            Some(d) => op_shown(tcx, op) == d,
            None => {
                let j = op_shown(tcx, op);
                &&& has_keys(j, set!["kind"@, "debug_val"@])
                &&& shows(j, "kind", Json::Str("unsupported_const"@))
                &&& shows(j, "debug_val", Json::Str(op.debug@))
            },
        },
{
    lemma_keys();
}

/// The state after the first `n` of some values have been shown one after the other.
pub open spec fn in_turn(tcx: &TyCtxt, ops: Seq<OpValue>, n: nat, m: Mir) -> Mir
    decreases n,
{
    if n == 0 {
        m
    } else {
        op_after(tcx, ops[n - 1], in_turn(tcx, ops, (n - 1) as nat, m))
    }
}

pub proof fn lemma_in_turn_front(tcx: &TyCtxt, ops: Seq<OpValue>, n: nat, m: Mir)
    requires
        n < ops.len(),
    ensures
        in_turn(tcx, ops, n + 1, m) == in_turn(
            tcx,
            ops.drop_first(),
            n,
            op_after(tcx, ops[0], m),
        ),
    decreases n,
{
    if n == 0 {
        assert(in_turn(tcx, ops, 0, m) == m);
    } else {
        lemma_in_turn_front(tcx, ops, (n - 1) as nat, m);
        assert(ops.drop_first()[n - 1] == ops[n as int]);
    }
}

proof fn lemma_in_turn(tcx: &TyCtxt, ops: Seq<OpValue>, needed: bool, n: nat, m: Mir)
    requires
        n <= ops.len(),
        n < ops.len() ==> needed && n > 0 && op_doc(tcx, ops[n - 1]) is None,
        needed ==> forall|i: int|
            0 <= i < n - 1 ==> op_doc(tcx, #[trigger] ops[i]) is Some,
    ensures
        ops_after(tcx, ops, needed, m) == in_turn(tcx, ops, n, m),
    decreases ops.len(),
{
    if ops.len() > 0 {
        let next = op_after(tcx, ops[0], m);
        lemma_in_turn_front(tcx, ops, (n - 1) as nat, m);
        if needed && op_doc(tcx, ops[0]) is None {
            assert(n == 1);
            assert(in_turn(tcx, ops.drop_first(), 0, next) == next);
        } else {
            let rest = ops.drop_first();
            assert forall|i: int| needed && 0 <= i < n - 2 implies op_doc(
                tcx,
                #[trigger] rest[i],
            ) is Some by {
                assert(rest[i] == ops[i + 1]);
            }
            if n == 1 {
                assert(ops.len() == 1);
            } else if n < ops.len() {
                assert(rest[n - 2] == ops[n - 1]);
            }
            lemma_in_turn(tcx, rest, needed, (n - 1) as nat, next);
        }
    }
}

/// The parts of a struct, of the variant of an enum or of a closure are shown one after the
/// other: all of them where all have a form, otherwise those up to the first that has none.
pub proof fn law_needed_parts_shown(tcx: &TyCtxt, op: OpValue, n: nat, m: Mir)
    requires
        needed_parts(tcx, op) is Some,
        ({
            let parts = needed_parts(tcx, op)->0;
            &&& n <= parts.len()
            &&& n < parts.len() ==> n > 0 && op_doc(tcx, parts[n - 1]) is None
            &&& forall|i: int| 0 <= i < n - 1 ==> op_doc(tcx, #[trigger] parts[i]) is Some
        }),
    ensures
        op_after(tcx, op, m) == in_turn(tcx, needed_parts(tcx, op)->0, n, m),
{
    lemma_in_turn(tcx, needed_parts(tcx, op)->0, true, n, m);
}

/// All elements of an array are shown one after the other, then the element type is; all
/// components of a tuple are shown one after the other.
pub proof fn law_all_parts_shown(tcx: &TyCtxt, op: OpValue, parts: Vec<OpValue>, m: Mir)
    requires
        op.read == OpRead::Fields(parts),
    ensures
        tcx.kind_of(op.ty) matches TyKind::Array(elem, _) ==> op_after(tcx, op, m) == elem.after(
            tcx,
            in_turn(tcx, parts@, parts@.len(), m),
        ),
        tcx.kind_of(op.ty) is Tuple ==> op_after(tcx, op, m) == in_turn(
            tcx,
            parts@,
            parts@.len(),
            m,
        ),
{
    lemma_in_turn(tcx, parts@, false, parts@.len(), m);
}

// ---- Pointers ----

/// A function pointer shows the instance that it points to, which is marked as used and shown;
/// one without provenance, or to something that is not known any more, has no form and changes
/// nothing.
pub proof fn law_fn_ptr(tcx: &TyCtxt, op: OpValue, alloc: Option<AllocId>, m: Mir)
    requires
        tcx.kind_of(op.ty) is FnPtr,
        op.read == OpRead::FnPtr(alloc),
    ensures
        alloc is None ==> op_doc(tcx, op) is None && op_after(tcx, op, m) == m,
        alloc matches Some(a) ==> (tcx.alloc_of(a) is None ==> op_doc(tcx, op) is None && op_after(
            tcx,
            op,
            m,
        ) == m),
        alloc matches Some(a) ==> (tcx.alloc_of(a) matches Some(GlobalAlloc::Function(inst)) ==> ({
            &&& op_doc(tcx, op) matches Some(j)
            &&& has_keys(j, set!["kind"@, "instance"@])
            &&& shows(j, "kind", Json::Str("fn_ptr"@))
            &&& shows(j, "instance", inst.doc(tcx))
            &&& op_after(tcx, op, m) == inst.after(
                tcx,
                (Mir { insts: m.insts.insert(inst), ..m }),
            )
        })),
{
    lemma_keys();
    if let Some(a) = alloc {
        if let Some(GlobalAlloc::Function(inst)) = tcx.alloc_of(a) {
            lemma_closure_empty(tcx);
            lemma_record_no_types(tcx, m, Refs::of_inst(inst));
            let marked = record(tcx, m, Refs::of_inst(inst));
            assert(marked.adts =~= m.adts);
            assert(marked.insts =~= m.insts.insert(inst));
            assert(marked.traits =~= m.traits);
        }
    }
}

/// References and raw pointers are shown in the same way.
pub proof fn law_pointers_alike(
    tcx: &TyCtxt,
    op: OpValue,
    rty: Ty,
    mutability: Mutability,
    m: Mir,
)
    requires
        tcx.kind_of(op.ty) == TyKind::Ref(rty, mutability) || tcx.kind_of(op.ty)
            == TyKind::RawPtr(rty, mutability),
    ensures
        op_doc(tcx, op) == ref_doc(tcx, op, rty, mutability),
        op_after(tcx, op, m) == ref_after(tcx, op, rty, mutability, m),
{
}

/// A pointer without provenance shows its address, and changes nothing.
pub proof fn law_address(
    tcx: &TyCtxt,
    op: OpValue,
    rty: Ty,
    mutability: Mutability,
    offset: u64,
    has_meta: bool,
    m: Mir,
)
    requires
        op.read == (OpRead::Addr { offset, has_meta }),
    ensures
        ({
            &&& ref_doc(tcx, op, rty, mutability) matches Some(j)
            &&& has_keys(j, set!["kind"@, "val"@])
            &&& shows(j, "kind", Json::Str("raw_ptr"@))
            &&& entry(j, "val") matches Json::Str(val)
            &&& is_decimal(val, offset as nat)
        }),
        ref_after(tcx, op, rty, mutability, m) == m,
{
    lemma_keys();
    law_decimal(offset as nat);
}

/// The form of a pointer into a static: which static, and for a pointer to a `str` or a slice
/// that cannot write also the length.
pub open spec fn is_pointer(
    j: Json,
    tcx: &TyCtxt,
    rty: Ty,
    mutability: Mutability,
    place: MPlaceTy,
    holder: Json,
) -> bool {
    if !mutability.is_mut && (tcx.kind_of(rty) is Str || tcx.kind_of(rty) is Slice) {
        &&& has_keys(j, set!["kind"@, "def_id"@, "len"@])
        &&& shows(j, "kind", Json::Str("slice"@))
        &&& shows(j, "def_id", holder)
        &&& shows(j, "len", Json::Num(place_len(tcx, place)->0 as nat))
    } else {
        &&& has_keys(j, set!["kind"@, "def_id"@])
        &&& shows(j, "kind", Json::Str("static_ref"@))
        &&& shows(j, "def_id", holder)
    }
}

/// A pointer into a static of the program shows the name of the static, and changes nothing.  One
/// into memory shows the ID of the static for the memory and the type of the pointer.  Any other
/// has no form, and changes nothing.
pub proof fn law_pointer(
    tcx: &TyCtxt,
    op: OpValue,
    rty: Ty,
    mutability: Mutability,
    p: PlaceValue,
    m: Mir,
)
    requires
        op.read == OpRead::Place(Box::new(p)),
    ensures
        match tcx.alloc_of(p.place.ptr.alloc) {
            Some(GlobalAlloc::Static(d)) => {
                &&& ref_doc(tcx, op, rty, mutability) matches Some(j)
                &&& is_pointer(
                    j,
                    tcx,
                    rty,
                    mutability,
                    p.place,
                    Json::Str(def_text(tcx, d)),
                )
                &&& ref_after(tcx, op, rty, mutability, m) == m
            },
            Some(GlobalAlloc::Memory(ca)) => {
                &&& ref_doc(tcx, op, rty, mutability) matches Some(j)
                &&& is_pointer(
                    j,
                    tcx,
                    rty,
                    mutability,
                    p.place,
                    Json::Str(tcx.alloc_ids@[(ca, op.ty)]@),
                )
            },
            _ => {
                &&& ref_doc(tcx, op, rty, mutability) is None
                &&& ref_after(tcx, op, rty, mutability, m) == m
            },
        },
{
    lemma_keys();
}

/// The form of a static: constant, not mutable, with a type and a value.
pub open spec fn is_static(j: Json, tcx: &TyCtxt, ty: Ty) -> bool {
    &&& has_keys(j, set!["kind"@, "mutable"@, "ty"@, "rendered"@])
    &&& shows(j, "kind", Json::Str("constant"@))
    &&& shows(j, "mutable", Json::Bool(false))
    &&& shows(j, "ty", id(tcx, ty))
}

/// Memory that has a static for the type of a pointer is left alone.  Memory that has none gets
/// one, under the memory and the type of the pointer:
/// - behind a pointer to a `str` that cannot write, an array of its bytes;
/// - behind a pointer to a slice that cannot write, an array of its elements;
/// - behind any other pointer, the value that it points to.
/// What the static holds is shown, then its type is.
pub proof fn law_memory(
    tcx: &TyCtxt,
    op: OpValue,
    rty: Ty,
    mutability: Mutability,
    p: PlaceValue,
    ca: ConstAllocation,
    m: Mir,
)
    requires
        op.read == OpRead::Place(Box::new(p)),
        tcx.alloc_of(p.place.ptr.alloc) == Some(GlobalAlloc::Memory(ca)),
    ensures
        m.allocs.dom().contains((ca, op.ty)) ==> ref_after(tcx, op, rty, mutability, m) == m,
        !m.allocs.dom().contains((ca, op.ty)) ==> ({
            let after = ref_after(tcx, op, rty, mutability, m);
            let made = after.allocs[(ca, op.ty)];
            let r = entry(made, "rendered");
            let len = place_len(tcx, p.place)->0;
            &&& after.allocs.dom().contains((ca, op.ty))
            &&& !mutability.is_mut && tcx.kind_of(rty) is Str ==> {
                let array = tcx.array_tys@[(tcx.u8_ty, len)];
                let shown = array.after(tcx, m);
                &&& is_static(made, tcx, array)
                &&& has_keys(r, set!["kind"@, "elements"@, "len"@])
                &&& shows(r, "kind", Json::Str("strbody"@))
                &&& shows(r, "len", Json::Num(len as nat))
                &&& p.contents matches Contents::Bytes(bytes) ==> ({
                    &&& entry(r, "elements") matches Json::Arr(docs)
                    &&& docs.len() == bytes.len()
                    &&& forall|i: int|
                        0 <= i < docs.len() ==> #[trigger] docs[i] == Json::Num(
                            bytes@[i] as nat,
                        )
                })
                &&& after == (Mir { allocs: shown.allocs.insert((ca, op.ty), made), ..shown })
            }
            &&& !mutability.is_mut && tcx.kind_of(rty) is Slice ==> (
            p.contents matches Contents::Elements(elements) ==> {
                let array = tcx.array_tys@[(tcx.kind_of(rty)->Slice_0, len)];
                let shown = array.after(
                    tcx,
                    in_turn(tcx, elements@, elements@.len(), m),
                );
                &&& is_static(made, tcx, array)
                &&& has_keys(r, set!["kind"@, "elements"@, "len"@])
                &&& shows(r, "kind", Json::Str("array"@))
                &&& shows(r, "len", Json::Num(len as nat))
                &&& is_elements(entry(r, "elements"), tcx, elements@)
                &&& after == (Mir { allocs: shown.allocs.insert((ca, op.ty), made), ..shown })
            })
            &&& mutability.is_mut || !(tcx.kind_of(rty) is Str) && !(tcx.kind_of(rty) is Slice)
                ==> (p.contents matches Contents::Whole(whole) ==> {
                let shown = rty.after(tcx, op_after(tcx, whole, m));
                &&& is_static(made, tcx, rty)
                &&& r == (match op_doc(tcx, whole) {
                    Some(d) => d,
                    None => Json::Null,
                })
                &&& after == (Mir { allocs: shown.allocs.insert((ca, op.ty), made), ..shown })
            })
        }),
{
    lemma_keys();
    let body = body_doc(tcx, rty, p, mutability.is_mut);
    let shown = body_after(tcx, rty, p, mutability.is_mut, m);
    let after = ref_after(tcx, op, rty, mutability, m);
    assert(!m.allocs.dom().contains((ca, op.ty)) ==> after == (Mir {
        allocs: shown.allocs.insert((ca, op.ty), body),
        ..shown
    }));
    if let Contents::Elements(elements) = p.contents {
        lemma_op_docs(tcx, elements@);
        lemma_in_turn(tcx, elements@, false, elements@.len(), m);
    }
}

/// The length of a place: for a slice or a `str` the number that the pointer carries, where that
/// is one of the size of a pointer; for all else the count of its layout.
pub proof fn law_place_length(tcx: &TyCtxt, place: MPlaceTy)
    ensures
        place.is_unsized ==> (place.meta matches Some(Scalar::Int(i)) ==> if i.size
            == tcx.pointer_size && i.data <= u64::MAX {
            place_len(tcx, place) matches Some(n) && n == i.data
        } else {
            i.size != tcx.pointer_size ==> place_len(tcx, place) is None
        }),
        place.is_unsized ==> (place.meta matches Some(Scalar::Ptr(_, _)) ==> place_len(
            tcx,
            place,
        ) is None),
        !place.is_unsized ==> (place.fields matches FieldsShape::Array { count } ==> place_len(
            tcx,
            place,
        ) == Some(count)),
{
}

// ---- Constants ----

/// The value of a length is the number that it holds.
pub proof fn law_length_value(c: Const, size: u64, data: u128)
    requires
        c.kind == ConstKind::Value(ValTree::Leaf(ScalarInt { size, data })),
        data <= usize::MAX,
    ensures
        const_usize(c) == data,
{
}

/// The operand for a constant: its scalar, nothing for one without a size, a pointer to where it
/// is in memory, and for a slice a pointer to its start and the number of bytes up to its end.
pub proof fn law_operand(tcx: &TyCtxt, cv: ConstValue, ty: Ty)
    ensures
        opty_of(tcx, cv, ty).ty == ty,
        opty_of(tcx, cv, ty).size == tcx.sizes@[ty],
        ({
            let op = opty_of(tcx, cv, ty).op;
            match cv {
                ConstValue::Scalar(s) => op == Operand::Immediate(Immediate::Scalar(s)),
                ConstValue::ZeroSized => op == Operand::Immediate(Immediate::Uninit),
                ConstValue::ByRef { alloc, offset } => {
                    &&& op matches Operand::Indirect(ptr)
                    &&& ptr.alloc == alloc
                    &&& ptr.offset == offset
                },
                ConstValue::Slice { data, start, end } => start <= end ==> {
                    &&& op matches Operand::Immediate(
                        Immediate::ScalarPair(Scalar::Ptr(ptr, size), Scalar::Int(len)),
                    )
                    &&& ptr.alloc == data
                    &&& ptr.offset == start
                    &&& size == tcx.pointer_size
                    &&& len.size == tcx.pointer_size
                    &&& len.data == end - start
                },
            }
        }),
{
}

/// The value of a constant of a function body: one that is given is itself, one of the type
/// system is what its value converts to, and one that is not evaluated is what evaluating it
/// gives.  A constant of the type system is no promoted one.
pub proof fn law_constant_value(tcx: &TyCtxt, constant: Constant)
    ensures
        match constant.literal {
            ConstantKind::Val(val, _) => constant_value(tcx, constant) == val,
            ConstantKind::Unevaluated(uv, _) => constant_value(tcx, constant)
                == tcx.const_evals@[uv],
            ConstantKind::Ty(ct) => match ct.kind {
                ConstKind::Value(_) => constant_value(tcx, constant) == tcx.const_vals@[ct],
                ConstKind::Unevaluated(uc) => forall|uv: Unevaluated|
                    uv.def == uc.def && uv.substs == uc.substs && uv.promoted is None
                        ==> constant_value(tcx, constant) == #[trigger] tcx.const_evals@[uv],
                ConstKind::Unknown => true,
            },
        },
{
}

/// A constant value of type `t` shows the ID of its type, and the value that is read from its
/// operand as that is shown; the type is shown before the value is.
pub proof fn law_constant_shown(tcx: &TyCtxt, val: ConstValue, t: Ty, m: Mir)
    ensures
        ({
            let j = (val, t).doc(tcx);
            let op = tcx.operands@[opty_of(tcx, val, t)];
            &&& has_keys(j, set!["ty"@, "rendered"@])
            &&& shows(j, "ty", id(tcx, t))
            &&& shows(j, "rendered", op_shown(tcx, op))
            &&& (val, t).after(tcx, m) == op_after(tcx, op, t.after(tcx, m))
        }),
{
    lemma_keys();
}

} // verus!
