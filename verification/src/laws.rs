//! What holds of names, JSON forms and states as a whole.

use crate::adts::ToJsonAg;
use crate::consts::operand_of;
use crate::consts::opty_of;
use crate::ctxt::AdtInst;
use crate::ctxt::ConstAllocation;
use crate::ctxt::ConstValue;
use crate::ctxt::Contents;
use crate::ctxt::DefId;
use crate::ctxt::GlobalAlloc;
use crate::ctxt::Immediate;
use crate::ctxt::Instance;
use crate::ctxt::InstanceDef;
use crate::ctxt::Mutability;
use crate::ctxt::OpRead;
use crate::ctxt::OpValue;
use crate::ctxt::Operand;
use crate::ctxt::PlaceValue;
use crate::ctxt::SubstsRef;
use crate::ctxt::Ty;
use crate::ctxt::TyCtxt;
use crate::ctxt::TyKind;
use crate::ctxt::VtblEntry;
use crate::docs::adt_doc;
use crate::docs::adt_ok;
use crate::docs::adt_text;
use crate::docs::closure;
use crate::docs::def_text;
use crate::docs::ext_def_text;
use crate::docs::inst_refs;
use crate::docs::inst_text;
use crate::docs::method_index;
use crate::docs::reaches;
use crate::docs::refs_ok;
use crate::docs::ty_ref;
use crate::docs::ty_refs;
use crate::docs::variant_doc;
use crate::docs::variants_doc;
use crate::docs::Refs;
use crate::generics::GenericPredicates;
use crate::generics::Generics;
use crate::json::Json;
use crate::state::closed;
use crate::state::extends;
use crate::state::lemma_reaches_step;
use crate::state::lemma_record_and;
use crate::state::lemma_record_known;
use crate::state::lemma_record_no_types;
use crate::state::record;
use crate::state::Mir;
use crate::text::dec;
use crate::text::digit;
use crate::text::hex;
use crate::text::two_complement;
use crate::to_json::lemma_list_keeps;
use crate::to_json::list_after;
use crate::to_json::list_docs;
use crate::to_json::ToJson;
use crate::values::all_docs;
use crate::values::body_after;
use crate::values::body_doc;
use crate::values::body_ok;
use crate::values::holder_doc;
use crate::values::is_slice_like;
use crate::values::lemma_op_docs;
use crate::values::machine_usize;
use crate::values::op_after;
use crate::values::op_doc;
use crate::values::op_docs;
use crate::values::ops_after;
use crate::values::place_len;
use crate::values::ref_after;
use crate::values::ref_doc;
use vstd::arithmetic::power2::lemma_pow2_adds;
use vstd::arithmetic::power2::pow2;
use vstd::prelude::*;

verus! {

// ---- States ----

/// `big` has all types, uses and allocations that `small` has.
pub open spec fn covers(big: Mir, small: Mir) -> bool {
    &&& small.tys.subset_of(big.tys)
    &&& small.adts.subset_of(big.adts)
    &&& small.insts.subset_of(big.insts)
    &&& small.traits.subset_of(big.traits)
    &&& small.allocs.dom().subset_of(big.allocs.dom())
}

/// Showing a type that has been shown before changes nothing.
pub proof fn law_shown_type_changes_nothing(tcx: &TyCtxt, m: Mir, t: Ty)
    requires
        closed(tcx, m.tys),
        m.tys.contains(t),
    ensures
        record(tcx, m, Refs::of_ty(t)) == m,
{
    lemma_record_known(tcx, m, t);
}

/// What refers to things that a state holds already changes nothing.
proof fn lemma_record_covered(tcx: &TyCtxt, m: Mir, m2: Mir, r: Refs)
    requires
        covers(m2, record(tcx, m, r)),
    ensures
        record(tcx, m2, r) == m2,
{
    let first = record(tcx, m, r);
    assert(closure(tcx, r.tys).subset_of(first.tys));
    lemma_record_no_types(tcx, m2, r);
    assert(r.adts.subset_of(first.adts));
    assert(r.insts.subset_of(first.insts));
    assert(r.traits.subset_of(first.traits));
    assert(record(tcx, m2, r) =~= m2);
}

/// Showing something a second time changes nothing more.
pub proof fn law_record_twice(tcx: &TyCtxt, m: Mir, r: Refs)
    ensures
        record(tcx, record(tcx, m, r), r) == record(tcx, m, r),
{
    lemma_record_covered(tcx, m, record(tcx, m, r), r);
}

/// It does not matter which of two things is shown first.
pub proof fn law_record_order(tcx: &TyCtxt, m: Mir, r1: Refs, r2: Refs)
    ensures
        record(tcx, record(tcx, m, r1), r2) == record(tcx, record(tcx, m, r2), r1),
{
    lemma_record_and(tcx, m, r1, r2);
    lemma_record_and(tcx, m, r2, r1);
    assert(r1.and(r2).tys =~= r2.and(r1).tys);
    assert(r1.and(r2).adts =~= r2.and(r1).adts);
    assert(r1.and(r2).insts =~= r2.and(r1).insts);
    assert(r1.and(r2).traits =~= r2.and(r1).traits);
}

/// Showing something takes nothing away, and leaves all that it refers to in the tables and
/// marked as used.
pub proof fn law_record_keeps(tcx: &TyCtxt, m: Mir, r: Refs)
    ensures
        extends(record(tcx, m, r), m),
        r.tys.subset_of(record(tcx, m, r).tys),
        r.adts.subset_of(record(tcx, m, r).adts),
        r.insts.subset_of(record(tcx, m, r).insts),
        r.traits.subset_of(record(tcx, m, r).traits),
{
    assert forall|t: Ty| r.tys.contains(t) implies record(tcx, m, r).tys.contains(t) by {
        assert(reaches(tcx, t, t));
        assert(closure(tcx, r.tys).contains(t));
    }
}

/// With a type, the table of types holds all types that it refers to, whatever is shown.
pub proof fn law_types_closed(tcx: &TyCtxt, m: Mir, r: Refs)
    requires
        tcx.wf(),
        closed(tcx, m.tys),
        refs_ok(tcx, r),
    ensures
        closed(tcx, record(tcx, m, r).tys),
{
    let tys = record(tcx, m, r).tys;
    assert forall|a: Ty, b: Ty|
        tys.contains(a) && (#[trigger] ty_refs(tcx, a)).tys.contains(b) implies #[trigger] tys.contains(b) by {
        if m.tys.contains(a) {
            assert(m.tys.contains(b));
        } else {
            let o = choose|o: Ty| r.tys.contains(o) && #[trigger] reaches(tcx, o, a);
            assert(tcx.has_ty(o));
            lemma_reaches_step(tcx, o, a, b);
            assert(closure(tcx, r.tys).contains(b));
        }
    }
}

// ---- Constants and states ----

/// Showing a constant takes nothing away, and changes no static that has been made before.
pub proof fn law_op_keeps(tcx: &TyCtxt, op: OpValue, m: Mir)
    ensures
        extends(op_after(tcx, op, m), m),
    decreases op, 1nat,
{
    match tcx.kind_of(op.ty) {
        TyKind::Adt(_, _) => match op.read {
            OpRead::Fields(fields) => lemma_ops_keep(tcx, fields@, true, m),
            OpRead::Variant { fields, .. } => lemma_ops_keep(tcx, fields@, true, m),
            _ => {},
        },
        TyKind::Array(ety, _) => match op.read {
            OpRead::Fields(elements) => {
                lemma_ops_keep(tcx, elements@, false, m);
                law_record_keeps(tcx, ops_after(tcx, elements@, false, m), Refs::of_ty(ety));
            },
            _ => {},
        },
        TyKind::RawPtr(rty, mutability) => lemma_ref_keeps(tcx, op, rty, mutability, m),
        TyKind::Ref(rty, mutability) => lemma_ref_keeps(tcx, op, rty, mutability, m),
        TyKind::FnPtr(_) => {
            if let Some(a) = op.read->FnPtr_0 {
                if let Some(GlobalAlloc::Function(inst)) = tcx.alloc_of(a) {
                    law_record_keeps(tcx, m, Refs::of_inst(inst));
                    law_record_keeps(
                        tcx,
                        record(tcx, m, Refs::of_inst(inst)),
                        inst_refs(tcx, inst),
                    );
                }
            }
        },
        TyKind::Closure(_) => match op.read {
            OpRead::Fields(upvars) => lemma_ops_keep(tcx, upvars@, true, m),
            _ => {},
        },
        TyKind::Tuple(_) => match op.read {
            OpRead::Fields(fields) => lemma_ops_keep(tcx, fields@, false, m),
            _ => {},
        },
        _ => {},
    }
}

/// Showing values one after the other takes nothing away.
proof fn lemma_ops_keep(tcx: &TyCtxt, ops: Seq<OpValue>, needed: bool, m: Mir)
    ensures
        extends(ops_after(tcx, ops, needed, m), m),
    decreases ops, 0nat,
{
    if ops.len() > 0 {
        law_op_keeps(tcx, ops[0], m);
        if !(needed && op_doc(tcx, ops[0]) is None) {
            lemma_ops_keep(tcx, ops.drop_first(), needed, op_after(tcx, ops[0], m));
        }
    }
}

/// Showing a reference takes nothing away.
proof fn lemma_ref_keeps(tcx: &TyCtxt, op: OpValue, rty: Ty, mutability: Mutability, m: Mir)
    ensures
        extends(ref_after(tcx, op, rty, mutability, m), m),
    decreases op, 0nat,
{
    if let OpRead::Place(p) = op.read {
        if let Some(GlobalAlloc::Memory(ca)) = tcx.alloc_of(p.place.ptr.alloc) {
            if !m.allocs.dom().contains((ca, op.ty)) {
                lemma_body_keeps(tcx, rty, *p, mutability.is_mut, m);
            }
        }
    }
}

/// Showing the static for memory takes nothing away.
proof fn lemma_body_keeps(tcx: &TyCtxt, rty: Ty, p: PlaceValue, is_mut: bool, m: Mir)
    ensures
        extends(body_after(tcx, rty, p, is_mut, m), m),
    decreases p, 0nat,
{
    let len = place_len(tcx, p.place)->0;
    if !is_mut && tcx.kind_of(rty) is Str {
        law_record_keeps(tcx, m, Refs::of_ty(tcx.array_tys@[(tcx.u8_ty, len)]));
    } else if !is_mut && tcx.kind_of(rty) is Slice {
        if let Contents::Elements(elements) = p.contents {
            lemma_ops_keep(tcx, elements@, false, m);
            law_record_keeps(
                tcx,
                ops_after(tcx, elements@, false, m),
                Refs::of_ty(tcx.array_tys@[(tcx.kind_of(rty)->Slice_0, len)]),
            );
        }
    } else {
        if let Contents::Whole(whole) = p.contents {
            law_op_keeps(tcx, whole, m);
            law_record_keeps(tcx, op_after(tcx, whole, m), Refs::of_ty(rty));
        }
    }
}

/// Showing a constant changes nothing in a state that has all that the constant needs.
pub proof fn law_op_covered(tcx: &TyCtxt, op: OpValue, m: Mir, m2: Mir)
    requires
        covers(m2, op_after(tcx, op, m)),
    ensures
        op_after(tcx, op, m2) == m2,
    decreases op, 1nat,
{
    match tcx.kind_of(op.ty) {
        TyKind::Adt(_, _) => match op.read {
            OpRead::Fields(fields) => lemma_ops_covered(tcx, fields@, true, m, m2),
            OpRead::Variant { fields, .. } => lemma_ops_covered(tcx, fields@, true, m, m2),
            _ => {},
        },
        TyKind::Array(ety, _) => match op.read {
            OpRead::Fields(elements) => {
                let m1 = ops_after(tcx, elements@, false, m);
                law_record_keeps(tcx, m1, Refs::of_ty(ety));
                lemma_ops_covered(tcx, elements@, false, m, m2);
                lemma_record_covered(tcx, m1, m2, Refs::of_ty(ety));
            },
            _ => {},
        },
        TyKind::RawPtr(rty, mutability) => lemma_ref_covered(tcx, op, rty, mutability, m, m2),
        TyKind::Ref(rty, mutability) => lemma_ref_covered(tcx, op, rty, mutability, m, m2),
        TyKind::FnPtr(_) => {
            if let Some(a) = op.read->FnPtr_0 {
                if let Some(GlobalAlloc::Function(inst)) = tcx.alloc_of(a) {
                    let m1 = record(tcx, m, Refs::of_inst(inst));
                    law_record_keeps(tcx, m1, inst_refs(tcx, inst));
                    lemma_record_covered(tcx, m, m2, Refs::of_inst(inst));
                    lemma_record_covered(tcx, m1, m2, inst_refs(tcx, inst));
                }
            }
        },
        TyKind::Closure(_) => match op.read {
            OpRead::Fields(upvars) => lemma_ops_covered(tcx, upvars@, true, m, m2),
            _ => {},
        },
        TyKind::Tuple(_) => match op.read {
            OpRead::Fields(fields) => lemma_ops_covered(tcx, fields@, false, m, m2),
            _ => {},
        },
        _ => {},
    }
}

/// Showing values changes nothing in a state that has all that they need.
proof fn lemma_ops_covered(tcx: &TyCtxt, ops: Seq<OpValue>, needed: bool, m: Mir, m2: Mir)
    requires
        covers(m2, ops_after(tcx, ops, needed, m)),
    ensures
        ops_after(tcx, ops, needed, m2) == m2,
    decreases ops, 0nat,
{
    if ops.len() > 0 {
        let m1 = op_after(tcx, ops[0], m);
        if needed && op_doc(tcx, ops[0]) is None {
            law_op_covered(tcx, ops[0], m, m2);
        } else {
            lemma_ops_keep(tcx, ops.drop_first(), needed, m1);
            law_op_covered(tcx, ops[0], m, m2);
            lemma_ops_covered(tcx, ops.drop_first(), needed, m1, m2);
        }
    }
}

/// Showing a reference changes nothing in a state that has all that it needs.
proof fn lemma_ref_covered(
    tcx: &TyCtxt,
    op: OpValue,
    rty: Ty,
    mutability: Mutability,
    m: Mir,
    m2: Mir,
)
    requires
        covers(m2, ref_after(tcx, op, rty, mutability, m)),
    ensures
        ref_after(tcx, op, rty, mutability, m2) == m2,
{
    if let OpRead::Place(p) = op.read {
        if let Some(GlobalAlloc::Memory(ca)) = tcx.alloc_of(p.place.ptr.alloc) {
            assert(ref_after(tcx, op, rty, mutability, m).allocs.dom().contains((ca, op.ty)));
        }
    }
}

/// Showing anything takes nothing away, and changes no static that has been made before.
pub proof fn law_shown_extends<T: ToJson>(tcx: &TyCtxt, x: T, m: Mir)
    ensures
        extends(x.after(tcx, m), m),
{
    x.keeps(tcx, m);
}

/// Showing a list takes nothing away, and changes no static that has been made before.
pub proof fn law_list_extends<T: ToJson>(tcx: &TyCtxt, items: Seq<T>, m: Mir)
    ensures
        extends(list_after(tcx, items, m), m),
{
    lemma_list_keeps(tcx, items, m);
}

/// Showing a part of a data type takes nothing away, and changes no static that has been made
/// before.
pub proof fn law_part_extends<T: ToJsonAg>(tcx: &TyCtxt, x: T, substs: SubstsRef, m: Mir)
    ensures
        extends(x.ag_after(tcx, substs, m), m),
{
    x.ag_keeps(tcx, substs, m);
}

/// A type that has been shown stays in the table of types, whatever is shown after it: showing
/// it again changes nothing and gives the same ID.
pub proof fn law_type_stays_shown<T: ToJson>(tcx: &TyCtxt, t: Ty, x: T, m: Mir)
    ensures
        ({
            let later = x.after(tcx, t.after(tcx, m));
            &&& later.tys.contains(t)
            &&& t.after(tcx, later) == later
            &&& t.doc(tcx) == Json::Str(tcx.ty_data(t).id@)
        }),
{
    let first = t.after(tcx, m);
    x.keeps(tcx, first);
    law_record_keeps(tcx, m, Refs::of_ty(t));
    assert(Refs::of_ty(t).tys.contains(t));
    lemma_record_covered(tcx, m, x.after(tcx, first), Refs::of_ty(t));
}

/// Showing a constant a second time changes nothing more.
pub proof fn law_op_twice(tcx: &TyCtxt, op: OpValue, m: Mir)
    ensures
        op_after(tcx, op, op_after(tcx, op, m)) == op_after(tcx, op, m),
{
    law_op_covered(tcx, op, m, op_after(tcx, op, m));
}

/// Showing a constant with its type a second time changes nothing more.
pub proof fn law_constant_twice(tcx: &TyCtxt, c: (ConstValue, Ty), m: Mir)
    ensures
        c.after(tcx, c.after(tcx, m)) == c.after(tcx, m),
{
    let op = tcx.operands@[opty_of(tcx, c.0, c.1)];
    let m1 = record(tcx, m, Refs::of_ty(c.1));
    let m2 = c.after(tcx, m);
    law_op_keeps(tcx, op, m1);
    lemma_record_covered(tcx, m, m2, Refs::of_ty(c.1));
    law_op_covered(tcx, op, m1, m2);
}

/// After a reference to memory has been shown, there is a static for that memory.
pub proof fn law_ref_has_static(
    tcx: &TyCtxt,
    op: OpValue,
    rty: Ty,
    mutability: Mutability,
    p: PlaceValue,
    ca: ConstAllocation,
    m: Mir,
)
    requires
        op.read == OpRead::Place(Box::new(p)),
        tcx.alloc_of(p.place.ptr.alloc) == Some(GlobalAlloc::Memory(ca)),
    ensures
        ref_after(tcx, op, rty, mutability, m).allocs.dom().contains((ca, op.ty)),
        !m.allocs.dom().contains((ca, op.ty)) ==> ref_after(tcx, op, rty, mutability, m).allocs[(
            ca,
            op.ty,
        )] == body_doc(tcx, rty, p, mutability.is_mut),
{
}

/// Showing a reference or a raw pointer again changes nothing, however much has been shown in
/// between: there is one static for the memory behind a pointer type, and it stays as it is.
/// The JSON form does not depend on the state at all.
pub proof fn law_ref_twice(
    tcx: &TyCtxt,
    op: OpValue,
    rty: Ty,
    mutability: Mutability,
    m: Mir,
    later: Mir,
)
    requires
        extends(later, ref_after(tcx, op, rty, mutability, m)),
    ensures
        ref_after(tcx, op, rty, mutability, later) == later,
        op.read matches OpRead::Place(p) ==> tcx.alloc_of(p.place.ptr.alloc) matches Some(
            GlobalAlloc::Memory(ca),
        ) ==> later.allocs[(ca, op.ty)] == ref_after(tcx, op, rty, mutability, m).allocs[(
            ca,
            op.ty,
        )],
{
    let first = ref_after(tcx, op, rty, mutability, m);
    assert(covers(later, first));
    lemma_ref_covered(tcx, op, rty, mutability, m, later);
    if let OpRead::Place(p) = op.read {
        if let Some(GlobalAlloc::Memory(ca)) = tcx.alloc_of(p.place.ptr.alloc) {
            assert(first.allocs.dom().contains((ca, op.ty)));
        }
    }
}

// ---- Data types ----

/// A data type shows as many variants as it has, in the order of their definition.
pub proof fn law_variants_in_order(tcx: &TyCtxt, ai: AdtInst)
    requires
        adt_ok(tcx, ai),
    ensures
        ({
            let data = tcx.adt_data(ai.adt);
            &&& adt_doc(tcx, ai) matches Json::Obj(entries)
            &&& entries["variants"@] matches Json::Arr(shown)
            &&& shown.len() == data.variants.len()
            &&& forall|i: int|
                0 <= i < shown.len() ==> #[trigger] shown[i] == variant_doc(
                    tcx,
                    data.variants@[i],
                    ai.substs,
                    if data.kind is Enum {
                        Some(data.discriminants@[i].value@)
                    } else {
                        None
                    },
                )
        }),
{
    reveal_strlit("variants");
    reveal_strlit("size");
    reveal_strlit("repr_transparent");
    reveal_strlit("orig_def_id");
    reveal_strlit("orig_substs");
    assert("variants"@.len() == 8);
    assert("size"@.len() == 4);
    assert("repr_transparent"@.len() == 16);
    assert("orig_def_id"@.len() == 11);
    assert("orig_substs"@.len() == 11);
    assert(adt_doc(tcx, ai)->Obj_0["variants"@] == variants_doc(tcx, ai));
    let data = tcx.adt_data(ai.adt);
    let shown = variants_doc(tcx, ai)->Arr_0;
    assert forall|i: int| 0 <= i < shown.len() implies #[trigger] shown[i] == variant_doc(
        tcx,
        data.variants@[i],
        ai.substs,
        if data.kind is Enum {
            Some(data.discriminants@[i].value@)
        } else {
            None
        },
    ) by {
        if data.kind is Enum {
            assert(data.discriminants@[i].variant == i);
        }
    }
}

/// The size that a data type shows is that of the type which it is with its generic arguments.
pub proof fn law_size_of_type(tcx: &TyCtxt, ai: AdtInst)
    requires
        tcx.wf(),
        adt_ok(tcx, ai),
    ensures
        ({
            let t = tcx.adt_tys@[ai];
            &&& tcx.is_adt_ty(t, ai)
            &&& adt_doc(tcx, ai) matches Json::Obj(entries)
            &&& entries["size"@] == Json::Num(tcx.sizes@[t] as nat)
        }),
{
    reveal_strlit("size");
    reveal_strlit("repr_transparent");
    reveal_strlit("orig_def_id");
    reveal_strlit("orig_substs");
    assert("size"@.len() == 4);
    assert("repr_transparent"@.len() == 16);
    assert("orig_def_id"@.len() == 11);
    assert("orig_substs"@.len() == 11);
}

// ---- Constants and their JSON forms ----

/// The parts of a value that has a JSON form only where all its parts have one: the fields of a
/// struct or of the variant of an enum, or the variables that a closure captures.
pub open spec fn needed_parts(tcx: &TyCtxt, op: OpValue) -> Option<Seq<OpValue>> {
    match (tcx.kind_of(op.ty), op.read) {
        (TyKind::Adt(_, _), OpRead::Fields(fields)) => Some(fields@),
        (TyKind::Adt(_, _), OpRead::Variant { fields, .. }) => Some(fields@),
        (TyKind::Closure(_), OpRead::Fields(upvars)) => Some(upvars@),
        _ => None,
    }
}

/// A struct, an enum or a closure has a JSON form exactly where all its parts have one.
pub proof fn law_all_parts_needed(tcx: &TyCtxt, op: OpValue)
    requires
        needed_parts(tcx, op) is Some,
    ensures
        op_doc(tcx, op) is Some <==> forall|i: int|
            0 <= i < needed_parts(tcx, op)->0.len() ==> op_doc(
                tcx,
                #[trigger] needed_parts(tcx, op)->0[i],
            ) is Some,
{
    let parts = needed_parts(tcx, op)->0;
    lemma_op_docs(tcx, parts);
    let docs = op_docs(tcx, parts);
    if all_docs(docs) is Some {
        assert forall|i: int| 0 <= i < parts.len() implies op_doc(
            tcx,
            #[trigger] parts[i],
        ) is Some by {
            assert(docs[i] is Some);
        }
    }
    if forall|i: int| 0 <= i < parts.len() ==> op_doc(tcx, #[trigger] parts[i]) is Some {
        assert forall|i: int| 0 <= i < docs.len() implies (#[trigger] docs[i]) is Some by {
            assert(op_doc(tcx, parts[i]) is Some);
        }
    }
}

/// An array or a tuple always has a JSON form, with as many elements as it has parts.
pub proof fn law_lists_always_shown(tcx: &TyCtxt, op: OpValue, parts: Seq<OpValue>)
    requires
        tcx.kind_of(op.ty) is Array || tcx.kind_of(op.ty) is Tuple,
        op.read matches OpRead::Fields(v) && v@ == parts,
    ensures
        ({
            &&& op_doc(tcx, op) matches Some(Json::Obj(entries))
            &&& entries["elements"@] matches Json::Arr(elements)
            &&& elements.len() == parts.len()
        }),
{
    lemma_op_docs(tcx, parts);
}

/// The length that a reference to a `str` or a slice shows is the length that the static for
/// its memory shows, and that static has as many elements.
pub proof fn law_lengths_agree(
    tcx: &TyCtxt,
    op: OpValue,
    rty: Ty,
    mutability: Mutability,
    p: PlaceValue,
    m: Mir,
)
    requires
        op.read == OpRead::Place(Box::new(p)),
        !mutability.is_mut,
        is_slice_like(tcx, rty),
        holder_doc(tcx, op.ty, p.place) is Some,
        body_ok(tcx, rty, p, false, m),
    ensures
        ({
            &&& ref_doc(tcx, op, rty, mutability) matches Some(Json::Obj(shown))
            &&& body_doc(tcx, rty, p, false) matches Json::Obj(made)
            &&& made["rendered"@] matches Json::Obj(rendered)
            &&& rendered["len"@] matches Json::Num(len)
            &&& rendered["elements"@] matches Json::Arr(elements)
            &&& shown["len"@] == Json::Num(len)
            &&& elements.len() == len
        }),
{
    reveal_strlit("len");
    reveal_strlit("elements");
    assert("len"@.len() != "elements"@.len());
    if tcx.kind_of(rty) is Slice {
        lemma_op_docs(tcx, p.contents->Elements_0@);
    }
}

/// The static for the memory of a `str` or a slice has the type of the arrays of as many bytes
/// or elements as it shows.
pub proof fn law_static_is_array(tcx: &TyCtxt, rty: Ty, p: PlaceValue, m: Mir)
    requires
        tcx.wf(),
        is_slice_like(tcx, rty),
        body_ok(tcx, rty, p, false, m),
    ensures
        ({
            let elem = if tcx.kind_of(rty) is Str {
                tcx.u8_ty
            } else {
                tcx.kind_of(rty)->Slice_0
            };
            let len = place_len(tcx, p.place)->0;
            let t = tcx.array_tys@[(elem, len)];
            &&& tcx.is_array_ty(t, elem, len)
            &&& body_doc(tcx, rty, p, false) matches Json::Obj(made)
            &&& made["ty"@] == ty_ref(tcx, t)
            &&& made["rendered"@] matches Json::Obj(rendered)
            &&& rendered["len"@] == Json::Num(len as nat)
        }),
{
    reveal_strlit("ty");
    reveal_strlit("rendered");
    assert("ty"@.len() != "rendered"@.len());
}

/// The length of a slice constant is read back from the operand that stands for it.
pub proof fn law_slice_length(tcx: &TyCtxt, cv: ConstValue)
    requires
        cv matches ConstValue::Slice { start, end, .. } && start <= end,
    ensures
        ({
            &&& operand_of(tcx, cv) matches Operand::Immediate(Immediate::ScalarPair(_, len))
            &&& machine_usize(tcx, len) == Some((cv->end - cv->start) as u64)
        }),
{
}

// ---- Vtables ----

/// The adjusted index of a method is its place among the methods of the vtable.
pub proof fn law_method_place(vtable: Seq<VtblEntry>, raw: int)
    requires
        0 <= raw < vtable.len(),
        vtable[raw] is Method,
    ensures
        method_index(vtable, raw as nat) < vtable.filter(|e: VtblEntry| e is Method).len(),
        vtable.filter(|e: VtblEntry| e is Method)[method_index(vtable, raw as nat) as int]
            == vtable[raw],
    decreases vtable.len(),
{
    reveal(Seq::filter);
    let p = |e: VtblEntry| e is Method;
    let init = vtable.drop_last();
    if raw == vtable.len() - 1 {
        assert(vtable.take(raw) =~= init);
    } else {
        assert(init.take(raw) =~= vtable.take(raw));
        law_method_place(init, raw);
        assert(init.filter(p) == init.filter(|e: VtblEntry| e is Method));
    }
}

/// Adjusting keeps a method apart from all that comes after it, and keeps their order.
pub proof fn law_method_order(vtable: Seq<VtblEntry>, raw1: nat, raw2: nat)
    requires
        raw1 < raw2,
        raw1 < vtable.len(),
        vtable[raw1 as int] is Method,
    ensures
        method_index(vtable, raw1) < method_index(vtable, raw2),
{
    let n = if raw2 < vtable.len() {
        raw2 as int
    } else {
        vtable.len() as int
    };
    let upto = vtable.take(n);
    law_method_place(upto, raw1 as int);
    assert(upto.take(raw1 as int) =~= vtable.take(raw1 as int));
}

/// An index at or past the end of a vtable gives the number of its methods.
pub proof fn law_method_count(vtable: Seq<VtblEntry>, raw: nat)
    requires
        raw >= vtable.len(),
    ensures
        method_index(vtable, raw) == vtable.filter(|e: VtblEntry| e is Method).len(),
{
    assert(vtable.take(vtable.len() as int) =~= vtable);
}

// ---- Names ----

/// Regions do not count in the name of a data type.
pub proof fn law_adt_name_without_regions(tcx: &TyCtxt, a: AdtInst, b: AdtInst)
    requires
        a.adt == b.adt,
        tcx.substs_data(a.substs).erased == tcx.substs_data(b.substs).erased,
    ensures
        adt_text(tcx, a) == adt_text(tcx, b),
{
}

/// A data type never has the name of its definition.
pub proof fn law_adt_name_differs(tcx: &TyCtxt, ai: AdtInst)
    ensures
        adt_text(tcx, ai) != def_text(tcx, tcx.adt_data(ai.adt).did),
{
    let d = tcx.adt_data(ai.adt).did;
    let hash = tcx.substs_data(tcx.substs_data(ai.substs).erased).hash;
    lemma_hex_len(hash as nat, 16);
    assert(adt_text(tcx, ai).len() >= def_text(tcx, d).len() + 16);
}

/// A function or an intrinsic without generic arguments has the name of its definition.
pub proof fn law_plain_name(tcx: &TyCtxt, inst: Instance)
    requires
        tcx.args_of(tcx.substs_data(inst.substs).normalized).len() == 0,
    ensures
        inst.def matches InstanceDef::Item(item) ==> inst_text(tcx, inst) == def_text(
            tcx,
            item.did,
        ),
        inst.def matches InstanceDef::Intrinsic(d) ==> inst_text(tcx, inst) == def_text(tcx, d),
{
}

/// Digits are told apart.
proof fn lemma_digit(a: nat, b: nat)
    requires
        a < 16,
        b < 16,
        digit(a) == digit(b),
    ensures
        a == b,
{
}

/// There are as many hexadecimal digits as asked for.
proof fn lemma_hex_len(n: nat, width: nat)
    ensures
        hex(n, width).len() == width,
    decreases width,
{
    if width > 0 {
        lemma_hex_len(n / 16, (width - 1) as nat);
    }
}

/// Hexadecimal digits tell numbers apart that they can hold.
proof fn lemma_hex_injective(a: nat, b: nat, width: nat)
    requires
        a < pow2(4 * width),
        b < pow2(4 * width),
        hex(a, width) == hex(b, width),
    ensures
        a == b,
    decreases width,
{
    if width == 0 {
        vstd::arithmetic::power2::lemma2_to64();
    } else {
        let w = (width - 1) as nat;
        lemma_pow2_adds(4 * w, 4);
        vstd::arithmetic::power2::lemma2_to64();
        lemma_hex_len(a / 16, w);
        lemma_hex_len(b / 16, w);
        assert(hex(a, width).drop_last() =~= hex(a / 16, w));
        assert(hex(b, width).drop_last() =~= hex(b / 16, w));
        assert(hex(a, width).last() == digit(a % 16));
        assert(hex(b, width).last() == digit(b % 16));
        lemma_digit(a % 16, b % 16);
        lemma_hex_injective(a / 16, b / 16, w);
    }
}

/// Names that are derived from one definition in one way are told apart by their hashes.
pub proof fn law_hashes_told_apart(tcx: &TyCtxt, d: DefId, prefix: Seq<char>, h1: u64, h2: u64)
    requires
        ext_def_text(tcx, d, prefix, h1) == ext_def_text(tcx, d, prefix, h2),
    ensures
        h1 == h2,
{
    let head = def_text(tcx, d) + "::"@ + prefix;
    let x1 = hex(h1 as nat, 16);
    let x2 = hex(h2 as nat, 16);
    lemma_hex_len(h1 as nat, 16);
    lemma_hex_len(h2 as nat, 16);
    let n = head.len() as int;
    assert(ext_def_text(tcx, d, prefix, h1).subrange(n, n + 16) =~= x1);
    assert(ext_def_text(tcx, d, prefix, h2).subrange(n, n + 16) =~= x2);
    vstd::arithmetic::power2::lemma2_to64();
    lemma_hex_injective(h1 as nat, h2 as nat, 16);
}

// ---- Numbers ----

/// Numbers below ten, and no others, have one digit.
proof fn lemma_dec_len(n: nat)
    ensures
        dec(n).len() >= 1,
        dec(n).len() == 1 <==> n < 10,
    decreases n,
{
    if n >= 10 {
        lemma_dec_len(n / 10);
    }
}

/// Different numbers are shown differently.
pub proof fn law_decimals_told_apart(a: nat, b: nat)
    requires
        dec(a) == dec(b),
    ensures
        a == b,
    decreases a,
{
    lemma_dec_len(a);
    lemma_dec_len(b);
    if a < 10 {
        assert(dec(a)[0] == digit(a));
        assert(dec(b)[0] == digit(b));
        lemma_digit(a, b);
    } else {
        assert(dec(a).drop_last() =~= dec(a / 10));
        assert(dec(b).drop_last() =~= dec(b / 10));
        assert(dec(a).last() == digit(a % 10));
        assert(dec(b).last() == digit(b % 10));
        lemma_digit(a % 10, b % 10);
        law_decimals_told_apart(a / 10, b / 10);
    }
}

/// A signed integer lies in the range of its size, and its bits are its value modulo that
/// range.
pub proof fn law_two_complement(bits: nat, bytes: nat)
    requires
        1 <= bytes,
        bits < pow2(8 * bytes),
    ensures
        -pow2((8 * bytes - 1) as nat) <= two_complement(bits, bytes) < pow2(
            (8 * bytes - 1) as nat,
        ),
        two_complement(bits, bytes) % (pow2(8 * bytes) as int) == bits,
{
    lemma_pow2_adds(1, (8 * bytes - 1) as nat);
    vstd::arithmetic::power2::lemma2_to64();
    let range = pow2(8 * bytes) as int;
    assert(range == 2 * pow2((8 * bytes - 1) as nat));
    if bits >= pow2((8 * bytes - 1) as nat) {
        vstd::arithmetic::div_mod::lemma_mod_add_multiples_vanish(bits - range, range);
        vstd::arithmetic::div_mod::lemma_small_mod(bits, range as nat);
        assert(range + (bits - range) == bits);
    } else {
        vstd::arithmetic::div_mod::lemma_small_mod(bits, range as nat);
    }
}

// ---- Generic parameters ----

/// The parameters of the item around are shown before an item's own, and the predicates of the
/// item around after an item's own.
pub proof fn law_parents(tcx: &TyCtxt, g: Generics, p: GenericPredicates)
    ensures
        g.parent matches Some(parent) ==> g.doc(tcx) == Json::Obj(
            map![
                "params"@ => Json::Arr(
                    list_docs(tcx, parent.all()) + list_docs(tcx, g.params@),
                ),
            ],
        ),
        p.parent matches Some(parent) ==> p.doc(tcx) == Json::Obj(
            map![
                "predicates"@ => Json::Arr(
                    list_docs(tcx, p.predicates@) + list_docs(tcx, parent.all()),
                ),
            ],
        ),
{
    if let Some(parent) = g.parent {
        assert(list_docs(tcx, parent.all() + g.params@) =~= list_docs(tcx, parent.all())
            + list_docs(tcx, g.params@));
    }
    if let Some(parent) = p.parent {
        assert(list_docs(tcx, p.predicates@ + parent.all()) =~= list_docs(tcx, p.predicates@)
            + list_docs(tcx, parent.all()));
    }
}

} // verus!
