//! Constants and their values.

use crate::ctxt::Const;
use crate::ctxt::ConstKind;
use crate::ctxt::ConstValue;
use crate::ctxt::Immediate;
use crate::ctxt::OpTy;
use crate::ctxt::Operand;
use crate::ctxt::Pointer;
use crate::ctxt::Scalar;
use crate::ctxt::ScalarInt;
use crate::ctxt::Ty;
use crate::ctxt::TyCtxt;
use crate::ctxt::Unevaluated;
use crate::ctxt::ValTree;
use crate::docs::const_ok;
use crate::docs::const_usize;
use crate::docs::refs_ok;
use crate::docs::ty_ref;
use crate::docs::Refs;
use crate::json::new_object;
use crate::json::object_value;
use crate::json::put;
use crate::json::Json;
use crate::laws::law_op_keeps;
use crate::render::render_opty;
use crate::state::extends;
use crate::state::record;
use crate::state::Mir;
use crate::state::MirState;
use crate::text::fits_bytes;
use crate::to_json::ToJson;
use crate::types::ty_json;
use crate::values::op_after;
use crate::values::op_ok;
use crate::values::op_shown;
use serde_json::Value;
use vstd::arithmetic::power2::pow2;
use vstd::pervasive::unreached;
use vstd::prelude::*;

verus! {

/// The value of a constant that is a number of the size of a pointer, such as the length of an
/// array.
pub fn get_const_usize(tcx: &TyCtxt, c: Const) -> (n: usize)
    requires
        const_ok(tcx, c),
    ensures
        n == const_usize(c),
{
    match c.kind {
        ConstKind::Value(ValTree::Leaf(val)) => {
            if val.size != tcx.pointer_size || val.data > u64::MAX as u128 {
                return unreached();
            }
            (val.data as u64) as usize
        },
        _ => unreached(),
    }
}

/// Where the constant evaluator finds the value of a constant.
pub open spec fn operand_of(tcx: &TyCtxt, cv: ConstValue) -> Operand {
    match cv {
        ConstValue::ByRef { alloc, offset } => Operand::Indirect(Pointer { alloc, offset }),
        ConstValue::Scalar(x) => Operand::Immediate(Immediate::Scalar(x)),
        ConstValue::ZeroSized => Operand::Immediate(Immediate::Uninit),
        ConstValue::Slice { data, start, end } => Operand::Immediate(
            Immediate::ScalarPair(
                Scalar::Ptr(Pointer { alloc: data, offset: start as u64 }, tcx.pointer_size),
                Scalar::Int(
                    ScalarInt { size: tcx.pointer_size, data: (end - start) as u128 },
                ),
            ),
        ),
    }
}

/// The value of a constant of type `ty` as an operand of the constant evaluator.
pub open spec fn opty_of(tcx: &TyCtxt, cv: ConstValue, ty: Ty) -> OpTy {
    OpTy { op: operand_of(tcx, cv), ty, size: tcx.sizes@[ty] }
}

/// The type has a layout, and the bounds of a slice are in order and its length fits a pointer.
pub open spec fn opty_ok(tcx: &TyCtxt, cv: ConstValue, ty: Ty) -> bool {
    &&& tcx.sizes@.dom().contains(ty)
    &&& cv matches ConstValue::Slice { data, start, end } ==> {
        &&& start <= end
        &&& end - start < pow2((8 * tcx.pointer_size) as nat)
    }
}

/// The value of a constant of type `ty` as an operand of the constant evaluator.
pub fn as_opty(tcx: &TyCtxt, cv: ConstValue, ty: Ty) -> (op_ty: OpTy)
    requires
        opty_ok(tcx, cv, ty),
    ensures
        op_ty == opty_of(tcx, cv, ty),
{
    let op = match cv {
        ConstValue::ByRef { alloc, offset } => Operand::Indirect(Pointer { alloc, offset }),
        ConstValue::Scalar(x) => Operand::Immediate(Immediate::Scalar(x)),
        ConstValue::ZeroSized => Operand::Immediate(Immediate::Uninit),
        ConstValue::Slice { data, start, end } => {
            if start > end || !fits_bytes((end - start) as u128, tcx.pointer_size) {
                return unreached();
            }
            let ptr = Pointer { alloc: data, offset: start as u64 };
            let len: usize = end - start;
            Operand::Immediate(
                Immediate::ScalarPair(
                    Scalar::Ptr(ptr, tcx.pointer_size),
                    Scalar::Int(ScalarInt { size: tcx.pointer_size, data: len as u128 }),
                ),
            )
        },
    };
    let size: u64 = match tcx.sizes.get(&ty) {
        Some(size) => *size,
        None => unreached(),
    };
    OpTy { op, ty, size }
}

impl ToJson for (ConstValue, Ty) {
    open spec fn doc(&self, tcx: &TyCtxt) -> Json {
        Json::Obj(
            map![
                "ty"@ => ty_ref(tcx, self.1),
                "rendered"@ => op_shown(tcx, tcx.operands@[opty_of(tcx, self.0, self.1)]),
            ],
        )
    }

    open spec fn after(&self, tcx: &TyCtxt, m: Mir) -> Mir {
        op_after(
            tcx,
            tcx.operands@[opty_of(tcx, self.0, self.1)],
            record(tcx, m, Refs::of_ty(self.1)),
        )
    }

    open spec fn ok(&self, tcx: &TyCtxt, m: Mir) -> bool {
        &&& opty_ok(tcx, self.0, self.1)
        &&& refs_ok(tcx, Refs::of_ty(self.1))
        &&& tcx.operands@.dom().contains(opty_of(tcx, self.0, self.1))
        &&& op_ok(
            tcx,
            tcx.operands@[opty_of(tcx, self.0, self.1)],
            record(tcx, m, Refs::of_ty(self.1)),
        )
    }

    proof fn keeps(&self, tcx: &TyCtxt, m: Mir) {
        let m1 = record(tcx, m, Refs::of_ty(self.1));
        assert(extends(m1, m));
        law_op_keeps(tcx, tcx.operands@[opty_of(tcx, self.0, self.1)], m1);
    }

    fn to_json(&self, mir: &mut MirState<'_>) -> (v: Value) {
        let tcx = mir.tcx;
        let op_ty = as_opty(tcx, self.0, self.1);
        let op_value = match tcx.operands.get(&op_ty) {
            Some(op_value) => op_value,
            None => unreached(),
        };
        let mut o = new_object();
        let ty = ty_json(self.1, mir);
        put(&mut o, "ty", ty);
        let rendered = render_opty(mir, op_value);
        put(&mut o, "rendered", rendered);
        object_value(o)
    }
}

/// What a constant of a function body is given by.
#[derive(Clone, Copy, PartialEq, Eq, Structural, Debug)]
pub enum ConstantKind {
    /// By a constant of the type system.
    Ty(Const),
    /// By a constant that has not been evaluated.
    Unevaluated(Unevaluated, Ty),
    /// By its value.
    Val(ConstValue, Ty),
}

/// A constant of a function body.
#[derive(Clone, Copy, PartialEq, Eq, Structural, Debug)]
pub struct Constant {
    pub literal: ConstantKind,
}

/// The constant that has to be evaluated for the value of `constant`, if there is one.
pub open spec fn to_evaluate(constant: Constant) -> Option<Unevaluated> {
    match constant.literal {
        ConstantKind::Ty(ct) => match ct.kind {
            ConstKind::Unevaluated(uv) => Some(
                Unevaluated { def: uv.def, substs: uv.substs, promoted: None },
            ),
            _ => None,
        },
        ConstantKind::Unevaluated(uv, _) => Some(uv),
        ConstantKind::Val(_, _) => None,
    }
}

/// The value of a constant of a function body.
pub open spec fn constant_value(tcx: &TyCtxt, constant: Constant) -> ConstValue {
    match to_evaluate(constant) {
        Some(uv) => tcx.const_evals@[uv],
        None => match constant.literal {
            ConstantKind::Ty(ct) => tcx.const_vals@[ct],
            ConstantKind::Val(val, _) => val,
            ConstantKind::Unevaluated(uv, _) => tcx.const_evals@[uv],
        },
    }
}

/// The value of a constant of a function body is known: evaluating it does not fail, and it is
/// no parameter, inference variable or error.
pub open spec fn constant_ok(tcx: &TyCtxt, constant: Constant) -> bool {
    match to_evaluate(constant) {
        Some(uv) => tcx.const_evals@.dom().contains(uv),
        None => constant.literal matches ConstantKind::Ty(ct) ==> {
            &&& ct.kind is Value
            &&& tcx.const_vals@.dom().contains(ct)
        },
    }
}

/// The value of a constant of a function body.
pub fn eval_mir_constant(tcx: &TyCtxt, constant: &Constant) -> (val: ConstValue)
    requires
        constant_ok(tcx, *constant),
    ensures
        val == constant_value(tcx, *constant),
{
    let uv = match constant.literal {
        ConstantKind::Ty(ct) => match ct.kind {
            ConstKind::Unevaluated(uv) => Unevaluated {
                def: uv.def,
                substs: uv.substs,
                promoted: None,
            },
            ConstKind::Value(_) => match tcx.const_vals.get(&ct) {
                Some(val) => return *val,
                None => unreached(),
            },
            ConstKind::Unknown => unreached(),
        },
        ConstantKind::Unevaluated(uv, _) => uv,
        ConstantKind::Val(val, _) => return val,
    };
    match tcx.const_evals.get(&uv) {
        Some(val) => *val,
        None => unreached(),
    }
}

} // verus!
