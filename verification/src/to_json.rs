//! Things that have a JSON form.

use crate::ctxt::Const;
use crate::ctxt::DefId;
use crate::ctxt::ExistentialPredicate;
use crate::ctxt::FnSig;
use crate::ctxt::GenericArg;
use crate::ctxt::Instance;
use crate::ctxt::PolyFnSig;
use crate::ctxt::SubstsRef;
use crate::ctxt::Ty;
use crate::ctxt::TyCtxt;
use crate::docs::arg_doc;
use crate::docs::const_doc;
use crate::docs::const_ok;
use crate::docs::def_doc;
use crate::docs::ex_pred_doc;
use crate::docs::ex_pred_refs;
use crate::docs::inst_doc;
use crate::docs::inst_ok;
use crate::docs::inst_refs;
use crate::docs::refs_ok;
use crate::docs::sig_doc;
use crate::docs::sig_refs;
use crate::docs::substs_doc;
use crate::docs::substs_refs;
use crate::docs::text;
use crate::docs::ty_ref;
use crate::docs::Refs;
use crate::instances::inst_json;
use crate::json::array_value;
use crate::json::json_of;
use crate::json::number_value;
use crate::json::string_value;
use crate::json::text_value;
use crate::json::Json;
use crate::names::def_id_str;
use crate::state::extends;
use crate::state::record;
use crate::state::Mir;
use crate::state::MirState;
use crate::types::arg_json;
use crate::types::arg_refs;
use crate::types::const_json;
use crate::types::ex_pred_json;
use crate::types::sig_json;
use crate::types::substs_json;
use crate::types::ty_json;
use serde_json::Value;
use vstd::prelude::*;

verus! {

/// Something that has a JSON form.  Showing it puts types and allocations into tables and marks
/// what else has to be emitted.
pub trait ToJson: Sized {
    /// The JSON form.
    spec fn doc(&self, tcx: &TyCtxt) -> Json;

    /// The state after it has been shown in state `m`.
    spec fn after(&self, tcx: &TyCtxt, m: Mir) -> Mir;

    /// It can be shown in state `m`.
    spec fn ok(&self, tcx: &TyCtxt, m: Mir) -> bool;

    /// Showing it takes nothing away, and changes no static that has been made before.
    proof fn keeps(&self, tcx: &TyCtxt, m: Mir)
        ensures
            extends(self.after(tcx, m), m),
    ;

    /// Shows it.
    fn to_json(&self, mir: &mut MirState<'_>) -> (v: Value)
        requires
            old(mir).wf(),
            self.ok(old(mir).tcx, old(mir)@),
        ensures
            final(mir).wf(),
            final(mir).tcx == old(mir).tcx,
            json_of(v) == self.doc(old(mir).tcx),
            final(mir)@ == self.after(old(mir).tcx, old(mir)@),
    ;
}

/// The JSON forms of a list.
pub open spec fn list_docs<T: ToJson>(tcx: &TyCtxt, items: Seq<T>) -> Seq<Json> {
    items.map_values(|x: T| x.doc(tcx))
}

/// The state after the items of a list have been shown one after the other.
pub open spec fn list_after<T: ToJson>(tcx: &TyCtxt, items: Seq<T>, m: Mir) -> Mir
    decreases items.len(),
{
    if items.len() == 0 {
        m
    } else {
        list_after(tcx, items.drop_first(), items[0].after(tcx, m))
    }
}

/// The items of a list can be shown one after the other.
pub open spec fn list_ok<T: ToJson>(tcx: &TyCtxt, items: Seq<T>, m: Mir) -> bool
    decreases items.len(),
{
    items.len() == 0 || items[0].ok(tcx, m) && list_ok(
        tcx,
        items.drop_first(),
        items[0].after(tcx, m),
    )
}

/// Showing a list takes nothing away.
pub proof fn lemma_list_keeps<T: ToJson>(tcx: &TyCtxt, items: Seq<T>, m: Mir)
    ensures
        extends(list_after(tcx, items, m), m),
    decreases items.len(),
{
    if items.len() > 0 {
        items[0].keeps(tcx, m);
        lemma_list_keeps(tcx, items.drop_first(), items[0].after(tcx, m));
    }
}

/// Showing two lists is showing one after the other.
pub proof fn lemma_list_add<T: ToJson>(tcx: &TyCtxt, a: Seq<T>, b: Seq<T>, m: Mir)
    ensures
        list_docs(tcx, a + b) == list_docs(tcx, a) + list_docs(tcx, b),
        list_after(tcx, a + b, m) == list_after(tcx, b, list_after(tcx, a, m)),
        list_ok(tcx, a + b, m) <==> list_ok(tcx, a, m) && list_ok(tcx, b, list_after(tcx, a, m)),
    decreases a.len(),
{
    assert(list_docs(tcx, a + b) =~= list_docs(tcx, a) + list_docs(tcx, b));
    if a.len() == 0 {
        assert(a + b =~= b);
    } else {
        assert((a + b).drop_first() =~= a.drop_first() + b);
        assert((a + b)[0] == a[0]);
        lemma_list_add(tcx, a.drop_first(), b, a[0].after(tcx, m));
    }
}

/// Shows the items of a list and appends their JSON forms to `dest`.
pub(crate) fn extend_json<T: ToJson>(
    items: &Vec<T>,
    mir: &mut MirState<'_>,
    dest: &mut Vec<Value>,
)
    requires
        old(mir).wf(),
        list_ok(old(mir).tcx, items@, old(mir)@),
    ensures
        final(mir).wf(),
        final(mir).tcx == old(mir).tcx,
        json_docs(final(dest)@) == json_docs(old(dest)@) + list_docs(old(mir).tcx, items@),
        final(mir)@ == list_after(old(mir).tcx, items@, old(mir)@),
{
    let ghost tcx = mir.tcx;
    let ghost m0 = mir@;
    let ghost d0 = dest@;
    let mut i: usize = 0;
    assert(items@.skip(0) =~= items@);
    assert(json_docs(dest@) =~= json_docs(d0) + list_docs(tcx, items@.take(0)));
    while i < items.len()
        invariant
            i <= items.len(),
            mir.wf(),
            mir.tcx == tcx,
            list_ok(tcx, items@.skip(i as int), mir@),
            list_after(tcx, items@, m0) == list_after(tcx, items@.skip(i as int), mir@),
            json_docs(dest@) == json_docs(d0) + list_docs(tcx, items@.take(i as int)),
        decreases items.len() - i,
    {
        proof {
            assert(items@.skip(i as int).drop_first() =~= items@.skip(i + 1));
            assert(items@.skip(i as int)[0] == items@[i as int]);
        }
        let ghost d1 = dest@;
        let item = items[i].to_json(mir);
        dest.push(item);
        proof {
            assert(json_docs(dest@) =~= json_docs(d1).push(items@[i as int].doc(tcx)));
            assert(list_docs(tcx, items@.take(i + 1)) =~= list_docs(
                tcx,
                items@.take(i as int),
            ).push(items@[i as int].doc(tcx)));
            assert(json_docs(dest@) =~= json_docs(d0) + list_docs(tcx, items@.take(i + 1)));
        }
        i = i + 1;
    }
    assert(items@.take(items@.len() as int) =~= items@);
}

/// The documents that values hold.
pub open spec fn json_docs(vs: Seq<Value>) -> Seq<Json> {
    vs.map_values(|v: Value| json_of(v))
}

impl<T: ToJson> ToJson for Vec<T> {
    open spec fn doc(&self, tcx: &TyCtxt) -> Json {
        Json::Arr(list_docs(tcx, self@))
    }

    open spec fn after(&self, tcx: &TyCtxt, m: Mir) -> Mir {
        list_after(tcx, self@, m)
    }

    open spec fn ok(&self, tcx: &TyCtxt, m: Mir) -> bool {
        list_ok(tcx, self@, m)
    }

    proof fn keeps(&self, tcx: &TyCtxt, m: Mir) {
        lemma_list_keeps(tcx, self@, m);
    }

    fn to_json(&self, mir: &mut MirState<'_>) -> (v: Value) {
        let mut j: Vec<Value> = Vec::new();
        let ghost tcx = mir.tcx;
        extend_json(self, mir, &mut j);
        assert(json_docs(j@) =~= list_docs(tcx, self@));
        array_value(j)
    }
}

impl ToJson for DefId {
    open spec fn doc(&self, tcx: &TyCtxt) -> Json {
        def_doc(tcx, *self)
    }

    open spec fn after(&self, tcx: &TyCtxt, m: Mir) -> Mir {
        m
    }

    open spec fn ok(&self, tcx: &TyCtxt, m: Mir) -> bool {
        tcx.has_def(*self)
    }

    proof fn keeps(&self, tcx: &TyCtxt, m: Mir) {
    }

    fn to_json(&self, mir: &mut MirState<'_>) -> (v: Value) {
        string_value(def_id_str(mir.tcx, *self))
    }
}

// For references to types.  To show the definition of a data type, show an `AdtInst`.
impl ToJson for Ty {
    open spec fn doc(&self, tcx: &TyCtxt) -> Json {
        ty_ref(tcx, *self)
    }

    open spec fn after(&self, tcx: &TyCtxt, m: Mir) -> Mir {
        record(tcx, m, Refs::of_ty(*self))
    }

    open spec fn ok(&self, tcx: &TyCtxt, m: Mir) -> bool {
        refs_ok(tcx, Refs::of_ty(*self))
    }

    proof fn keeps(&self, tcx: &TyCtxt, m: Mir) {
    }

    fn to_json(&self, mir: &mut MirState<'_>) -> (v: Value) {
        ty_json(*self, mir)
    }
}

impl ToJson for GenericArg {
    open spec fn doc(&self, tcx: &TyCtxt) -> Json {
        arg_doc(tcx, *self)
    }

    open spec fn after(&self, tcx: &TyCtxt, m: Mir) -> Mir {
        record(tcx, m, arg_refs(*self))
    }

    open spec fn ok(&self, tcx: &TyCtxt, m: Mir) -> bool {
        refs_ok(tcx, arg_refs(*self))
    }

    proof fn keeps(&self, tcx: &TyCtxt, m: Mir) {
    }

    fn to_json(&self, mir: &mut MirState<'_>) -> (v: Value) {
        assert(*self matches GenericArg::Type(t) ==> {
            &&& arg_refs(*self).tys.contains(t)
            &&& mir.tcx.has_ty(t)
        });
        arg_json(*self, mir, Ghost(mir.tcx.tys@.len()))
    }
}

impl ToJson for SubstsRef {
    open spec fn doc(&self, tcx: &TyCtxt) -> Json {
        substs_doc(tcx, *self)
    }

    open spec fn after(&self, tcx: &TyCtxt, m: Mir) -> Mir {
        record(tcx, m, substs_refs(tcx, *self))
    }

    open spec fn ok(&self, tcx: &TyCtxt, m: Mir) -> bool {
        tcx.has_substs(*self) && refs_ok(tcx, substs_refs(tcx, *self))
    }

    proof fn keeps(&self, tcx: &TyCtxt, m: Mir) {
    }

    fn to_json(&self, mir: &mut MirState<'_>) -> (v: Value) {
        substs_json(*self, mir, Ghost(mir.tcx.tys@.len()))
    }
}

impl ToJson for FnSig {
    open spec fn doc(&self, tcx: &TyCtxt) -> Json {
        sig_doc(tcx, *self)
    }

    open spec fn after(&self, tcx: &TyCtxt, m: Mir) -> Mir {
        record(tcx, m, sig_refs(*self))
    }

    open spec fn ok(&self, tcx: &TyCtxt, m: Mir) -> bool {
        refs_ok(tcx, sig_refs(*self))
    }

    proof fn keeps(&self, tcx: &TyCtxt, m: Mir) {
    }

    fn to_json(&self, mir: &mut MirState<'_>) -> (v: Value) {
        proof {
            let tcx = mir.tcx;
            assert forall|i: int| 0 <= i < self.inputs.len() implies (
            #[trigger] self.inputs@[i]).0 < tcx.tys@.len() by {
                assert(self.inputs@.contains(self.inputs@[i]));
                assert(sig_refs(*self).tys.contains(self.inputs@[i]));
                assert(tcx.has_ty(self.inputs@[i]));
            }
            assert(sig_refs(*self).tys.contains(self.output));
            assert(tcx.has_ty(self.output));
        }
        sig_json(self, mir, Ghost(mir.tcx.tys@.len()))
    }
}

impl ToJson for PolyFnSig {
    open spec fn doc(&self, tcx: &TyCtxt) -> Json {
        sig_doc(tcx, self.erased)
    }

    open spec fn after(&self, tcx: &TyCtxt, m: Mir) -> Mir {
        record(tcx, m, sig_refs(self.erased))
    }

    open spec fn ok(&self, tcx: &TyCtxt, m: Mir) -> bool {
        refs_ok(tcx, sig_refs(self.erased))
    }

    proof fn keeps(&self, tcx: &TyCtxt, m: Mir) {
    }

    fn to_json(&self, mir: &mut MirState<'_>) -> (v: Value) {
        self.erased.to_json(mir)
    }
}

impl ToJson for ExistentialPredicate {
    open spec fn doc(&self, tcx: &TyCtxt) -> Json {
        ex_pred_doc(tcx, *self)
    }

    open spec fn after(&self, tcx: &TyCtxt, m: Mir) -> Mir {
        record(tcx, m, ex_pred_refs(tcx, *self))
    }

    open spec fn ok(&self, tcx: &TyCtxt, m: Mir) -> bool {
        self.below(tcx, tcx.tys@.len()) && refs_ok(tcx, ex_pred_refs(tcx, *self))
    }

    proof fn keeps(&self, tcx: &TyCtxt, m: Mir) {
    }

    fn to_json(&self, mir: &mut MirState<'_>) -> (v: Value) {
        ex_pred_json(self, mir, Ghost(mir.tcx.tys@.len()))
    }
}

impl ToJson for Const {
    open spec fn doc(&self, tcx: &TyCtxt) -> Json {
        const_doc(tcx, *self)
    }

    open spec fn after(&self, tcx: &TyCtxt, m: Mir) -> Mir {
        record(tcx, m, Refs::of_ty(self.ty))
    }

    open spec fn ok(&self, tcx: &TyCtxt, m: Mir) -> bool {
        const_ok(tcx, *self) && refs_ok(tcx, Refs::of_ty(self.ty))
    }

    proof fn keeps(&self, tcx: &TyCtxt, m: Mir) {
    }

    fn to_json(&self, mir: &mut MirState<'_>) -> (v: Value) {
        const_json(*self, mir)
    }
}

impl ToJson for Instance {
    open spec fn doc(&self, tcx: &TyCtxt) -> Json {
        inst_doc(tcx, *self)
    }

    open spec fn after(&self, tcx: &TyCtxt, m: Mir) -> Mir {
        record(tcx, m, inst_refs(tcx, *self))
    }

    open spec fn ok(&self, tcx: &TyCtxt, m: Mir) -> bool {
        inst_ok(tcx, *self)
    }

    proof fn keeps(&self, tcx: &TyCtxt, m: Mir) {
    }

    fn to_json(&self, mir: &mut MirState<'_>) -> (v: Value) {
        inst_json(*self, mir)
    }
}

/// How a place is borrowed.
#[derive(Clone, Copy, PartialEq, Eq, Structural, Debug)]
pub enum BorrowKind {
    Shared,
    Shallow,
    Unique,
    Mut { allow_two_phase_borrow: bool },
}

impl ToJson for BorrowKind {
    open spec fn doc(&self, tcx: &TyCtxt) -> Json {
        match self {
            BorrowKind::Shared => text("Shared"),
            BorrowKind::Shallow => text("Shallow"),
            BorrowKind::Unique => text("Unique"),
            BorrowKind::Mut { .. } => text("Mut"),
        }
    }

    open spec fn after(&self, tcx: &TyCtxt, m: Mir) -> Mir {
        m
    }

    open spec fn ok(&self, tcx: &TyCtxt, m: Mir) -> bool {
        true
    }

    proof fn keeps(&self, tcx: &TyCtxt, m: Mir) {
    }

    fn to_json(&self, mir: &mut MirState<'_>) -> (v: Value) {
        match self {
            BorrowKind::Shared => text_value("Shared"),
            BorrowKind::Shallow => text_value("Shallow"),
            BorrowKind::Unique => text_value("Unique"),
            BorrowKind::Mut { .. } => text_value("Mut"),
        }
    }
}

/// A type parameter, by its index.
#[derive(Clone, Copy, PartialEq, Eq, Structural, Debug)]
pub struct ParamTy {
    pub index: u32,
}

impl ToJson for ParamTy {
    open spec fn doc(&self, tcx: &TyCtxt) -> Json {
        Json::Num(self.index as nat)
    }

    open spec fn after(&self, tcx: &TyCtxt, m: Mir) -> Mir {
        m
    }

    open spec fn ok(&self, tcx: &TyCtxt, m: Mir) -> bool {
        true
    }

    proof fn keeps(&self, tcx: &TyCtxt, m: Mir) {
    }

    fn to_json(&self, mir: &mut MirState<'_>) -> (v: Value) {
        number_value(self.index as u64)
    }
}

} // verus!
