//! The state of a rendering: which types and allocations have been put into tables, and what
//! else has to be emitted.

use crate::ctxt::AdtInst;
use crate::ctxt::ConstAllocation;
use crate::ctxt::Instance;
use crate::ctxt::TraitInst;
use crate::ctxt::Ty;
use crate::ctxt::TyCtxt;
use crate::docs::closure;
use crate::docs::kind_ok;
use crate::docs::reaches;
use crate::docs::refs_ok;
use crate::docs::ty_doc;
use crate::docs::ty_refs;
use crate::docs::Refs;
use crate::json::json_of;
use crate::json::Json;
use crate::table::KeySet;
use crate::table::Table;
use serde_json::Value;
use vstd::pervasive::unreached;
use vstd::prelude::*;

verus! {

/// The state of a rendering as a mathematical value.
#[verifier::ext_equal]
pub struct Mir {
    /// The types in the table of types.
    pub tys: Set<Ty>,
    /// The data types that are in use.
    pub adts: Set<AdtInst>,
    /// The functions that are in use.
    pub insts: Set<Instance>,
    /// The traits that are in use.
    pub traits: Set<TraitInst>,
    /// The table of allocations: for an allocation seen through a pointer type, the JSON form
    /// of the static that holds it.
    pub allocs: Map<(ConstAllocation, Ty), Json>,
}

/// The types that `r` reaches and that are not in the table yet.
pub open spec fn fresh(tcx: &TyCtxt, m: Mir, r: Refs) -> Set<Ty> {
    closure(tcx, r.tys).difference(m.tys)
}

/// What `of` gives for some of the types of `tys`.
pub open spec fn gathered<X>(tys: Set<Ty>, of: spec_fn(Ty) -> Set<X>) -> Set<X> {
    Set::new(|x: X| exists|t: Ty| tys.contains(t) && (#[trigger] of(t)).contains(x))
}

/// The data types that a type refers to.
pub open spec fn adts_of(tcx: &TyCtxt) -> spec_fn(Ty) -> Set<AdtInst> {
    |t: Ty| ty_refs(tcx, t).adts
}

/// The functions that a type refers to.
pub open spec fn insts_of(tcx: &TyCtxt) -> spec_fn(Ty) -> Set<Instance> {
    |t: Ty| ty_refs(tcx, t).insts
}

/// The traits that a type refers to.
pub open spec fn traits_of(tcx: &TyCtxt) -> spec_fn(Ty) -> Set<TraitInst> {
    |t: Ty| ty_refs(tcx, t).traits
}

/// The state after something that refers to `r` has been shown: all types that are reached are
/// in the table, and what `r` and the new types of the table refer to is in use.
pub open spec fn record(tcx: &TyCtxt, m: Mir, r: Refs) -> Mir {
    let new = fresh(tcx, m, r);
    Mir {
        tys: m.tys.union(closure(tcx, r.tys)),
        adts: m.adts.union(r.adts).union(gathered(new, adts_of(tcx))),
        insts: m.insts.union(r.insts).union(gathered(new, insts_of(tcx))),
        traits: m.traits.union(r.traits).union(gathered(new, traits_of(tcx))),
        allocs: m.allocs,
    }
}

/// With a type, a table of types holds all types that it refers to.
pub open spec fn closed(tcx: &TyCtxt, tys: Set<Ty>) -> bool {
    forall|a: Ty, b: Ty|
        tys.contains(a) && (#[trigger] ty_refs(tcx, a)).tys.contains(b) ==> #[trigger] tys.contains(b)
}

/// `big` holds all that `small` holds, and the same static for each allocation of `small`.
pub open spec fn extends(big: Mir, small: Mir) -> bool {
    &&& small.tys.subset_of(big.tys)
    &&& small.adts.subset_of(big.adts)
    &&& small.insts.subset_of(big.insts)
    &&& small.traits.subset_of(big.traits)
    &&& forall|k: (ConstAllocation, Ty)| #[trigger]
        small.allocs.dom().contains(k) ==> big.allocs.dom().contains(k) && big.allocs[k]
            == small.allocs[k]
}

// ---- Lemmas about references ----

/// What the parts of a type refer to comes before the type.
pub proof fn lemma_refs_below(tcx: &TyCtxt, t: Ty)
    requires
        tcx.wf(),
        tcx.has_ty(t),
    ensures
        forall|c: Ty| #[trigger] ty_refs(tcx, t).tys.contains(c) ==> c.0 < t.0 && tcx.has_ty(c),
{
    let kind = tcx.kind_of(t);
    assert(kind.below(tcx, t.0 as nat));
    assert forall|c: Ty| #[trigger] ty_refs(tcx, t).tys.contains(c) implies c.0 < t.0 by {
        if let crate::ctxt::TyKind::Dynamic(dt, crate::ctxt::DynKind::Dyn) = kind {
            let ps = dt.predicates@;
            let f = |i: int| crate::docs::ex_pred_refs(tcx, ps[i]);
            assert(crate::docs::ex_preds_refs(tcx, ps).tys.contains(c));
            let i = choose|i: int| 0 <= i < ps.len() && (#[trigger] f(i)).tys.contains(c);
            assert(ps[i].below(tcx, t.0 as nat));
        }
    }
}

/// A closed table holds all that its types reach.
pub proof fn lemma_closed_reaches(tcx: &TyCtxt, tys: Set<Ty>, a: Ty, b: Ty)
    requires
        closed(tcx, tys),
        tys.contains(a),
        reaches(tcx, a, b),
    ensures
        tys.contains(b),
    decreases a.0,
{
    if a != b {
        let c = choose|c: Ty|
            c.0 < a.0 && #[trigger] ty_refs(tcx, a).tys.contains(c) && reaches(tcx, c, b);
        assert(tys.contains(c));
        lemma_closed_reaches(tcx, tys, c, b);
    }
}

/// What is reached from a known type is known, and reaching goes on from there.
pub proof fn lemma_reaches_step(tcx: &TyCtxt, a: Ty, b: Ty, c: Ty)
    requires
        tcx.wf(),
        tcx.has_ty(a),
        reaches(tcx, a, b),
        ty_refs(tcx, b).tys.contains(c),
    ensures
        tcx.has_ty(b),
        reaches(tcx, a, c),
    decreases a.0,
{
    if a == b {
        lemma_refs_below(tcx, a);
        assert(reaches(tcx, c, c));
    } else {
        let d = choose|d: Ty|
            d.0 < a.0 && #[trigger] ty_refs(tcx, a).tys.contains(d) && reaches(tcx, d, b);
        lemma_refs_below(tcx, a);
        lemma_reaches_step(tcx, d, b, c);
    }
}

/// A type reaches itself and what its parts reach.
pub proof fn lemma_closure_one(tcx: &TyCtxt, t: Ty)
    requires
        tcx.wf(),
        tcx.has_ty(t),
    ensures
        closure(tcx, Refs::of_ty(t).tys) == closure(tcx, ty_refs(tcx, t).tys).insert(t),
{
    lemma_refs_below(tcx, t);
    let one = Refs::of_ty(t).tys;
    let parts = ty_refs(tcx, t).tys;
    assert forall|b: Ty|
        closure(tcx, one).contains(b) == closure(tcx, parts).insert(t).contains(b) by {
        if closure(tcx, one).contains(b) {
            assert(reaches(tcx, t, b));
            if b != t {
                let c = choose|c: Ty|
                    c.0 < t.0 && #[trigger] ty_refs(tcx, t).tys.contains(c) && reaches(tcx, c, b);
                assert(closure(tcx, parts).contains(b));
            }
        }
        if b == t {
            assert(reaches(tcx, t, t));
            assert(one.contains(t));
        }
        if closure(tcx, parts).contains(b) {
            let c = choose|c: Ty| parts.contains(c) && #[trigger] reaches(tcx, c, b);
            assert(reaches(tcx, t, b));
            assert(one.contains(t));
        }
    }
    assert(closure(tcx, one) =~= closure(tcx, parts).insert(t));
}

/// The types that two sets reach together.
pub proof fn lemma_closure_union(tcx: &TyCtxt, s1: Set<Ty>, s2: Set<Ty>)
    ensures
        closure(tcx, s1.union(s2)) == closure(tcx, s1).union(closure(tcx, s2)),
{
    assert forall|b: Ty|
        closure(tcx, s1.union(s2)).contains(b) == closure(tcx, s1).union(
            closure(tcx, s2),
        ).contains(b) by {
        if closure(tcx, s1.union(s2)).contains(b) {
            let a = choose|a: Ty| s1.union(s2).contains(a) && #[trigger] reaches(tcx, a, b);
            if s1.contains(a) {
                assert(closure(tcx, s1).contains(b));
            } else {
                assert(closure(tcx, s2).contains(b));
            }
        }
        if closure(tcx, s1).contains(b) {
            let a = choose|a: Ty| s1.contains(a) && #[trigger] reaches(tcx, a, b);
            assert(s1.union(s2).contains(a));
        }
        if closure(tcx, s2).contains(b) {
            let a = choose|a: Ty| s2.contains(a) && #[trigger] reaches(tcx, a, b);
            assert(s1.union(s2).contains(a));
        }
    }
    assert(closure(tcx, s1.union(s2)) =~= closure(tcx, s1).union(closure(tcx, s2)));
}

/// Nothing is reached from nothing.
pub proof fn lemma_closure_empty(tcx: &TyCtxt)
    ensures
        closure(tcx, Set::<Ty>::empty()) == Set::<Ty>::empty(),
{
    assert(closure(tcx, Set::<Ty>::empty()) =~= Set::<Ty>::empty());
}

/// What can be shown together can be shown apart, and the other way round.
pub proof fn lemma_refs_ok_and(tcx: &TyCtxt, r1: Refs, r2: Refs)
    ensures
        refs_ok(tcx, r1.and(r2)) <==> refs_ok(tcx, r1) && refs_ok(tcx, r2),
{
    lemma_closure_union(tcx, r1.tys, r2.tys);
    let c1 = closure(tcx, r1.tys);
    let c2 = closure(tcx, r2.tys);
    if refs_ok(tcx, r1.and(r2)) {
        assert forall|t: Ty| c1.contains(t) implies kind_ok(tcx, #[trigger] tcx.kind_of(t)) by {
            assert(c1.union(c2).contains(t));
        }
        assert forall|t: Ty| c2.contains(t) implies kind_ok(tcx, #[trigger] tcx.kind_of(t)) by {
            assert(c1.union(c2).contains(t));
        }
        assert forall|t: Ty| r1.tys.contains(t) implies #[trigger] tcx.has_ty(t) by {
            assert(r1.and(r2).tys.contains(t));
        }
        assert forall|t: Ty| r2.tys.contains(t) implies #[trigger] tcx.has_ty(t) by {
            assert(r1.and(r2).tys.contains(t));
        }
    }
    if refs_ok(tcx, r1) && refs_ok(tcx, r2) {
        assert forall|t: Ty| closure(tcx, r1.and(r2).tys).contains(t) implies kind_ok(
            tcx,
            #[trigger] tcx.kind_of(t),
        ) by {
            assert(c1.contains(t) || c2.contains(t));
        }
    }
}

/// A type can be shown where its shape and its parts can be.
pub proof fn lemma_refs_ok_ty(tcx: &TyCtxt, t: Ty)
    requires
        tcx.wf(),
        refs_ok(tcx, Refs::of_ty(t)),
    ensures
        tcx.has_ty(t),
        kind_ok(tcx, tcx.kind_of(t)),
        refs_ok(tcx, ty_refs(tcx, t)),
{
    assert(Refs::of_ty(t).tys.contains(t));
    assert(tcx.has_ty(t));
    lemma_closure_one(tcx, t);
    lemma_refs_below(tcx, t);
    assert(closure(tcx, Refs::of_ty(t).tys).contains(t));
    assert forall|b: Ty| closure(tcx, ty_refs(tcx, t).tys).contains(b) implies kind_ok(
        tcx,
        #[trigger] tcx.kind_of(b),
    ) by {
        assert(closure(tcx, Refs::of_ty(t).tys).contains(b));
    }
    assert forall|c: Ty| ty_refs(tcx, t).tys.contains(c) implies #[trigger] tcx.has_ty(c) by {
        assert(ty_refs(tcx, t).tys.contains(c));
    }
}

/// Smaller references can be shown where larger ones can be.
pub proof fn lemma_refs_ok_subset(tcx: &TyCtxt, r: Refs, small: Refs)
    requires
        refs_ok(tcx, r),
        small.tys.subset_of(r.tys),
    ensures
        refs_ok(tcx, small),
{
    assert forall|t: Ty| closure(tcx, small.tys).contains(t) implies kind_ok(
        tcx,
        #[trigger] tcx.kind_of(t),
    ) by {
        let a = choose|a: Ty| small.tys.contains(a) && #[trigger] reaches(tcx, a, t);
        assert(r.tys.contains(a));
        assert(closure(tcx, r.tys).contains(t));
    }
    assert forall|t: Ty| small.tys.contains(t) implies #[trigger] tcx.has_ty(t) by {
        assert(r.tys.contains(t));
    }
}

// ---- Lemmas about states ----

/// What two sets of types give together.
pub proof fn lemma_gathered_union<X>(a: Set<Ty>, b: Set<Ty>, of: spec_fn(Ty) -> Set<X>)
    ensures
        gathered(a.union(b), of) == gathered(a, of).union(gathered(b, of)),
{
    let both = a.union(b);
    assert forall|x: X| gathered(both, of).contains(x) == gathered(a, of).union(
        gathered(b, of),
    ).contains(x) by {
        if gathered(both, of).contains(x) {
            let t = choose|t: Ty| both.contains(t) && (#[trigger] of(t)).contains(x);
            assert(a.contains(t) || b.contains(t));
        }
        if gathered(a, of).contains(x) {
            let t = choose|t: Ty| a.contains(t) && (#[trigger] of(t)).contains(x);
            assert(both.contains(t));
        }
        if gathered(b, of).contains(x) {
            let t = choose|t: Ty| b.contains(t) && (#[trigger] of(t)).contains(x);
            assert(both.contains(t));
        }
    }
    assert(gathered(both, of) =~= gathered(a, of).union(gathered(b, of)));
}

/// What no type and what one type gives.
pub proof fn lemma_gathered_few<X>(t: Ty, of: spec_fn(Ty) -> Set<X>)
    ensures
        gathered(Set::empty(), of) == Set::<X>::empty(),
        gathered(Set::empty().insert(t), of) == of(t),
{
    let one = Set::empty().insert(t);
    assert(gathered(Set::empty(), of) =~= Set::<X>::empty());
    assert forall|x: X| gathered(one, of).contains(x) == of(t).contains(x) by {
        if of(t).contains(x) {
            assert(one.contains(t));
        }
    }
    assert(gathered(one, of) =~= of(t));
}

/// Where no new type is reached, only what is referred to itself comes into use.
pub proof fn lemma_record_no_types(tcx: &TyCtxt, m: Mir, r: Refs)
    requires
        closure(tcx, r.tys).subset_of(m.tys),
    ensures
        record(tcx, m, r) == (Mir {
            adts: m.adts.union(r.adts),
            insts: m.insts.union(r.insts),
            traits: m.traits.union(r.traits),
            ..m
        }),
{
    let t = Ty(0);
    lemma_gathered_few(t, adts_of(tcx));
    lemma_gathered_few(t, insts_of(tcx));
    lemma_gathered_few(t, traits_of(tcx));
    assert(fresh(tcx, m, r) =~= Set::<Ty>::empty());
    let after = record(tcx, m, r);
    assert(after.tys =~= m.tys);
    assert(after.adts =~= m.adts.union(r.adts));
    assert(after.insts =~= m.insts.union(r.insts));
    assert(after.traits =~= m.traits.union(r.traits));
}

/// Showing one thing after another records what both refer to.
pub proof fn lemma_record_and(tcx: &TyCtxt, m: Mir, r1: Refs, r2: Refs)
    ensures
        record(tcx, record(tcx, m, r1), r2) == record(tcx, m, r1.and(r2)),
{
    lemma_closure_union(tcx, r1.tys, r2.tys);
    let m1 = record(tcx, m, r1);
    let m2 = record(tcx, m1, r2);
    let both = record(tcx, m, r1.and(r2));
    let f1 = fresh(tcx, m, r1);
    let f2 = fresh(tcx, m1, r2);
    assert(fresh(tcx, m, r1.and(r2)) =~= f1.union(f2));
    lemma_gathered_union(f1, f2, adts_of(tcx));
    lemma_gathered_union(f1, f2, insts_of(tcx));
    lemma_gathered_union(f1, f2, traits_of(tcx));
    assert(m2.tys =~= both.tys);
    assert(m2.adts =~= both.adts);
    assert(m2.insts =~= both.insts);
    assert(m2.traits =~= both.traits);
}

/// Showing something without references changes nothing.
pub proof fn lemma_record_nothing(tcx: &TyCtxt, m: Mir)
    ensures
        record(tcx, m, Refs::nothing()) == m,
{
    lemma_closure_empty(tcx);
    lemma_record_no_types(tcx, m, Refs::nothing());
    assert(m.adts.union(Set::empty()) =~= m.adts);
    assert(m.insts.union(Set::empty()) =~= m.insts);
    assert(m.traits.union(Set::empty()) =~= m.traits);
}

/// Showing a type that is in a closed table changes nothing.
pub proof fn lemma_record_known(tcx: &TyCtxt, m: Mir, t: Ty)
    requires
        closed(tcx, m.tys),
        m.tys.contains(t),
    ensures
        record(tcx, m, Refs::of_ty(t)) == m,
{
    let r = Refs::of_ty(t);
    assert forall|b: Ty| closure(tcx, r.tys).contains(b) implies m.tys.contains(b) by {
        lemma_closed_reaches(tcx, m.tys, t, b);
    }
    lemma_record_no_types(tcx, m, r);
    assert(m.adts.union(Set::empty()) =~= m.adts);
    assert(m.insts.union(Set::empty()) =~= m.insts);
    assert(m.traits.union(Set::empty()) =~= m.traits);
}

/// Showing a new type shows its parts and puts it into the table.
pub proof fn lemma_record_new(tcx: &TyCtxt, m: Mir, t: Ty)
    requires
        tcx.wf(),
        tcx.has_ty(t),
        !m.tys.contains(t),
    ensures
        record(tcx, m, Refs::of_ty(t)) == (Mir {
            tys: record(tcx, m, ty_refs(tcx, t)).tys.insert(t),
            ..record(tcx, m, ty_refs(tcx, t))
        }),
{
    lemma_closure_one(tcx, t);
    let one = Set::empty().insert(t);
    let a = record(tcx, m, Refs::of_ty(t));
    let b = record(tcx, m, ty_refs(tcx, t));
    let fb = fresh(tcx, m, ty_refs(tcx, t));
    assert(fresh(tcx, m, Refs::of_ty(t)) =~= fb.union(one));
    lemma_gathered_union(fb, one, adts_of(tcx));
    lemma_gathered_union(fb, one, insts_of(tcx));
    lemma_gathered_union(fb, one, traits_of(tcx));
    lemma_gathered_few(t, adts_of(tcx));
    lemma_gathered_few(t, insts_of(tcx));
    lemma_gathered_few(t, traits_of(tcx));
    assert(a.tys =~= b.tys.insert(t));
    assert(a.adts =~= b.adts);
    assert(a.insts =~= b.insts);
    assert(a.traits =~= b.traits);
}

// ---- The state in memory ----

/// What has to be emitted besides what is being shown.
pub struct Used {
    pub types: KeySet<AdtInst>,
    pub instances: KeySet<Instance>,
    pub traits: KeySet<TraitInst>,
}

/// An entry of the table of types: the ID of the type and its JSON form.
pub struct TyEntry {
    pub id: String,
    pub json: Value,
}

/// An entry of the table of allocations: the ID of the static that holds the allocation and the
/// JSON form of that static.
pub struct AllocEntry {
    pub id: String,
    pub body: Value,
}

/// The state of a rendering.
pub struct MirState<'a> {
    pub tcx: &'a TyCtxt,
    pub used: Used,
    pub tys: Table<Ty, TyEntry>,
    pub allocs: Table<(ConstAllocation, Ty), AllocEntry>,
}

impl<'a> View for MirState<'a> {
    type V = Mir;

    open spec fn view(&self) -> Mir {
        Mir {
            tys: self.tys@.dom(),
            adts: self.used.types@,
            insts: self.used.instances@,
            traits: self.used.traits@,
            allocs: Map::new(
                |k: (ConstAllocation, Ty)| self.allocs@.dom().contains(k),
                |k: (ConstAllocation, Ty)| json_of(self.allocs@[k].body),
            ),
        }
    }
}

impl<'a> MirState<'a> {
    /// The table of types holds the ID and the JSON form of each of its types.
    pub open spec fn tys_wf(&self) -> bool {
        forall|t: Ty|
            #[trigger] self.tys@.dom().contains(t) ==> {
                &&& self.tcx.has_ty(t)
                &&& kind_ok(self.tcx, self.tcx.kind_of(t))
                &&& self.tys@[t].id@ == self.tcx.ty_data(t).id@
                &&& json_of(self.tys@[t].json) == ty_doc(self.tcx, t)
            }
    }

    /// The table of allocations holds the ID of each of its allocations.
    pub open spec fn allocs_wf(&self) -> bool {
        forall|k: (ConstAllocation, Ty)|
            #[trigger] self.allocs@.dom().contains(k) ==> {
                &&& self.tcx.alloc_ids@.dom().contains(k)
                &&& self.allocs@[k].id@ == self.tcx.alloc_ids@[k]@
            }
    }

    /// The state is consistent: with a type, the table of types holds all types that it refers
    /// to.
    pub open spec fn wf(&self) -> bool {
        &&& self.tcx.wf()
        &&& self.used.types.wf()
        &&& self.used.instances.wf()
        &&& self.used.traits.wf()
        &&& self.tys_wf()
        &&& self.allocs_wf()
        &&& closed(self.tcx, self.tys@.dom())
    }

    /// The state in which nothing has been shown.
    pub fn new(tcx: &'a TyCtxt) -> (s: Self)
        requires
            tcx.wf(),
        ensures
            s.wf(),
            s.tcx == tcx,
            s@.tys == Set::<Ty>::empty(),
            s@.adts == Set::<AdtInst>::empty(),
            s@.insts == Set::<Instance>::empty(),
            s@.traits == Set::<TraitInst>::empty(),
            s@.allocs == Map::<(ConstAllocation, Ty), Json>::empty(),
    {
        let s = MirState {
            tcx,
            used: Used {
                types: KeySet::new(),
                instances: KeySet::new(),
                traits: KeySet::new(),
            },
            tys: Table::new(),
            allocs: Table::new(),
        };
        assert(s@.tys =~= Set::<Ty>::empty());
        assert(s@.allocs =~= Map::<(ConstAllocation, Ty), Json>::empty());
        s
    }

    /// Notes that a data type is in use.
    pub(crate) fn use_type(&mut self, ai: AdtInst)
        requires
            old(self).wf(),
        ensures
            final(self).wf(),
            final(self).tcx == old(self).tcx,
            final(self)@ == record(old(self).tcx, old(self)@, Refs::of_adt(ai)),
    {
        self.used.types.insert(ai);
        proof {
            lemma_closure_empty(self.tcx);
            lemma_record_no_types(self.tcx, old(self)@, Refs::of_adt(ai));
            assert(self@ =~= record(self.tcx, old(self)@, Refs::of_adt(ai)));
        }
    }

    /// Notes that a function is in use.
    pub(crate) fn use_instance(&mut self, inst: Instance)
        requires
            old(self).wf(),
        ensures
            final(self).wf(),
            final(self).tcx == old(self).tcx,
            final(self)@ == record(old(self).tcx, old(self)@, Refs::of_inst(inst)),
    {
        self.used.instances.insert(inst);
        proof {
            lemma_closure_empty(self.tcx);
            lemma_record_no_types(self.tcx, old(self)@, Refs::of_inst(inst));
            assert(self@ =~= record(self.tcx, old(self)@, Refs::of_inst(inst)));
        }
    }

    /// Notes that a trait is in use.
    pub(crate) fn use_trait(&mut self, ti: TraitInst)
        requires
            old(self).wf(),
        ensures
            final(self).wf(),
            final(self).tcx == old(self).tcx,
            final(self)@ == record(old(self).tcx, old(self)@, Refs::of_trait(ti)),
    {
        self.used.traits.insert(ti);
        proof {
            lemma_closure_empty(self.tcx);
            lemma_record_no_types(self.tcx, old(self)@, Refs::of_trait(ti));
            assert(self@ =~= record(self.tcx, old(self)@, Refs::of_trait(ti)));
        }
    }

    /// The ID of a type, if it is in the table of types.
    pub(crate) fn ty_id(&self, ty: Ty) -> (id: Option<&String>)
        requires
            self.wf(),
        ensures
            id is Some <==> self@.tys.contains(ty),
            id matches Some(s) ==> s@ == self.tcx.ty_data(ty).id@,
    {
        match self.tys.get(&ty) {
            Some(entry) => Some(&entry.id),
            None => None,
        }
    }

    /// Puts a type with its JSON form into the table of types; returns its ID.
    pub(crate) fn insert_ty(&mut self, ty: Ty, json: Value) -> (id: String)
        requires
            old(self).wf(),
            old(self).tcx.has_ty(ty),
            kind_ok(old(self).tcx, old(self).tcx.kind_of(ty)),
            json_of(json) == ty_doc(old(self).tcx, ty),
            ty_refs(old(self).tcx, ty).tys.subset_of(old(self)@.tys),
        ensures
            final(self).wf(),
            final(self).tcx == old(self).tcx,
            id@ == old(self).tcx.ty_data(ty).id@,
            final(self)@ == (Mir { tys: old(self)@.tys.insert(ty), ..old(self)@ }),
    {
        let id = self.tcx.tys[ty.0].id.clone();
        self.tys.insert(ty, TyEntry { id: id.clone(), json });
        proof {
            assert(self@.tys =~= old(self)@.tys.insert(ty));
            assert(self@.allocs =~= old(self)@.allocs);
        }
        id
    }

    /// The ID of the static that holds an allocation seen through a pointer type, if it is in
    /// the table of allocations.
    pub(crate) fn alloc_id(&self, alloc: ConstAllocation, ty: Ty) -> (id: Option<&String>)
        requires
            self.wf(),
        ensures
            id is Some <==> self@.allocs.dom().contains((alloc, ty)),
            id matches Some(s) ==> s@ == self.tcx.alloc_ids@[(alloc, ty)]@,
    {
        match self.allocs.get(&(alloc, ty)) {
            Some(entry) => Some(&entry.id),
            None => None,
        }
    }

    /// Puts an allocation seen through a pointer type into the table of allocations; returns
    /// its ID.
    pub(crate) fn insert_alloc(&mut self, alloc: ConstAllocation, ty: Ty, body: Value) -> (id: String)
        requires
            old(self).wf(),
            old(self).tcx.alloc_ids@.dom().contains((alloc, ty)),
        ensures
            final(self).wf(),
            final(self).tcx == old(self).tcx,
            id@ == old(self).tcx.alloc_ids@[(alloc, ty)]@,
            final(self)@ == (Mir {
                allocs: old(self)@.allocs.insert((alloc, ty), json_of(body)),
                ..old(self)@
            }),
    {
        let tcx = self.tcx;
        let id = match tcx.alloc_ids.get(&(alloc, ty)) {
            Some(id) => id.clone(),
            None => unreached(),
        };
        self.allocs.insert((alloc, ty), AllocEntry { id: id.clone(), body });
        proof {
            assert(self@.allocs =~= old(self)@.allocs.insert((alloc, ty), json_of(body)));
        }
        id
    }
}

} // verus!
