//! The JSON forms of types.

use crate::consts::get_const_usize;
use crate::ctxt::args_below;
use crate::ctxt::tys_below;
use crate::ctxt::AdtInst;
use crate::ctxt::AliasKind;
use crate::ctxt::Const;
use crate::ctxt::ConstKind;
use crate::ctxt::DynKind;
use crate::ctxt::ExistentialPredicate;
use crate::ctxt::FnSig;
use crate::ctxt::GenericArg;
use crate::ctxt::SubstsRef;
use crate::ctxt::Term;
use crate::ctxt::Ty;
use crate::ctxt::TyKind;
use crate::ctxt::ValTree;
use crate::docs::any_of;
use crate::docs::arg_doc;
use crate::docs::args_doc;
use crate::docs::const_doc;
use crate::docs::const_ok;
use crate::docs::ex_pred_doc;
use crate::docs::ex_pred_refs;
use crate::docs::ex_preds_doc;
use crate::docs::ex_preds_refs;
use crate::docs::kind_doc;
use crate::docs::kind_ok;
use crate::docs::kind_refs;
use crate::docs::refs_ok;
use crate::docs::sig_doc;
use crate::docs::sig_refs;
use crate::docs::substs_doc;
use crate::docs::substs_refs;
use crate::docs::ty_ref;
use crate::docs::ty_refs;
use crate::docs::ty_refs_doc;
use crate::docs::Refs;
use crate::json::array_value;
use crate::json::clone_value;
use crate::json::json_of;
use crate::json::new_object;
use crate::json::number_value;
use crate::json::object_value;
use crate::json::put;
use crate::json::string_value;
use crate::json::tagged;
use crate::json::text_value;
use crate::names::adt_inst_id_str;
use crate::names::def_id_str;
use crate::names::get_fn_def_name;
use crate::names::trait_inst_id_str;
use crate::state::lemma_record_and;
use crate::state::lemma_record_known;
use crate::state::lemma_record_new;
use crate::state::lemma_record_nothing;
use crate::state::lemma_refs_below;
use crate::state::lemma_refs_ok_and;
use crate::state::lemma_refs_ok_subset;
use crate::state::lemma_refs_ok_ty;
use crate::state::record;
use crate::state::MirState;
use crate::text::dec_text;
use serde_json::Value;
use vstd::pervasive::unreached;
use vstd::prelude::*;

verus! {

/// The references of a list of types, one type at a time.
pub proof fn lemma_of_tys_step(s: Seq<Ty>, i: int)
    requires
        0 <= i < s.len(),
    ensures
        Refs::of_tys(s.take(i)).and(Refs::of_ty(s[i])) == Refs::of_tys(s.take(i + 1)),
        Refs::of_ty(s[i]).tys.subset_of(Refs::of_tys(s).tys),
{
    let a = Refs::of_tys(s.take(i)).and(Refs::of_ty(s[i]));
    let b = Refs::of_tys(s.take(i + 1));
    assert forall|t: Ty| a.tys.contains(t) == b.tys.contains(t) by {
        if s.take(i).contains(t) {
            let j = choose|j: int| 0 <= j < i && #[trigger] s.take(i)[j] == t;
            assert(s.take(i + 1)[j] == t);
        }
        if t == s[i] {
            assert(s.take(i + 1)[i] == t);
        }
        if s.take(i + 1).contains(t) {
            let j = choose|j: int| 0 <= j < i + 1 && #[trigger] s.take(i + 1)[j] == t;
            if j < i {
                assert(s.take(i)[j] == t);
            }
        }
    }
    assert(a.tys =~= b.tys);
    assert(a =~= b);
    assert(s.contains(s[i]));
}

/// What a generic argument refers to.
pub open spec fn arg_refs(arg: GenericArg) -> Refs {
    match arg {
        GenericArg::Type(t) => Refs::of_ty(t),
        _ => Refs::nothing(),
    }
}

/// The references of a list of generic arguments, one argument at a time.
pub proof fn lemma_of_args_step(s: Seq<GenericArg>, i: int)
    requires
        0 <= i < s.len(),
    ensures
        Refs::of_args(s.take(i)).and(arg_refs(s[i])) == Refs::of_args(s.take(i + 1)),
        arg_refs(s[i]).tys.subset_of(Refs::of_args(s).tys),
{
    let a = Refs::of_args(s.take(i)).and(arg_refs(s[i]));
    let b = Refs::of_args(s.take(i + 1));
    assert forall|t: Ty| a.tys.contains(t) == b.tys.contains(t) by {
        let x = GenericArg::Type(t);
        if s.take(i).contains(x) {
            let j = choose|j: int| 0 <= j < i && #[trigger] s.take(i)[j] == x;
            assert(s.take(i + 1)[j] == x);
        }
        if x == s[i] {
            assert(s.take(i + 1)[i] == x);
        }
        if s.take(i + 1).contains(x) {
            let j = choose|j: int| 0 <= j < i + 1 && #[trigger] s.take(i + 1)[j] == x;
            if j < i {
                assert(s.take(i)[j] == x);
            }
        }
    }
    assert(a.tys =~= b.tys);
    assert(a =~= b);
    assert(s.contains(s[i]));
}

/// What is in one of several sets, one set at a time.
proof fn lemma_any_of_step<X>(f: spec_fn(int) -> Set<X>, i: nat, n: nat)
    requires
        i < n,
    ensures
        any_of(i, f).union(f(i as int)) == any_of(i + 1, f),
        f(i as int).subset_of(any_of(n, f)),
{
    let more = any_of(i, f).union(f(i as int));
    assert forall|x: X| #[trigger] more.contains(x) == any_of(i + 1, f).contains(x) by {
        if any_of(i + 1, f).contains(x) {
            let j = choose|j: int| 0 <= j < i + 1 && (#[trigger] f(j)).contains(x);
            assert(j < i || j == i);
        }
    }
    assert(more =~= any_of(i + 1, f));
}

/// The references of several things, one at a time.
pub proof fn lemma_each_step(f: spec_fn(int) -> Refs, i: nat, n: nat)
    requires
        i < n,
    ensures
        Refs::each(i, f).and(f(i as int)) == Refs::each(i + 1, f),
        f(i as int).tys.subset_of(Refs::each(n, f).tys),
{
    lemma_any_of_step(|j: int| f(j).tys, i, n);
    lemma_any_of_step(|j: int| f(j).adts, i, n);
    lemma_any_of_step(|j: int| f(j).insts, i, n);
    lemma_any_of_step(|j: int| f(j).traits, i, n);
    assert(Refs::each(i, f).and(f(i as int)) =~= Refs::each(i + 1, f));
}

/// Empty lists have no references.
pub proof fn lemma_no_items(f: spec_fn(int) -> Refs)
    ensures
        Refs::each(0, f) == Refs::nothing(),
        Refs::of_tys(Seq::<Ty>::empty()) == Refs::nothing(),
        Refs::of_args(Seq::<GenericArg>::empty()) == Refs::nothing(),
{
    assert(Refs::each(0, f).tys =~= Refs::nothing().tys);
    assert(Refs::each(0, f).adts =~= Refs::nothing().adts);
    assert(Refs::each(0, f).insts =~= Refs::nothing().insts);
    assert(Refs::each(0, f).traits =~= Refs::nothing().traits);
    assert(Refs::of_tys(Seq::<Ty>::empty()).tys =~= Refs::nothing().tys);
    assert(Refs::of_args(Seq::<GenericArg>::empty()).tys =~= Refs::nothing().tys);
}

/// A reference to a type.  The type is put into the table of types where it is not there yet.
pub(crate) fn ty_json(ty: Ty, mir: &mut MirState<'_>) -> (v: Value)
    requires
        old(mir).wf(),
        refs_ok(old(mir).tcx, Refs::of_ty(ty)),
    ensures
        final(mir).wf(),
        final(mir).tcx == old(mir).tcx,
        json_of(v) == ty_ref(old(mir).tcx, ty),
        final(mir)@ == record(old(mir).tcx, old(mir)@, Refs::of_ty(ty)),
    decreases ty.0, 10nat,
{
    let tcx = mir.tcx;
    // If this type has already been interned, just return its ID.
    if let Some(id) = mir.ty_id(ty) {
        proof {
            lemma_record_known(tcx, mir@, ty);
        }
        return text_value(id.as_str());
    }
    // Otherwise, convert the type to JSON and add the new entry to the interning table.
    proof {
        lemma_refs_ok_ty(tcx, ty);
        assert(tcx.kind_of(ty).below(tcx, ty.0 as nat));
    }
    let j = kind_json(tcx.kind(ty), mir, Ghost(ty.0 as nat));
    proof {
        lemma_record_new(tcx, old(mir)@, ty);
        lemma_refs_below(tcx, ty);
        let parts = ty_refs(tcx, ty).tys;
        assert forall|t: Ty| parts.contains(t) implies mir@.tys.contains(t) by {
            assert(crate::docs::reaches(tcx, t, t));
            assert(crate::docs::closure(tcx, parts).contains(t));
        }
    }
    let id = mir.insert_ty(ty, j);
    string_value(id)
}

/// References to types.
pub(crate) fn tys_json(tys: &Vec<Ty>, mir: &mut MirState<'_>, Ghost(n): Ghost<nat>) -> (v: Value)
    requires
        old(mir).wf(),
        tys_below(tys@, n),
        refs_ok(old(mir).tcx, Refs::of_tys(tys@)),
    ensures
        final(mir).wf(),
        final(mir).tcx == old(mir).tcx,
        json_of(v) == ty_refs_doc(old(mir).tcx, tys@),
        final(mir)@ == record(old(mir).tcx, old(mir)@, Refs::of_tys(tys@)),
    decreases n, 1nat,
{
    let ghost tcx = mir.tcx;
    let ghost m0 = mir@;
    let mut items: Vec<Value> = Vec::new();
    let mut i: usize = 0;
    proof {
        lemma_no_items(|i: int| Refs::nothing());
        assert(tys@.take(0) =~= Seq::<Ty>::empty());
        lemma_record_nothing(tcx, m0);
    }
    while i < tys.len()
        invariant
            i <= tys.len(),
            mir.wf(),
            mir.tcx == tcx,
            tys_below(tys@, n),
            refs_ok(tcx, Refs::of_tys(tys@)),
            mir@ == record(tcx, m0, Refs::of_tys(tys@.take(i as int))),
            items.len() == i,
            forall|j: int| 0 <= j < i ==> json_of(#[trigger] items@[j]) == ty_ref(tcx, tys@[j]),
        decreases tys.len() - i,
    {
        proof {
            lemma_of_tys_step(tys@, i as int);
            lemma_refs_ok_subset(tcx, Refs::of_tys(tys@), Refs::of_ty(tys@[i as int]));
            lemma_record_and(
                tcx,
                m0,
                Refs::of_tys(tys@.take(i as int)),
                Refs::of_ty(tys@[i as int]),
            );
        }
        let item = ty_json(tys[i], mir);
        items.push(item);
        i = i + 1;
    }
    assert(tys@.take(tys@.len() as int) =~= tys@);
    let v = array_value(items);
    assert(json_of(v)->Arr_0 =~= ty_refs_doc(tcx, tys@)->Arr_0);
    v
}

/// A generic argument.
///
/// All entries of a list of generic arguments count as types; there are dummies for the entries
/// that are no types.  What stands for them looks vaguely like the ID of a type.
pub(crate) fn arg_json(arg: GenericArg, mir: &mut MirState<'_>, Ghost(n): Ghost<nat>) -> (v: Value)
    requires
        old(mir).wf(),
        arg matches GenericArg::Type(t) ==> t.0 < n,
        refs_ok(old(mir).tcx, arg_refs(arg)),
    ensures
        final(mir).wf(),
        final(mir).tcx == old(mir).tcx,
        json_of(v) == arg_doc(old(mir).tcx, arg),
        final(mir)@ == record(old(mir).tcx, old(mir)@, arg_refs(arg)),
    decreases n, 0nat,
{
    proof {
        lemma_record_nothing(mir.tcx, mir@);
    }
    match arg {
        GenericArg::Type(ty) => ty_json(ty, mir),
        GenericArg::Lifetime => text_value("nonty::Lifetime"),
        GenericArg::Const => text_value("nonty::Const"),
    }
}

/// Generic arguments.
pub(crate) fn args_json(args: &Vec<GenericArg>, mir: &mut MirState<'_>, Ghost(n): Ghost<nat>) -> (v: Value)
    requires
        old(mir).wf(),
        args_below(args@, n),
        refs_ok(old(mir).tcx, Refs::of_args(args@)),
    ensures
        final(mir).wf(),
        final(mir).tcx == old(mir).tcx,
        json_of(v) == args_doc(old(mir).tcx, args@),
        final(mir)@ == record(old(mir).tcx, old(mir)@, Refs::of_args(args@)),
    decreases n, 1nat,
{
    let ghost tcx = mir.tcx;
    let ghost m0 = mir@;
    let mut items: Vec<Value> = Vec::new();
    let mut i: usize = 0;
    proof {
        lemma_no_items(|i: int| Refs::nothing());
        assert(args@.take(0) =~= Seq::<GenericArg>::empty());
        lemma_record_nothing(tcx, m0);
    }
    while i < args.len()
        invariant
            i <= args.len(),
            mir.wf(),
            mir.tcx == tcx,
            args_below(args@, n),
            refs_ok(tcx, Refs::of_args(args@)),
            mir@ == record(tcx, m0, Refs::of_args(args@.take(i as int))),
            items.len() == i,
            forall|j: int| 0 <= j < i ==> json_of(#[trigger] items@[j]) == arg_doc(tcx, args@[j]),
        decreases args.len() - i,
    {
        proof {
            lemma_of_args_step(args@, i as int);
            lemma_refs_ok_subset(tcx, Refs::of_args(args@), arg_refs(args@[i as int]));
            lemma_record_and(
                tcx,
                m0,
                Refs::of_args(args@.take(i as int)),
                arg_refs(args@[i as int]),
            );
        }
        let item = arg_json(args[i], mir, Ghost(n));
        items.push(item);
        i = i + 1;
    }
    assert(args@.take(args@.len() as int) =~= args@);
    let v = array_value(items);
    assert(json_of(v)->Arr_0 =~= args_doc(tcx, args@)->Arr_0);
    v
}

/// Generic arguments.
pub(crate) fn substs_json(substs: SubstsRef, mir: &mut MirState<'_>, Ghost(n): Ghost<nat>) -> (v: Value)
    requires
        old(mir).wf(),
        old(mir).tcx.substs_below(substs, n),
        refs_ok(old(mir).tcx, substs_refs(old(mir).tcx, substs)),
    ensures
        final(mir).wf(),
        final(mir).tcx == old(mir).tcx,
        json_of(v) == substs_doc(old(mir).tcx, substs),
        final(mir)@ == record(old(mir).tcx, old(mir)@, substs_refs(old(mir).tcx, substs)),
    decreases n, 2nat,
{
    let tcx = mir.tcx;
    args_json(tcx.args(substs), mir, Ghost(n))
}

/// A function signature.
pub(crate) fn sig_json(sig: &FnSig, mir: &mut MirState<'_>, Ghost(n): Ghost<nat>) -> (v: Value)
    requires
        old(mir).wf(),
        sig.below(n),
        refs_ok(old(mir).tcx, sig_refs(*sig)),
    ensures
        final(mir).wf(),
        final(mir).tcx == old(mir).tcx,
        json_of(v) == sig_doc(old(mir).tcx, *sig),
        final(mir)@ == record(old(mir).tcx, old(mir)@, sig_refs(*sig)),
    decreases n, 2nat,
{
    proof {
        lemma_refs_ok_and(mir.tcx, Refs::of_tys(sig.inputs@), Refs::of_ty(sig.output));
        lemma_record_and(mir.tcx, mir@, Refs::of_tys(sig.inputs@), Refs::of_ty(sig.output));
    }
    let mut o = new_object();
    let inputs = tys_json(&sig.inputs, mir, Ghost(n));
    put(&mut o, "inputs", inputs);
    let output = ty_json(sig.output, mir);
    put(&mut o, "output", output);
    put(&mut o, "abi", clone_value(&sig.abi.json));
    object_value(o)
}

/// A predicate of a trait object type.
pub(crate) fn ex_pred_json(
    p: &ExistentialPredicate,
    mir: &mut MirState<'_>,
    Ghost(n): Ghost<nat>,
) -> (v: Value)
    requires
        old(mir).wf(),
        p.below(old(mir).tcx, n),
        refs_ok(old(mir).tcx, ex_pred_refs(old(mir).tcx, *p)),
    ensures
        final(mir).wf(),
        final(mir).tcx == old(mir).tcx,
        json_of(v) == ex_pred_doc(old(mir).tcx, *p),
        final(mir)@ == record(old(mir).tcx, old(mir)@, ex_pred_refs(old(mir).tcx, *p)),
    decreases n, 3nat,
{
    let tcx = mir.tcx;
    proof {
        lemma_record_nothing(tcx, mir@);
    }
    match p {
        ExistentialPredicate::Trait { def_id, substs } => {
            let mut o = tagged("Trait");
            put(&mut o, "trait", string_value(def_id_str(tcx, *def_id)));
            let args = substs_json(*substs, mir, Ghost(n));
            put(&mut o, "substs", args);
            object_value(o)
        },
        ExistentialPredicate::Projection { def_id, substs, term } => match term {
            Term::Ty(ty) => {
                proof {
                    lemma_refs_ok_and(tcx, substs_refs(tcx, *substs), Refs::of_ty(*ty));
                    lemma_record_and(tcx, mir@, substs_refs(tcx, *substs), Refs::of_ty(*ty));
                }
                let mut o = tagged("Projection");
                put(&mut o, "proj", string_value(def_id_str(tcx, *def_id)));
                let args = substs_json(*substs, mir, Ghost(n));
                put(&mut o, "substs", args);
                let rhs = ty_json(*ty, mir);
                put(&mut o, "rhs_ty", rhs);
                object_value(o)
            },
            Term::Const => object_value(tagged("Projection_Const")),
        },
        ExistentialPredicate::AutoTrait(did) => {
            let mut o = tagged("AutoTrait");
            put(&mut o, "trait", string_value(def_id_str(tcx, *did)));
            object_value(o)
        },
    }
}

/// The predicates of a trait object type.
pub(crate) fn ex_preds_json(
    ps: &Vec<ExistentialPredicate>,
    mir: &mut MirState<'_>,
    Ghost(n): Ghost<nat>,
) -> (v: Value)
    requires
        old(mir).wf(),
        forall|i: int| 0 <= i < ps.len() ==> (#[trigger] ps@[i]).below(old(mir).tcx, n),
        refs_ok(old(mir).tcx, ex_preds_refs(old(mir).tcx, ps@)),
    ensures
        final(mir).wf(),
        final(mir).tcx == old(mir).tcx,
        json_of(v) == ex_preds_doc(old(mir).tcx, ps@),
        final(mir)@ == record(old(mir).tcx, old(mir)@, ex_preds_refs(old(mir).tcx, ps@)),
    decreases n, 4nat,
{
    let ghost tcx = mir.tcx;
    let ghost m0 = mir@;
    let ghost f = |i: int| ex_pred_refs(tcx, ps@[i]);
    let mut items: Vec<Value> = Vec::new();
    let mut i: usize = 0;
    proof {
        lemma_no_items(f);
        lemma_record_nothing(tcx, m0);
        assert(ex_preds_refs(tcx, ps@) == Refs::each(ps@.len(), f));
    }
    while i < ps.len()
        invariant
            i <= ps.len(),
            mir.wf(),
            mir.tcx == tcx,
            f == (|i: int| ex_pred_refs(tcx, ps@[i])),
            forall|i: int| 0 <= i < ps.len() ==> (#[trigger] ps@[i]).below(tcx, n),
            refs_ok(tcx, Refs::each(ps@.len(), f)),
            mir@ == record(tcx, m0, Refs::each(i as nat, f)),
            items.len() == i,
            forall|j: int| 0 <= j < i ==> json_of(#[trigger] items@[j]) == ex_pred_doc(tcx, ps@[j]),
        decreases ps.len() - i,
    {
        proof {
            lemma_each_step(f, i as nat, ps@.len());
            lemma_refs_ok_subset(tcx, Refs::each(ps@.len(), f), f(i as int));
            lemma_record_and(tcx, m0, Refs::each(i as nat, f), f(i as int));
        }
        let item = ex_pred_json(&ps[i], mir, Ghost(n));
        items.push(item);
        i = i + 1;
    }
    let v = array_value(items);
    assert(json_of(v)->Arr_0 =~= ex_preds_doc(tcx, ps@)->Arr_0);
    v
}

/// A constant of the type system that is a number of the size of a pointer.
pub(crate) fn const_json(c: Const, mir: &mut MirState<'_>) -> (v: Value)
    requires
        old(mir).wf(),
        const_ok(old(mir).tcx, c),
        refs_ok(old(mir).tcx, Refs::of_ty(c.ty)),
    ensures
        final(mir).wf(),
        final(mir).tcx == old(mir).tcx,
        json_of(v) == const_doc(old(mir).tcx, c),
        final(mir)@ == record(old(mir).tcx, old(mir)@, Refs::of_ty(c.ty)),
    decreases c.ty.0, 11nat,
{
    let tcx = mir.tcx;
    let mut o = new_object();
    let ty = ty_json(c.ty, mir);
    put(&mut o, "ty", ty);
    let size: u64 = match c.kind {
        ConstKind::Value(ValTree::Leaf(val)) => val.size,
        _ => unreached(),
    };
    let mut rendered = tagged("usize");
    put(&mut rendered, "size", number_value(size));
    put(&mut rendered, "val", string_value(dec_text(get_const_usize(tcx, c) as u128)));
    put(&mut o, "rendered", object_value(rendered));
    object_value(o)
}

/// The shape of a type.
pub(crate) fn kind_json(kind: &TyKind, mir: &mut MirState<'_>, Ghost(n): Ghost<nat>) -> (v: Value)
    requires
        old(mir).wf(),
        kind.below(old(mir).tcx, n),
        kind_ok(old(mir).tcx, *kind),
        refs_ok(old(mir).tcx, kind_refs(old(mir).tcx, *kind)),
    ensures
        final(mir).wf(),
        final(mir).tcx == old(mir).tcx,
        json_of(v) == kind_doc(old(mir).tcx, *kind),
        final(mir)@ == record(old(mir).tcx, old(mir)@, kind_refs(old(mir).tcx, *kind)),
    decreases n, 9nat,
{
    let tcx = mir.tcx;
    proof {
        lemma_record_nothing(tcx, mir@);
    }
    match kind {
        TyKind::Bool => object_value(tagged("Bool")),
        TyKind::Char => object_value(tagged("Char")),
        TyKind::Int(t) => {
            let mut o = tagged("Int");
            put(&mut o, "intkind", clone_value(&t.json));
            object_value(o)
        },
        TyKind::Uint(t) => {
            let mut o = tagged("Uint");
            put(&mut o, "uintkind", clone_value(&t.json));
            object_value(o)
        },
        TyKind::Tuple(tys) => {
            let mut o = tagged("Tuple");
            let tys = tys_json(tys, mir, Ghost(n));
            put(&mut o, "tys", tys);
            object_value(o)
        },
        TyKind::Slice(t) => {
            let mut o = tagged("Slice");
            let ty = ty_json(*t, mir);
            put(&mut o, "ty", ty);
            object_value(o)
        },
        TyKind::Str => object_value(tagged("Str")),
        TyKind::Float(t) => {
            let mut o = tagged("Float");
            put(&mut o, "size", clone_value(&t.json));
            object_value(o)
        },
        TyKind::Array(t, size) => {
            proof {
                lemma_refs_ok_and(tcx, Refs::of_ty(*t), Refs::of_ty(size.ty));
                lemma_record_and(tcx, mir@, Refs::of_ty(*t), Refs::of_ty(size.ty));
            }
            let mut o = tagged("Array");
            let ty = ty_json(*t, mir);
            put(&mut o, "ty", ty);
            let size = const_json(*size, mir);
            put(&mut o, "size", size);
            object_value(o)
        },
        TyKind::Ref(t, mtbl) => {
            let mut o = tagged("Ref");
            let ty = ty_json(*t, mir);
            put(&mut o, "ty", ty);
            put(&mut o, "mutability", clone_value(&mtbl.json));
            object_value(o)
        },
        TyKind::RawPtr(t, mtbl) => {
            let mut o = tagged("RawPtr");
            let ty = ty_json(*t, mir);
            put(&mut o, "ty", ty);
            put(&mut o, "mutability", clone_value(&mtbl.json));
            object_value(o)
        },
        TyKind::Adt(adt, substs) => {
            let ai = AdtInst { adt: *adt, substs: *substs };
            proof {
                lemma_refs_ok_and(tcx, Refs::of_adt(ai), substs_refs(tcx, *substs));
                lemma_record_and(tcx, mir@, Refs::of_adt(ai), substs_refs(tcx, *substs));
                assert(tcx.adt_data(*adt).within(tcx));
            }
            mir.use_type(ai);
            let mut o = tagged("Adt");
            put(&mut o, "name", string_value(adt_inst_id_str(tcx, ai)));
            put(&mut o, "orig_def_id", string_value(def_id_str(tcx, tcx.adts[adt.0].did)));
            let args = substs_json(*substs, mir, Ghost(n));
            put(&mut o, "substs", args);
            object_value(o)
        },
        TyKind::FnDef(defid, substs) => {
            let name = get_fn_def_name(mir, *defid, *substs);
            let mut o = tagged("FnDef");
            put(&mut o, "defid", string_value(name));
            object_value(o)
        },
        TyKind::Closure(upvar_tys) => {
            // Closures have the same representation as tuples, so no additional information is
            // needed.
            let mut o = tagged("Closure");
            let tys = tys_json(upvar_tys, mir, Ghost(n));
            put(&mut o, "upvar_tys", tys);
            object_value(o)
        },
        TyKind::Dynamic(dt, DynKind::Dyn) => {
            let ti = dt.trait_inst;
            proof {
                lemma_refs_ok_and(tcx, Refs::of_trait(ti), ex_preds_refs(tcx, dt.predicates@));
                lemma_record_and(
                    tcx,
                    mir@,
                    Refs::of_trait(ti),
                    ex_preds_refs(tcx, dt.predicates@),
                );
            }
            let trait_name = trait_inst_id_str(tcx, &ti);
            mir.use_trait(ti);
            let mut o = tagged("Dynamic");
            put(&mut o, "trait_id", string_value(trait_name));
            let predicates = ex_preds_json(&dt.predicates, mir, Ghost(n));
            put(&mut o, "predicates", predicates);
            object_value(o)
        },
        TyKind::Dynamic(_, DynKind::DynStar) => object_value(tagged("DynamicStar")),
        TyKind::FnPtr(sig) => {
            let mut o = tagged("FnPtr");
            let signature = sig_json(&sig.erased, mir, Ghost(n));
            put(&mut o, "signature", signature);
            object_value(o)
        },
        TyKind::Never => object_value(tagged("Never")),
        TyKind::Error => object_value(tagged("Error")),
        TyKind::Infer => object_value(tagged("Infer")),
        TyKind::Bound => object_value(tagged("Bound")),
        TyKind::Placeholder => object_value(tagged("Placeholder")),
        TyKind::Foreign => object_value(tagged("Foreign")),
        TyKind::Generator => object_value(tagged("Generator")),
        TyKind::GeneratorWitness => object_value(tagged("GeneratorWitness")),
        TyKind::Alias(AliasKind::Opaque) => object_value(tagged("Alias")),
        // Neither should remain after monomorphization.
        TyKind::Alias(AliasKind::Projection) | TyKind::Param => unreached(),
    }
}

} // verus!
