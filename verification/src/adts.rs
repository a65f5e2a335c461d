//! The JSON forms of data types.

use crate::ctxt::AdtInst;
use crate::ctxt::AdtKind;
use crate::ctxt::DefId;
use crate::ctxt::FieldDef;
use crate::ctxt::SubstsRef;
use crate::ctxt::Ty;
use crate::ctxt::TyCtxt;
use crate::ctxt::VariantDef;
use crate::ctxt::VariantDiscr;
use crate::ctxt::VariantIdx;
use crate::docs::adt_doc;
use crate::docs::adt_kind_refs;
use crate::docs::adt_ok;
use crate::docs::adt_refs;
use crate::docs::any_of;
use crate::docs::discr_doc;
use crate::docs::discr_ok;
use crate::docs::discr_refs;
use crate::docs::field_doc;
use crate::docs::field_ok;
use crate::docs::field_refs;
use crate::docs::fields_doc;
use crate::docs::fields_refs;
use crate::docs::substs_refs;
use crate::docs::variant_doc;
use crate::docs::variant_ok;
use crate::docs::variant_refs;
use crate::docs::variants_doc;
use crate::docs::variants_listed;
use crate::docs::variants_ok;
use crate::docs::variants_refs;
use crate::docs::Refs;
use crate::json::array_value;
use crate::json::bool_value;
use crate::json::clone_value;
use crate::json::json_of;
use crate::json::new_object;
use crate::json::null_value;
use crate::json::number_value;
use crate::json::object_value;
use crate::json::put;
use crate::json::string_value;
use crate::json::tagged;
use crate::json::Json;
use crate::names::adt_inst_id_str;
use crate::names::def_id_str;
use crate::names::get_fn_def_name;
use crate::state::extends;
use crate::state::lemma_record_and;
use crate::state::lemma_record_nothing;
use crate::state::lemma_refs_ok_and;
use crate::state::record;
use crate::state::Mir;
use crate::state::MirState;
use crate::to_json::ToJson;
use crate::types::lemma_each_step;
use crate::types::lemma_no_items;
use crate::types::substs_json;
use crate::types::ty_json;
use serde_json::Value;
use vstd::pervasive::unreached;
use vstd::prelude::*;

verus! {

/// A part of a data type: it has a JSON form once generic arguments for the data type are
/// given.
pub trait ToJsonAg {
    /// The JSON form.
    spec fn ag_doc(&self, tcx: &TyCtxt, substs: SubstsRef) -> Json;

    /// The state after it has been shown in state `m`.
    spec fn ag_after(&self, tcx: &TyCtxt, substs: SubstsRef, m: Mir) -> Mir;

    /// It can be shown in state `m`.
    spec fn ag_ok(&self, tcx: &TyCtxt, substs: SubstsRef, m: Mir) -> bool;

    /// Showing it takes nothing away, and changes no static that has been made before.
    proof fn ag_keeps(&self, tcx: &TyCtxt, substs: SubstsRef, m: Mir)
        ensures
            extends(self.ag_after(tcx, substs, m), m),
    ;

    /// Shows it.
    fn tojson(&self, mir: &mut MirState<'_>, substs: SubstsRef) -> (v: Value)
        requires
            old(mir).wf(),
            self.ag_ok(old(mir).tcx, substs, old(mir)@),
        ensures
            final(mir).wf(),
            final(mir).tcx == old(mir).tcx,
            json_of(v) == self.ag_doc(old(mir).tcx, substs),
            final(mir)@ == self.ag_after(old(mir).tcx, substs, old(mir)@),
    ;
}

/// The JSON forms of the parts of a list.
pub open spec fn ag_docs<T: ToJsonAg>(tcx: &TyCtxt, items: Seq<T>, substs: SubstsRef) -> Seq<Json> {
    items.map_values(|x: T| x.ag_doc(tcx, substs))
}

/// The state after the parts of a list have been shown one after the other.
pub open spec fn ags_after<T: ToJsonAg>(
    tcx: &TyCtxt,
    items: Seq<T>,
    substs: SubstsRef,
    m: Mir,
) -> Mir
    decreases items.len(),
{
    if items.len() == 0 {
        m
    } else {
        ags_after(tcx, items.drop_first(), substs, items[0].ag_after(tcx, substs, m))
    }
}

/// The parts of a list can be shown one after the other.
pub open spec fn ags_ok<T: ToJsonAg>(
    tcx: &TyCtxt,
    items: Seq<T>,
    substs: SubstsRef,
    m: Mir,
) -> bool
    decreases items.len(),
{
    items.len() == 0 || items[0].ag_ok(tcx, substs, m) && ags_ok(
        tcx,
        items.drop_first(),
        substs,
        items[0].ag_after(tcx, substs, m),
    )
}

/// Showing the parts of a list takes nothing away.
pub proof fn lemma_ags_keep<T: ToJsonAg>(tcx: &TyCtxt, items: Seq<T>, substs: SubstsRef, m: Mir)
    ensures
        extends(ags_after(tcx, items, substs, m), m),
    decreases items.len(),
{
    if items.len() > 0 {
        items[0].ag_keeps(tcx, substs, m);
        lemma_ags_keep(tcx, items.drop_first(), substs, items[0].ag_after(tcx, substs, m));
    }
}

/// Shows the parts of a list one after the other.
fn iter_tojson<T: ToJsonAg>(items: &[T], mir: &mut MirState<'_>, substs: SubstsRef) -> (v: Value)
    requires
        old(mir).wf(),
        ags_ok(old(mir).tcx, items@, substs, old(mir)@),
    ensures
        final(mir).wf(),
        final(mir).tcx == old(mir).tcx,
        json_of(v) == Json::Arr(ag_docs(old(mir).tcx, items@, substs)),
        final(mir)@ == ags_after(old(mir).tcx, items@, substs, old(mir)@),
{
    let ghost tcx = mir.tcx;
    let ghost m0 = mir@;
    let mut j: Vec<Value> = Vec::new();
    let mut i: usize = 0;
    assert(items@.skip(0) =~= items@);
    while i < items.len()
        invariant
            i <= items.len(),
            mir.wf(),
            mir.tcx == tcx,
            ags_ok(tcx, items@.skip(i as int), substs, mir@),
            ags_after(tcx, items@, substs, m0) == ags_after(
                tcx,
                items@.skip(i as int),
                substs,
                mir@,
            ),
            j.len() == i,
            forall|k: int|
                0 <= k < i ==> json_of(#[trigger] j@[k]) == items@[k].ag_doc(tcx, substs),
        decreases items.len() - i,
    {
        proof {
            assert(items@.skip(i as int).drop_first() =~= items@.skip(i + 1));
            assert(items@.skip(i as int)[0] == items@[i as int]);
        }
        let item = items[i].tojson(mir, substs);
        j.push(item);
        i = i + 1;
    }
    let v = array_value(j);
    assert(json_of(v)->Arr_0 =~= ag_docs(tcx, items@, substs));
    v
}

impl<T: ToJsonAg> ToJsonAg for [T] {
    open spec fn ag_doc(&self, tcx: &TyCtxt, substs: SubstsRef) -> Json {
        Json::Arr(ag_docs(tcx, self@, substs))
    }

    open spec fn ag_after(&self, tcx: &TyCtxt, substs: SubstsRef, m: Mir) -> Mir {
        ags_after(tcx, self@, substs, m)
    }

    open spec fn ag_ok(&self, tcx: &TyCtxt, substs: SubstsRef, m: Mir) -> bool {
        ags_ok(tcx, self@, substs, m)
    }

    proof fn ag_keeps(&self, tcx: &TyCtxt, substs: SubstsRef, m: Mir) {
        lemma_ags_keep(tcx, self@, substs, m);
    }

    fn tojson(&self, mir: &mut MirState<'_>, substs: SubstsRef) -> (v: Value) {
        iter_tojson(self, mir, substs)
    }
}

impl<T: ToJsonAg> ToJsonAg for Vec<T> {
    open spec fn ag_doc(&self, tcx: &TyCtxt, substs: SubstsRef) -> Json {
        Json::Arr(ag_docs(tcx, self@, substs))
    }

    open spec fn ag_after(&self, tcx: &TyCtxt, substs: SubstsRef, m: Mir) -> Mir {
        ags_after(tcx, self@, substs, m)
    }

    open spec fn ag_ok(&self, tcx: &TyCtxt, substs: SubstsRef, m: Mir) -> bool {
        ags_ok(tcx, self@, substs, m)
    }

    proof fn ag_keeps(&self, tcx: &TyCtxt, substs: SubstsRef, m: Mir) {
        lemma_ags_keep(tcx, self@, substs, m);
    }

    fn tojson(&self, mir: &mut MirState<'_>, substs: SubstsRef) -> (v: Value) {
        self.as_slice().tojson(mir, substs)
    }
}

impl ToJsonAg for FieldDef {
    open spec fn ag_doc(&self, tcx: &TyCtxt, substs: SubstsRef) -> Json {
        field_doc(tcx, *self, substs)
    }

    open spec fn ag_after(&self, tcx: &TyCtxt, substs: SubstsRef, m: Mir) -> Mir {
        record(tcx, m, field_refs(tcx, *self, substs))
    }

    open spec fn ag_ok(&self, tcx: &TyCtxt, substs: SubstsRef, m: Mir) -> bool {
        field_ok(tcx, *self, substs)
    }

    proof fn ag_keeps(&self, tcx: &TyCtxt, substs: SubstsRef, m: Mir) {
    }

    fn tojson(&self, mir: &mut MirState<'_>, substs: SubstsRef) -> (v: Value) {
        let tcx = mir.tcx;
        let ty = match tcx.field_tys.get(&(self.did, substs)) {
            Some(ty) => *ty,
            None => unreached(),
        };
        let mut o = new_object();
        put(&mut o, "name", string_value(def_id_str(tcx, self.did)));
        let ty = ty_json(ty, mir);
        put(&mut o, "ty", ty);
        object_value(o)
    }
}

/// Showing fields one after the other records what they all refer to.
proof fn lemma_fields_after(tcx: &TyCtxt, fs: Seq<FieldDef>, substs: SubstsRef, m: Mir)
    requires
        forall|i: int| 0 <= i < fs.len() ==> field_ok(tcx, #[trigger] fs[i], substs),
    ensures
        ags_ok(tcx, fs, substs, m),
        ags_after(tcx, fs, substs, m) == record(tcx, m, fields_refs(tcx, fs, substs)),
    decreases fs.len(),
{
    let f = |i: int| field_refs(tcx, fs[i], substs);
    lemma_no_items(f);
    lemma_record_nothing(tcx, m);
    if fs.len() > 0 {
        let rest = fs.drop_first();
        let g = |i: int| field_refs(tcx, rest[i], substs);
        assert forall|i: int| 0 <= i < rest.len() implies field_ok(
            tcx,
            #[trigger] rest[i],
            substs,
        ) by {
            assert(rest[i] == fs[i + 1]);
        }
        assert(field_ok(tcx, fs[0], substs));
        lemma_fields_after(tcx, rest, substs, record(tcx, m, f(0)));
        lemma_record_and(tcx, m, f(0), Refs::each(rest.len(), g));
        let a = f(0).and(Refs::each(rest.len(), g));
        let b = Refs::each(fs.len(), f);
        let ftys = |i: int| f(i).tys;
        let gtys = |i: int| g(i).tys;
        assert forall|x: Ty| #[trigger] a.tys.contains(x) == b.tys.contains(x) by {
            if any_of(rest.len(), gtys).contains(x) {
                let i = choose|i: int| 0 <= i < rest.len() && (#[trigger] gtys(i)).contains(x);
                assert(ftys(i + 1).contains(x));
            }
            if f(0).tys.contains(x) {
                assert(ftys(0).contains(x));
            } else if any_of(fs.len(), ftys).contains(x) {
                let i = choose|i: int| 0 <= i < fs.len() && (#[trigger] ftys(i)).contains(x);
                assert(gtys(i - 1).contains(x));
            }
        }
        assert(a.tys =~= b.tys);
        assert(a.adts =~= b.adts);
        assert(a.insts =~= b.insts);
        assert(a.traits =~= b.traits);
    }
}

/// How the discriminant of a variant is given.
fn discr_json(discr: &VariantDiscr, mir: &mut MirState<'_>) -> (v: Value)
    requires
        old(mir).wf(),
        discr_ok(old(mir).tcx, *discr),
    ensures
        final(mir).wf(),
        final(mir).tcx == old(mir).tcx,
        json_of(v) == discr_doc(old(mir).tcx, *discr),
        final(mir)@ == record(old(mir).tcx, old(mir)@, discr_refs(old(mir).tcx, *discr)),
{
    let tcx = mir.tcx;
    proof {
        lemma_record_nothing(tcx, mir@);
    }
    match discr {
        VariantDiscr::Relative(i) => {
            let mut o = tagged("Relative");
            put(&mut o, "index", number_value(*i as u64));
            object_value(o)
        },
        VariantDiscr::Explicit(def_id) => {
            let mut o = tagged("Explicit");
            let name = get_fn_def_name(mir, *def_id, tcx.empty_substs);
            put(&mut o, "name", string_value(name));
            object_value(o)
        },
    }
}

impl ToJson for VariantDiscr {
    open spec fn doc(&self, tcx: &TyCtxt) -> Json {
        discr_doc(tcx, *self)
    }

    open spec fn after(&self, tcx: &TyCtxt, m: Mir) -> Mir {
        record(tcx, m, discr_refs(tcx, *self))
    }

    open spec fn ok(&self, tcx: &TyCtxt, m: Mir) -> bool {
        discr_ok(tcx, *self)
    }

    proof fn keeps(&self, tcx: &TyCtxt, m: Mir) {
    }

    fn to_json(&self, mir: &mut MirState<'_>) -> (v: Value) {
        discr_json(self, mir)
    }
}

/// A variant of a data type; `mb_discr` is its discriminant where the data type has them.
fn render_variant(
    mir: &mut MirState<'_>,
    adt: &AdtInst,
    v: &VariantDef,
    mb_discr: Option<&String>,
) -> (r: Value)
    requires
        old(mir).wf(),
        variant_ok(old(mir).tcx, *v, adt.substs),
    ensures
        final(mir).wf(),
        final(mir).tcx == old(mir).tcx,
        json_of(r) == variant_doc(
            old(mir).tcx,
            *v,
            adt.substs,
            match mb_discr {
                Some(s) => Some(s@),
                None => None,
            },
        ),
        final(mir)@ == record(
            old(mir).tcx,
            old(mir)@,
            variant_refs(old(mir).tcx, *v, adt.substs),
        ),
{
    let tcx = mir.tcx;
    let ghost m0 = mir@;
    let inhabited = match tcx.inhabited.get(&(v.def_id, adt.substs)) {
        Some(b) => *b,
        None => unreached(),
    };
    proof {
        let dr = discr_refs(tcx, v.discr);
        lemma_fields_after(tcx, v.fields@, adt.substs, record(tcx, m0, dr));
        lemma_record_and(tcx, m0, dr, fields_refs(tcx, v.fields@, adt.substs));
    }
    let mut o = new_object();
    put(&mut o, "name", string_value(def_id_str(tcx, v.def_id)));
    let discr = discr_json(&v.discr, mir);
    put(&mut o, "discr", discr);
    let fields = iter_tojson(v.fields.as_slice(), mir, adt.substs);
    assert(json_of(fields) == fields_doc(tcx, v.fields@, adt.substs)) by {
        assert(ag_docs(tcx, v.fields@, adt.substs) =~= fields_doc(
            tcx,
            v.fields@,
            adt.substs,
        )->Arr_0);
    }
    put(&mut o, "fields", fields);
    let ctor_kind = match &v.ctor_kind {
        Some(kind) => clone_value(&kind.json),
        None => null_value(),
    };
    put(&mut o, "ctor_kind", ctor_kind);
    let discr_value = match mb_discr {
        Some(s) => string_value(s.clone()),
        None => null_value(),
    };
    put(&mut o, "discr_value", discr_value);
    put(&mut o, "inhabited", bool_value(inhabited));
    object_value(o)
}

/// The variants of an enum, in the order of its discriminants.
fn render_enum_variants(mir: &mut MirState<'_>, adt: &AdtInst) -> (v: Value)
    requires
        old(mir).wf(),
        adt.within(old(mir).tcx),
        old(mir).tcx.adt_data(adt.adt).kind is Enum,
        variants_listed(old(mir).tcx.adt_data(adt.adt)),
        variants_ok(old(mir).tcx, *adt),
    ensures
        final(mir).wf(),
        final(mir).tcx == old(mir).tcx,
        json_of(v) == variants_doc(old(mir).tcx, *adt),
        final(mir)@ == record(old(mir).tcx, old(mir)@, variants_refs(old(mir).tcx, *adt)),
{
    let tcx = mir.tcx;
    let ghost m0 = mir@;
    let data = &tcx.adts[adt.adt.0];
    let ghost f = |i: int|
        variant_refs(
            tcx,
            data.variants@[data.discriminants@[i].variant as int],
            adt.substs,
        );
    if data.discriminants.len() != data.variants.len() {
        return unreached();
    }
    let mut variants: Vec<Value> = Vec::new();
    let mut i: usize = 0;
    proof {
        assert(*data == tcx.adt_data(adt.adt));
        assert(data.within(tcx));
        lemma_no_items(f);
        lemma_record_nothing(tcx, m0);
        assert(variants_refs(tcx, *adt) == Refs::each(data.discriminants@.len(), f));
    }
    while i < data.discriminants.len()
        invariant
            i <= data.discriminants.len(),
            mir.wf(),
            mir.tcx == tcx,
            *data == tcx.adt_data(adt.adt),
            data.within(tcx),
            data.kind is Enum,
            variants_listed(*data),
            variants_ok(tcx, *adt),
            f == (|i: int|
                variant_refs(
                    tcx,
                    data.variants@[data.discriminants@[i].variant as int],
                    adt.substs,
                )),
            mir@ == record(tcx, m0, Refs::each(i as nat, f)),
            variants.len() == i,
            forall|j: int|
                0 <= j < i ==> json_of(#[trigger] variants@[j]) == variants_doc(
                    tcx,
                    *adt,
                )->Arr_0[j],
        decreases data.discriminants.len() - i,
    {
        proof {
            assert(data.discriminants@[i as int].variant < data.variants.len());
            assert(variant_ok(
                tcx,
                data.variants@[data.discriminants@[i as int].variant as int],
                adt.substs,
            ));
            lemma_each_step(f, i as nat, data.discriminants@.len());
            lemma_record_and(tcx, m0, Refs::each(i as nat, f), f(i as int));
        }
        let discriminant = &data.discriminants[i];
        if discriminant.variant != i {
            return unreached();
        }
        let v = &data.variants[discriminant.variant];
        let rendered = render_variant(mir, adt, v, Some(&discriminant.value));
        variants.push(rendered);
        i = i + 1;
    }
    let v = array_value(variants);
    assert(json_of(v)->Arr_0 =~= variants_doc(tcx, *adt)->Arr_0);
    v
}

/// The variants of a struct or a union.
fn render_plain_variants(mir: &mut MirState<'_>, adt: &AdtInst) -> (v: Value)
    requires
        old(mir).wf(),
        adt.within(old(mir).tcx),
        !(old(mir).tcx.adt_data(adt.adt).kind is Enum),
        variants_listed(old(mir).tcx.adt_data(adt.adt)),
        variants_ok(old(mir).tcx, *adt),
    ensures
        final(mir).wf(),
        final(mir).tcx == old(mir).tcx,
        json_of(v) == variants_doc(old(mir).tcx, *adt),
        final(mir)@ == record(old(mir).tcx, old(mir)@, variants_refs(old(mir).tcx, *adt)),
{
    let tcx = mir.tcx;
    let ghost m0 = mir@;
    let data = &tcx.adts[adt.adt.0];
    let ghost f = |i: int| variant_refs(tcx, data.variants@[i], adt.substs);
    if data.variants.len() != 1 {
        return unreached();
    }
    let mut variants: Vec<Value> = Vec::new();
    let mut i: usize = 0;
    proof {
        assert(*data == tcx.adt_data(adt.adt));
        lemma_no_items(f);
        lemma_record_nothing(tcx, m0);
        assert(variants_refs(tcx, *adt) == Refs::each(data.variants@.len(), f));
    }
    while i < data.variants.len()
        invariant
            i <= data.variants.len(),
            mir.wf(),
            mir.tcx == tcx,
            *data == tcx.adt_data(adt.adt),
            !(data.kind is Enum),
            variants_ok(tcx, *adt),
            f == (|i: int| variant_refs(tcx, data.variants@[i], adt.substs)),
            mir@ == record(tcx, m0, Refs::each(i as nat, f)),
            variants.len() == i,
            forall|j: int|
                0 <= j < i ==> json_of(#[trigger] variants@[j]) == variants_doc(
                    tcx,
                    *adt,
                )->Arr_0[j],
        decreases data.variants.len() - i,
    {
        proof {
            assert(variant_ok(tcx, data.variants@[i as int], adt.substs));
            lemma_each_step(f, i as nat, data.variants@.len());
            lemma_record_and(tcx, m0, Refs::each(i as nat, f), f(i as int));
        }
        let rendered = render_variant(mir, adt, &data.variants[i], None);
        variants.push(rendered);
        i = i + 1;
    }
    let v = array_value(variants);
    assert(json_of(v)->Arr_0 =~= variants_doc(tcx, *adt)->Arr_0);
    v
}

/// A data type with its generic arguments.
fn adt_json(ai: AdtInst, mir: &mut MirState<'_>) -> (v: Value)
    requires
        old(mir).wf(),
        adt_ok(old(mir).tcx, ai),
    ensures
        final(mir).wf(),
        final(mir).tcx == old(mir).tcx,
        json_of(v) == adt_doc(old(mir).tcx, ai),
        final(mir)@ == record(old(mir).tcx, old(mir)@, adt_refs(old(mir).tcx, ai)),
{
    let tcx = mir.tcx;
    let ghost m0 = mir@;
    let ty = match tcx.adt_tys.get(&ai) {
        Some(ty) => *ty,
        None => unreached(),
    };
    let size: u64 = match tcx.sizes.get(&ty) {
        Some(size) => *size,
        None => unreached(),
    };
    let data = &tcx.adts[ai.adt.0];
    proof {
        let kr = adt_kind_refs(tcx, ai.adt);
        let vr = variants_refs(tcx, ai);
        let sr = substs_refs(tcx, ai.substs);
        assert(*data == tcx.adt_data(ai.adt));
        assert(data.within(tcx));
        lemma_refs_ok_and(tcx, kr.and(vr), sr);
        lemma_refs_ok_and(tcx, kr, vr);
        lemma_record_nothing(tcx, m0);
        lemma_record_and(tcx, m0, kr, vr);
        lemma_record_and(tcx, m0, kr.and(vr), sr);
    }
    let kind = match data.kind {
        AdtKind::Struct => object_value(tagged("Struct")),
        AdtKind::Enum => {
            let mut o = tagged("Enum");
            let discr_ty = ty_json(data.discr_ty, mir);
            put(&mut o, "discr_ty", discr_ty);
            object_value(o)
        },
        AdtKind::Union => object_value(tagged("Union")),
    };
    let variants = match data.kind {
        AdtKind::Enum => render_enum_variants(mir, &ai),
        _ => render_plain_variants(mir, &ai),
    };
    let mut o = new_object();
    put(&mut o, "name", string_value(adt_inst_id_str(tcx, ai)));
    put(&mut o, "kind", kind);
    put(&mut o, "variants", variants);
    put(&mut o, "size", number_value(size));
    put(&mut o, "repr_transparent", bool_value(data.repr_transparent));
    put(&mut o, "orig_def_id", string_value(def_id_str(tcx, data.did)));
    let orig_substs = substs_json(ai.substs, mir, Ghost(tcx.tys@.len()));
    put(&mut o, "orig_substs", orig_substs);
    object_value(o)
}

impl ToJson for AdtInst {
    open spec fn doc(&self, tcx: &TyCtxt) -> Json {
        adt_doc(tcx, *self)
    }

    open spec fn after(&self, tcx: &TyCtxt, m: Mir) -> Mir {
        record(tcx, m, adt_refs(tcx, *self))
    }

    open spec fn ok(&self, tcx: &TyCtxt, m: Mir) -> bool {
        adt_ok(tcx, *self)
    }

    proof fn keeps(&self, tcx: &TyCtxt, m: Mir) {
    }

    fn to_json(&self, mir: &mut MirState<'_>) -> (v: Value) {
        adt_json(*self, mir)
    }
}

/// What an aggregate expression builds.
pub enum AggregateKind {
    Array,
    Tuple,
    /// A data type: its definition, the variant and the generic arguments.
    Adt(DefId, VariantIdx, SubstsRef),
    Closure,
    Generator,
}

/// Whether an aggregate expression builds a value of a data type.
pub fn is_adt_ak(ak: &AggregateKind) -> (b: bool)
    ensures
        b == (*ak is Adt),
{
    match ak {
        AggregateKind::Adt(_, _, _) => true,
        _ => false,
    }
}

/// `adt` is the data type that an aggregate expression builds a value of.
pub open spec fn builds(tcx: &TyCtxt, ak: AggregateKind, adt: AdtInst) -> bool {
    &&& ak matches AggregateKind::Adt(did, _, substs)
    &&& tcx.has_adt(adt.adt)
    &&& tcx.adt_data(adt.adt).did == did
    &&& adt.substs == substs
}

/// The data type that an aggregate expression builds a value of.
pub open spec fn built(tcx: &TyCtxt, ak: AggregateKind) -> AdtInst {
    choose|adt: AdtInst| builds(tcx, ak, adt)
}

/// An aggregate expression that builds a value of a data type; `ops` shows its operands.
pub open spec fn aggregate_doc(tcx: &TyCtxt, ak: AggregateKind, ops: Json) -> Json {
    Json::Obj(
        map![
            "adt"@ => adt_doc(tcx, built(tcx, ak)),
            "variant"@ => json_of(ak->Adt_1.json),
            "ops"@ => ops,
        ],
    )
}

/// The state after the data type of an aggregate expression has been shown, and before its
/// operands are.
pub open spec fn aggregate_mid(tcx: &TyCtxt, ak: AggregateKind, m: Mir) -> Mir {
    record(tcx, m, adt_refs(tcx, built(tcx, ak)))
}

/// Shows an aggregate expression that builds a value of a data type from `opv`.
pub fn handle_adt_ag<T: ToJson>(mir: &mut MirState<'_>, ak: &AggregateKind, opv: &Vec<T>) -> (v:
    Value)
    requires
        old(mir).wf(),
        exists|adt: AdtInst| builds(old(mir).tcx, *ak, adt),
        adt_ok(old(mir).tcx, built(old(mir).tcx, *ak)),
        opv.ok(
            old(mir).tcx,
            record(
                old(mir).tcx,
                old(mir)@,
                adt_refs(old(mir).tcx, built(old(mir).tcx, *ak)),
            ),
        ),
    ensures
        final(mir).wf(),
        final(mir).tcx == old(mir).tcx,
        json_of(v) == Json::Obj(
            map![
                "adt"@ => adt_doc(old(mir).tcx, built(old(mir).tcx, *ak)),
                "variant"@ => json_of(ak->Adt_1.json),
                "ops"@ => opv.doc(old(mir).tcx),
            ],
        ),
        final(mir)@ == opv.after(
            old(mir).tcx,
            record(
                old(mir).tcx,
                old(mir)@,
                adt_refs(old(mir).tcx, built(old(mir).tcx, *ak)),
            ),
        ),
        json_of(v) == aggregate_doc(old(mir).tcx, *ak, opv.doc(old(mir).tcx)),
        final(mir)@ == opv.after(
            old(mir).tcx,
            aggregate_mid(old(mir).tcx, *ak, old(mir)@),
        ),
{
    let tcx = mir.tcx;
    match ak {
        AggregateKind::Adt(adt_did, variant, substs) => {
            let ghost expected = built(tcx, *ak);
            assert(builds(tcx, *ak, expected));
            assert(tcx.adt_data(expected.adt).did == *adt_did);
            let ai = AdtInst { adt: tcx.adt_def(*adt_did), substs: *substs };
            assert(ai.adt == expected.adt);
            let mut o = new_object();
            let adt = adt_json(ai, mir);
            put(&mut o, "adt", adt);
            put(&mut o, "variant", clone_value(&variant.json));
            let ops = opv.to_json(mir);
            put(&mut o, "ops", ops);
            object_value(o)
        },
        _ => unreached(),
    }
}

} // verus!
