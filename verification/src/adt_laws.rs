//! What data types, their variants and their fields show, and what showing them does.

use crate::adts::aggregate_doc;
use crate::adts::aggregate_mid;
use crate::adts::builds;
use crate::adts::built;
use crate::adts::AggregateKind;
use crate::adts::ToJsonAg;
use crate::ctxt::AdtInst;
use crate::ctxt::AdtKind;
use crate::ctxt::FieldDef;
use crate::ctxt::GenericArg;
use crate::ctxt::Instance;
use crate::ctxt::Resolution;
use crate::ctxt::SubstsRef;
use crate::ctxt::TraitInst;
use crate::ctxt::Ty;
use crate::ctxt::TyCtxt;
use crate::ctxt::VariantDef;
use crate::ctxt::VariantDiscr;
use crate::docs::adt_ok;
use crate::docs::adt_refs;
use crate::docs::adt_text;
use crate::docs::def_text;
use crate::docs::field_doc;
use crate::docs::field_refs;
use crate::docs::fields_refs;
use crate::docs::fn_text;
use crate::docs::variant_refs;
use crate::docs::variants_refs;
use crate::docs::Refs;
use crate::json::json_of;
use crate::json::Json;
use crate::laws::law_variants_in_order;
use crate::name_laws::law_function_name;
use crate::reading::entry;
use crate::reading::has_keys;
use crate::reading::lemma_keys;
use crate::reading::shows;
use crate::state::lemma_record_nothing;
use crate::state::record;
use crate::state::Mir;
use crate::to_json::ToJson;
use crate::type_laws::id;
use crate::type_laws::is_args;
use crate::type_laws::is_bare;
use vstd::prelude::*;

verus! {

/// A data type shows its name, its kind, its size, whether it is transparent, its definition and
/// its generic arguments; an enum shows the type of its discriminant with its kind.
pub proof fn law_data_type(tcx: &TyCtxt, ai: AdtInst)
    ensures
        ({
            let j = ai.doc(tcx);
            let data = tcx.adt_data(ai.adt);
            let kind = entry(j, "kind");
            &&& has_keys(
                j,
                set![
                    "name"@,
                    "kind"@,
                    "variants"@,
                    "size"@,
                    "repr_transparent"@,
                    "orig_def_id"@,
                    "orig_substs"@,
                ],
            )
            &&& shows(j, "name", Json::Str(adt_text(tcx, ai)))
            &&& match data.kind {
                AdtKind::Struct => is_bare(kind, "Struct"),
                AdtKind::Union => is_bare(kind, "Union"),
                AdtKind::Enum => {
                    &&& has_keys(kind, set!["kind"@, "discr_ty"@])
                    &&& shows(kind, "kind", Json::Str("Enum"@))
                    &&& shows(kind, "discr_ty", id(tcx, data.discr_ty))
                },
            }
            &&& shows(j, "size", Json::Num(tcx.sizes@[tcx.adt_tys@[ai]] as nat))
            &&& shows(j, "repr_transparent", Json::Bool(data.repr_transparent))
            &&& shows(j, "orig_def_id", Json::Str(def_text(tcx, data.did)))
            &&& is_args(entry(j, "orig_substs"), tcx, tcx.args_of(ai.substs))
        }),
{
    lemma_keys();
}

/// A field shows its name and the ID of the type that it has with given generic arguments; that
/// type is shown too.
pub proof fn law_field(tcx: &TyCtxt, f: FieldDef, substs: SubstsRef, m: Mir)
    ensures
        is_field(f.ag_doc(tcx, substs), tcx, f, substs),
        f.ag_after(tcx, substs, m) == tcx.field_tys@[(f.did, substs)].after(tcx, m),
{
    lemma_keys();
}

/// The form of a field: its name and the ID of its type.
pub open spec fn is_field(j: Json, tcx: &TyCtxt, f: FieldDef, substs: SubstsRef) -> bool {
    &&& has_keys(j, set!["name"@, "ty"@])
    &&& shows(j, "name", Json::Str(def_text(tcx, f.did)))
    &&& shows(j, "ty", id(tcx, tcx.field_tys@[(f.did, substs)]))
}

/// A data type, enum or not, shows each of its variants in its place: with its name, its
/// discriminant, all its fields in their order, its constructor, and whether it has values.
pub proof fn law_variant(tcx: &TyCtxt, ai: AdtInst, i: int)
    requires
        adt_ok(tcx, ai),
        0 <= i < tcx.adt_data(ai.adt).variants.len(),
    ensures
        ({
            let data = tcx.adt_data(ai.adt);
            let v = data.variants@[i];
            &&& entry(ai.doc(tcx), "variants") matches Json::Arr(shown)
            &&& shown.len() == data.variants.len()
            &&& has_keys(
                shown[i],
                set![
                    "name"@,
                    "discr"@,
                    "fields"@,
                    "ctor_kind"@,
                    "discr_value"@,
                    "inhabited"@,
                ],
            )
            &&& shows(shown[i], "name", Json::Str(def_text(tcx, v.def_id)))
            &&& shows(shown[i], "discr", v.discr.doc(tcx))
            &&& shows(
                shown[i],
                "ctor_kind",
                match v.ctor_kind {
                    Some(k) => json_of(k.json),
                    None => Json::Null,
                },
            )
            &&& shows(
                shown[i],
                "discr_value",
                if data.kind is Enum {
                    Json::Str(data.discriminants@[i].value@)
                } else {
                    Json::Null
                },
            )
            &&& shows(shown[i], "inhabited", Json::Bool(tcx.inhabited@[(v.def_id, ai.substs)]))
            &&& entry(shown[i], "fields") matches Json::Arr(fields)
            &&& fields.len() == v.fields.len()
            &&& forall|k: int|
                0 <= k < v.fields.len() ==> is_field(
                    #[trigger] fields[k],
                    tcx,
                    v.fields@[k],
                    ai.substs,
                )
        }),
{
    lemma_keys();
    law_variants_in_order(tcx, ai);
    let v = tcx.adt_data(ai.adt).variants@[i];
    assert forall|k: int| 0 <= k < v.fields.len() implies is_field(
        #[trigger] field_doc(tcx, v.fields@[k], ai.substs),
        tcx,
        v.fields@[k],
        ai.substs,
    ) by {}
}

/// A discriminant that is given by its distance shows the distance; one that is given by a
/// constant shows the name of the constant, which is marked as used as in naming a function.
pub proof fn law_discriminant(tcx: &TyCtxt, discr: VariantDiscr, m: Mir)
    ensures
        ({
            let j = discr.doc(tcx);
            match discr {
                VariantDiscr::Relative(n) => {
                    &&& has_keys(j, set!["kind"@, "index"@])
                    &&& shows(j, "kind", Json::Str("Relative"@))
                    &&& shows(j, "index", Json::Num(n as nat))
                    &&& discr.after(tcx, m) == m
                },
                VariantDiscr::Explicit(d) => {
                    &&& has_keys(j, set!["kind"@, "name"@])
                    &&& shows(j, "kind", Json::Str("Explicit"@))
                    &&& shows(j, "name", Json::Str(fn_text(tcx, d, tcx.empty_substs)))
                    &&& discr.after(tcx, m) == match tcx.resolutions@[(d, tcx.empty_substs)] {
                        Resolution::Resolved(inst) => Mir { insts: m.insts.insert(inst), ..m },
                        _ => m,
                    }
                },
            }
        }),
{
    lemma_keys();
    lemma_record_nothing(tcx, m);
    if let VariantDiscr::Explicit(d) = discr {
        law_function_name(tcx, d, tcx.empty_substs, m);
    }
}

/// `t` is the type of a field of a variant, with given generic arguments.
pub open spec fn has_field_of(tcx: &TyCtxt, v: VariantDef, substs: SubstsRef, t: Ty) -> bool {
    exists|k: int|
        0 <= k < v.fields.len() && tcx.field_tys@[((#[trigger] v.fields@[k]).did, substs)] == t
}

/// `x` is the constant that gives the discriminant of a variant.
pub open spec fn discriminated_by(tcx: &TyCtxt, v: VariantDef, x: Instance) -> bool {
    v.discr matches VariantDiscr::Explicit(d) && tcx.resolutions@[(d, tcx.empty_substs)]
        == Resolution::Resolved(x)
}

proof fn lemma_variant_refs(tcx: &TyCtxt, v: VariantDef, substs: SubstsRef)
    ensures
        forall|t: Ty| #[trigger]
            variant_refs(tcx, v, substs).tys.contains(t) <==> has_field_of(tcx, v, substs, t),
        forall|x: Instance| #[trigger]
            variant_refs(tcx, v, substs).insts.contains(x) <==> discriminated_by(tcx, v, x),
        variant_refs(tcx, v, substs).adts == Set::<AdtInst>::empty(),
        variant_refs(tcx, v, substs).traits == Set::<TraitInst>::empty(),
{
    let r = variant_refs(tcx, v, substs);
    let fs = v.fields@;
    let f = |i: int| field_refs(tcx, fs[i], substs);
    let ftys = |i: int| f(i).tys;
    assert forall|t: Ty| #[trigger] r.tys.contains(t) <==> has_field_of(tcx, v, substs, t) by {
        if fields_refs(tcx, fs, substs).tys.contains(t) {
            let i = choose|i: int| 0 <= i < fs.len() && (#[trigger] ftys(i)).contains(t);
            assert(tcx.field_tys@[(fs[i].did, substs)] == t);
        }
        if has_field_of(tcx, v, substs, t) {
            let k = choose|k: int|
                0 <= k < fs.len() && tcx.field_tys@[((#[trigger] fs[k]).did, substs)] == t;
            assert(ftys(k).contains(t));
        }
    }
    assert(fields_refs(tcx, fs, substs).insts =~= Set::<Instance>::empty());
    assert(r.adts =~= Set::<AdtInst>::empty());
    assert(r.traits =~= Set::<TraitInst>::empty());
}

/// Showing a data type shows the type of an enum's discriminant, the types of all fields of all
/// variants, and its generic arguments; it marks the constants that give discriminants as used,
/// and nothing else.
pub proof fn law_data_type_shown(tcx: &TyCtxt, ai: AdtInst, m: Mir)
    requires
        adt_ok(tcx, ai),
    ensures
        ({
            let data = tcx.adt_data(ai.adt);
            ai.after(tcx, m) == record(
                tcx,
                m,
                (Refs {
                    tys: Set::new(
                        |t: Ty|
                            data.kind is Enum && t == data.discr_ty || tcx.args_of(
                                ai.substs,
                            ).contains(GenericArg::Type(t)) || exists|i: int|
                                0 <= i < data.variants.len() && has_field_of(
                                    tcx,
                                    #[trigger] data.variants@[i],
                                    ai.substs,
                                    t,
                                ),
                    ),
                    adts: Set::empty(),
                    insts: Set::new(
                        |x: Instance|
                            exists|i: int|
                                0 <= i < data.variants.len() && discriminated_by(
                                    tcx,
                                    #[trigger] data.variants@[i],
                                    x,
                                ),
                    ),
                    traits: Set::empty(),
                }),
            )
        }),
{
    let data = tcx.adt_data(ai.adt);
    let vs = data.variants@;
    let n = vs.len();
    let r = adt_refs(tcx, ai);
    let vr = variants_refs(tcx, ai);
    let f = if data.kind is Enum {
        |i: int| variant_refs(tcx, vs[data.discriminants@[i].variant as int], ai.substs)
    } else {
        |i: int| variant_refs(tcx, vs[i], ai.substs)
    };
    let ftys = |i: int| f(i).tys;
    let finsts = |i: int| f(i).insts;
    assert forall|i: int| 0 <= i < n implies #[trigger] f(i) == variant_refs(
        tcx,
        vs[i],
        ai.substs,
    ) by {
        if data.kind is Enum {
            assert(data.discriminants@[i].variant == i);
        }
    }
    assert(vr == Refs::each(n, f));
    let tys = Set::new(
        |t: Ty|
            data.kind is Enum && t == data.discr_ty || tcx.args_of(ai.substs).contains(
                GenericArg::Type(t),
            ) || exists|i: int|
                0 <= i < data.variants.len() && has_field_of(
                    tcx,
                    #[trigger] data.variants@[i],
                    ai.substs,
                    t,
                ),
    );
    let insts = Set::new(
        |x: Instance|
            exists|i: int|
                0 <= i < data.variants.len() && discriminated_by(
                    tcx,
                    #[trigger] data.variants@[i],
                    x,
                ),
    );
    assert forall|t: Ty| #[trigger] r.tys.contains(t) == tys.contains(t) by {
        if vr.tys.contains(t) {
            let i = choose|i: int| 0 <= i < n && (#[trigger] ftys(i)).contains(t);
            assert(f(i) == variant_refs(tcx, vs[i], ai.substs));
            lemma_variant_refs(tcx, vs[i], ai.substs);
            assert(has_field_of(tcx, vs[i], ai.substs, t));
        }
        if exists|i: int| 0 <= i < n && has_field_of(tcx, #[trigger] vs[i], ai.substs, t) {
            let i = choose|i: int|
                0 <= i < n && has_field_of(tcx, #[trigger] vs[i], ai.substs, t);
            lemma_variant_refs(tcx, vs[i], ai.substs);
            assert(f(i) == variant_refs(tcx, vs[i], ai.substs));
            assert(ftys(i).contains(t));
        }
    }
    assert forall|x: Instance| #[trigger] r.insts.contains(x) == insts.contains(x) by {
        if vr.insts.contains(x) {
            let i = choose|i: int| 0 <= i < n && (#[trigger] finsts(i)).contains(x);
            assert(f(i) == variant_refs(tcx, vs[i], ai.substs));
            lemma_variant_refs(tcx, vs[i], ai.substs);
            assert(discriminated_by(tcx, vs[i], x));
        }
        if insts.contains(x) {
            let i = choose|i: int| 0 <= i < n && discriminated_by(tcx, #[trigger] vs[i], x);
            lemma_variant_refs(tcx, vs[i], ai.substs);
            assert(f(i) == variant_refs(tcx, vs[i], ai.substs));
            assert(finsts(i).contains(x));
        }
    }
    assert forall|i: int| 0 <= i < n implies (#[trigger] f(i)).adts == Set::<AdtInst>::empty()
        && f(i).traits == Set::<TraitInst>::empty() by {
        lemma_variant_refs(tcx, vs[i], ai.substs);
    }
    assert(r.tys =~= tys);
    assert(r.insts =~= insts);
    assert(vr.adts =~= Set::empty());
    assert(vr.traits =~= Set::empty());
    assert(r.adts =~= Set::empty());
    assert(r.traits =~= Set::empty());
}

/// An aggregate expression shows the data type that it builds a value of, the variant and the
/// operands; the data type is shown before the operands are.
pub proof fn law_aggregate(
    tcx: &TyCtxt,
    ak: AggregateKind,
    adt: AdtInst,
    ops: Json,
    m: Mir,
)
    requires
        tcx.wf(),
        ak is Adt,
        tcx.has_adt(adt.adt),
        tcx.adt_data(adt.adt).did == ak->Adt_0,
        adt.substs == ak->Adt_2,
    ensures
        ({
            let j = aggregate_doc(tcx, ak, ops);
            &&& has_keys(j, set!["adt"@, "variant"@, "ops"@])
            &&& shows(j, "adt", adt.doc(tcx))
            &&& shows(j, "variant", json_of(ak->Adt_1.json))
            &&& shows(j, "ops", ops)
        }),
        aggregate_mid(tcx, ak, m) == adt.after(tcx, m),
{
    lemma_keys();
    assert(builds(tcx, ak, adt));
    let chosen = built(tcx, ak);
    assert(builds(tcx, ak, chosen));
    assert(tcx.adt_data(chosen.adt).did == tcx.adt_data(adt.adt).did);
    assert(chosen == adt);
}

} // verus!
