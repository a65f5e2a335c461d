//! The JSON forms of generic parameters and of the predicates on them.

use crate::ctxt::DefId;
use crate::ctxt::SubstsRef;
use crate::ctxt::Term;
use crate::ctxt::TyCtxt;
use crate::docs::def_doc;
use crate::docs::refs_ok;
use crate::docs::substs_doc;
use crate::docs::substs_refs;
use crate::docs::text;
use crate::docs::ty_ref;
use crate::docs::Refs;
use crate::json::array_value;
use crate::json::new_object;
use crate::json::object_value;
use crate::json::put;
use crate::json::string_value;
use crate::json::text_value;
use crate::json::Json;
use crate::names::def_id_str;
use crate::state::record;
use crate::state::Mir;
use crate::state::MirState;
use crate::to_json::extend_json;
use crate::to_json::json_docs;
use crate::to_json::lemma_list_add;
use crate::to_json::lemma_list_keeps;
use crate::to_json::list_after;
use crate::to_json::list_docs;
use crate::to_json::list_ok;
use crate::to_json::ToJson;
use crate::types::substs_json;
use crate::types::ty_json;
use serde_json::Value;
use vstd::prelude::*;

verus! {

/// A trait with its generic arguments.
#[derive(Clone, Copy, PartialEq, Eq, Structural, Debug)]
pub struct TraitRef {
    pub def_id: DefId,
    pub substs: SubstsRef,
}

/// An associated type with its generic arguments.
#[derive(Clone, Copy, PartialEq, Eq, Structural, Debug)]
pub struct AliasTy {
    pub def_id: DefId,
    pub substs: SubstsRef,
}

/// A predicate of a `where` clause.
#[derive(Clone, Copy, PartialEq, Eq, Structural, Debug)]
pub enum Predicate {
    Trait(TraitRef),
    Projection { projection_ty: AliasTy, term: Term },
    /// A predicate of another kind.
    Other,
}

/// The predicates on the generic parameters of an item: its own, and those of the item around
/// it.
pub struct GenericPredicates {
    pub predicates: Vec<Predicate>,
    pub parent: Option<Box<GenericPredicates>>,
}

/// A generic parameter.
pub struct GenericParamDef {
    pub name: String,
    pub def_id: DefId,
}

/// The generic parameters of an item: its own, and those of the item around it.
pub struct Generics {
    pub params: Vec<GenericParamDef>,
    pub parent: Option<Box<Generics>>,
}

impl ToJson for TraitRef {
    open spec fn doc(&self, tcx: &TyCtxt) -> Json {
        Json::Obj(
            map![
                "trait"@ => def_doc(tcx, self.def_id),
                "substs"@ => substs_doc(tcx, self.substs),
            ],
        )
    }

    open spec fn after(&self, tcx: &TyCtxt, m: Mir) -> Mir {
        record(tcx, m, substs_refs(tcx, self.substs))
    }

    open spec fn ok(&self, tcx: &TyCtxt, m: Mir) -> bool {
        &&& tcx.has_def(self.def_id)
        &&& tcx.has_substs(self.substs)
        &&& refs_ok(tcx, substs_refs(tcx, self.substs))
    }

    proof fn keeps(&self, tcx: &TyCtxt, m: Mir) {
    }

    fn to_json(&self, mir: &mut MirState<'_>) -> (v: Value) {
        let mut o = new_object();
        put(&mut o, "trait", string_value(def_id_str(mir.tcx, self.def_id)));
        let substs = substs_json(self.substs, mir, Ghost(mir.tcx.tys@.len()));
        put(&mut o, "substs", substs);
        object_value(o)
    }
}

impl ToJson for AliasTy {
    open spec fn doc(&self, tcx: &TyCtxt) -> Json {
        Json::Obj(
            map![
                "substs"@ => substs_doc(tcx, self.substs),
                "def_id"@ => def_doc(tcx, self.def_id),
            ],
        )
    }

    open spec fn after(&self, tcx: &TyCtxt, m: Mir) -> Mir {
        record(tcx, m, substs_refs(tcx, self.substs))
    }

    open spec fn ok(&self, tcx: &TyCtxt, m: Mir) -> bool {
        &&& tcx.has_def(self.def_id)
        &&& tcx.has_substs(self.substs)
        &&& refs_ok(tcx, substs_refs(tcx, self.substs))
    }

    proof fn keeps(&self, tcx: &TyCtxt, m: Mir) {
    }

    fn to_json(&self, mir: &mut MirState<'_>) -> (v: Value) {
        let mut o = new_object();
        let substs = substs_json(self.substs, mir, Ghost(mir.tcx.tys@.len()));
        put(&mut o, "substs", substs);
        put(&mut o, "def_id", string_value(def_id_str(mir.tcx, self.def_id)));
        object_value(o)
    }
}

impl ToJson for Predicate {
    open spec fn doc(&self, tcx: &TyCtxt) -> Json {
        match self {
            Predicate::Trait(trait_ref) => Json::Obj(map!["trait_pred"@ => trait_ref.doc(tcx)]),
            Predicate::Projection { projection_ty, term: Term::Ty(ty) } => Json::Obj(
                map!["projection_ty"@ => projection_ty.doc(tcx), "ty"@ => ty_ref(tcx, *ty)],
            ),
            Predicate::Projection { projection_ty, term: Term::Const } => text(
                "unknown_const_projection",
            ),
            Predicate::Other => text("unknown_pred"),
        }
    }

    open spec fn after(&self, tcx: &TyCtxt, m: Mir) -> Mir {
        match self {
            Predicate::Trait(trait_ref) => trait_ref.after(tcx, m),
            Predicate::Projection { projection_ty, term: Term::Ty(ty) } => record(
                tcx,
                projection_ty.after(tcx, m),
                Refs::of_ty(*ty),
            ),
            _ => m,
        }
    }

    open spec fn ok(&self, tcx: &TyCtxt, m: Mir) -> bool {
        match self {
            Predicate::Trait(trait_ref) => trait_ref.ok(tcx, m),
            Predicate::Projection { projection_ty, term: Term::Ty(ty) } => {
                &&& projection_ty.ok(tcx, m)
                &&& refs_ok(tcx, Refs::of_ty(*ty))
            },
            _ => true,
        }
    }

    proof fn keeps(&self, tcx: &TyCtxt, m: Mir) {
    }

    fn to_json(&self, mir: &mut MirState<'_>) -> (v: Value) {
        match self {
            Predicate::Trait(trait_ref) => {
                let mut o = new_object();
                let trait_pred = trait_ref.to_json(mir);
                put(&mut o, "trait_pred", trait_pred);
                object_value(o)
            },
            Predicate::Projection { projection_ty, term } => match term {
                Term::Ty(ty) => {
                    let mut o = new_object();
                    let projection = projection_ty.to_json(mir);
                    put(&mut o, "projection_ty", projection);
                    let ty = ty_json(*ty, mir);
                    put(&mut o, "ty", ty);
                    object_value(o)
                },
                Term::Const => text_value("unknown_const_projection"),
            },
            Predicate::Other => text_value("unknown_pred"),
        }
    }
}

impl GenericPredicates {
    /// All predicates on the parameters of the item: its own first, then those of the items
    /// around it, from the inside out.
    pub open spec fn all(&self) -> Seq<Predicate>
        decreases self,
    {
        match self.parent {
            Some(parent) => self.predicates@ + parent.all(),
            None => self.predicates@,
        }
    }
}

/// Shows all predicates on the parameters of an item and appends their JSON forms to `dest`.
fn gather_preds(mir: &mut MirState<'_>, preds: &GenericPredicates, dest: &mut Vec<Value>)
    requires
        old(mir).wf(),
        list_ok(old(mir).tcx, preds.all(), old(mir)@),
    ensures
        final(mir).wf(),
        final(mir).tcx == old(mir).tcx,
        json_docs(final(dest)@) == json_docs(old(dest)@) + list_docs(old(mir).tcx, preds.all()),
        final(mir)@ == list_after(old(mir).tcx, preds.all(), old(mir)@),
    decreases preds,
{
    let ghost tcx = mir.tcx;
    let ghost m0 = mir@;
    let ghost d0 = dest@;
    proof {
        if let Some(parent) = &preds.parent {
            lemma_list_add(tcx, preds.predicates@, parent.all(), m0);
        }
    }
    extend_json(&preds.predicates, mir, dest);
    if let Some(parent_preds) = &preds.parent {
        gather_preds(mir, parent_preds, dest);
        assert(json_docs(dest@) =~= json_docs(d0) + list_docs(tcx, preds.all()));
    }
}

impl ToJson for GenericPredicates {
    open spec fn doc(&self, tcx: &TyCtxt) -> Json {
        Json::Obj(map!["predicates"@ => Json::Arr(list_docs(tcx, self.all()))])
    }

    open spec fn after(&self, tcx: &TyCtxt, m: Mir) -> Mir {
        list_after(tcx, self.all(), m)
    }

    open spec fn ok(&self, tcx: &TyCtxt, m: Mir) -> bool {
        list_ok(tcx, self.all(), m)
    }

    proof fn keeps(&self, tcx: &TyCtxt, m: Mir) {
        lemma_list_keeps(tcx, self.all(), m);
    }

    fn to_json(&self, mir: &mut MirState<'_>) -> (v: Value) {
        let ghost tcx = mir.tcx;
        let mut json_preds: Vec<Value> = Vec::new();
        gather_preds(mir, self, &mut json_preds);
        assert(json_docs(json_preds@) =~= list_docs(tcx, self.all()));
        let mut o = new_object();
        put(&mut o, "predicates", array_value(json_preds));
        object_value(o)
    }
}

impl ToJson for GenericParamDef {
    open spec fn doc(&self, tcx: &TyCtxt) -> Json {
        Json::Obj(
            map!["param_def"@ => Json::Str(self.name@), "def_id"@ => def_doc(tcx, self.def_id)],
        )
    }

    open spec fn after(&self, tcx: &TyCtxt, m: Mir) -> Mir {
        m
    }

    open spec fn ok(&self, tcx: &TyCtxt, m: Mir) -> bool {
        tcx.has_def(self.def_id)
    }

    proof fn keeps(&self, tcx: &TyCtxt, m: Mir) {
    }

    fn to_json(&self, mir: &mut MirState<'_>) -> (v: Value) {
        let mut o = new_object();
        put(&mut o, "param_def", text_value(self.name.as_str()));
        put(&mut o, "def_id", string_value(def_id_str(mir.tcx, self.def_id)));
        object_value(o)
    }
}

impl Generics {
    /// All parameters of the item: those of the items around it first, from the outside in,
    /// then its own.
    pub open spec fn all(&self) -> Seq<GenericParamDef>
        decreases self,
    {
        match self.parent {
            Some(parent) => parent.all() + self.params@,
            None => self.params@,
        }
    }
}

/// Shows all generic parameters of an item and appends their JSON forms to `dest`.
fn gather_params(mir: &mut MirState<'_>, generics: &Generics, dest: &mut Vec<Value>)
    requires
        old(mir).wf(),
        list_ok(old(mir).tcx, generics.all(), old(mir)@),
    ensures
        final(mir).wf(),
        final(mir).tcx == old(mir).tcx,
        json_docs(final(dest)@) == json_docs(old(dest)@) + list_docs(old(mir).tcx, generics.all()),
        final(mir)@ == list_after(old(mir).tcx, generics.all(), old(mir)@),
    decreases generics,
{
    let ghost tcx = mir.tcx;
    let ghost m0 = mir@;
    let ghost d0 = dest@;
    proof {
        if let Some(parent) = &generics.parent {
            lemma_list_add(tcx, parent.all(), generics.params@, m0);
        }
    }
    if let Some(parent_generics) = &generics.parent {
        gather_params(mir, parent_generics, dest);
    }
    extend_json(&generics.params, mir, dest);
    assert(json_docs(dest@) =~= json_docs(d0) + list_docs(tcx, generics.all()));
}

impl ToJson for Generics {
    open spec fn doc(&self, tcx: &TyCtxt) -> Json {
        Json::Obj(map!["params"@ => Json::Arr(list_docs(tcx, self.all()))])
    }

    open spec fn after(&self, tcx: &TyCtxt, m: Mir) -> Mir {
        list_after(tcx, self.all(), m)
    }

    open spec fn ok(&self, tcx: &TyCtxt, m: Mir) -> bool {
        list_ok(tcx, self.all(), m)
    }

    proof fn keeps(&self, tcx: &TyCtxt, m: Mir) {
        lemma_list_keeps(tcx, self.all(), m);
    }

    fn to_json(&self, mir: &mut MirState<'_>) -> (v: Value) {
        let ghost tcx = mir.tcx;
        let mut json_params: Vec<Value> = Vec::new();
        gather_params(mir, self, &mut json_params);
        assert(json_docs(json_params@) =~= list_docs(tcx, self.all()));
        let mut o = new_object();
        put(&mut o, "params", array_value(json_params));
        object_value(o)
    }
}

} // verus!
