//! JSON forms of what a compiler knows about a program: types, instances, data types, generic
//! parameters and constant values.
//!
//! A [`ctxt::TyCtxt`] holds the compiler's knowledge as plain data.  Rendering takes place in a
//! [`state::MirState`], which interns types and the memory of constants and keeps track of the
//! data types, functions and traits that have to be emitted as well.  [`docs`] and [`values`] say
//! what the JSON forms are and what showing something does to the state; [`laws`] states what
//! follows for the whole.
//!
//! The other modules of laws read the JSON forms entry by entry, with the readers of [`reading`],
//! and say how each entry comes from the session: [`name_laws`], [`type_laws`], [`instance_laws`],
//! [`adt_laws`], [`generic_laws`] and [`value_laws`].  [`state_laws`] tells what is in the tables
//! and in use, [`showable_laws`] what can be shown, and [`session_laws`] when a session is
//! consistent.

pub mod adt_laws;
pub mod adts;
pub mod consts;
pub mod ctxt;
pub mod docs;
pub mod generic_laws;
pub mod generics;
pub mod instance_laws;
pub mod instances;
pub mod json;
pub mod laws;
pub mod name_laws;
pub mod names;
pub mod reading;
pub mod render;
pub mod session_laws;
pub mod showable_laws;
pub mod state;
pub mod state_laws;
pub mod table;
pub mod text;
pub mod to_json;
pub mod type_laws;
pub mod types;
pub mod validity;
pub mod value_laws;
pub mod values;
