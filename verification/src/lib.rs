//! Code synthesis for annotated structs: from a declaration and its
//! annotations to the text of the generated code.
//!
//! A declaration comes in as plain values ([`decl`]). The SQL model
//! ([`sql_model`]) builds a table from it and writes the fragments of the
//! generated code; [`fragments`] and [`decode`] say what each fragment is,
//! [`schema`] what the annotations mean, and [`laws`] what holds of every
//! table. The other modules generate code for structs that are no SQL
//! model, rewrite a function so that it knows its own name ([`afn`]), and
//! write the time of the build ([`clock`]).

pub mod afn;
pub mod asx;
pub mod clock;
pub mod decl;
pub mod decode;
pub mod fields;
pub mod fragments;
pub mod laws;
pub mod lp;
pub mod options;
pub mod qa;
pub mod samples;
pub mod schema;
pub mod sql_model;
pub mod text;

pub use crate::afn::auto_func_name;
pub use crate::clock::build_time;
pub use crate::lp::limit_pack;
pub use crate::qa::quick_assign;
pub use crate::sql_model::as_sql_model;
