//! Keeps a domain record and its flattened view in step.
//!
//! From the description of a domain record (its fields, their declared
//! types, and which of them the author exposed) generation derives the
//! schema of a view, the two conversions between domain values and views,
//! and named constants that tell presentation code the name and the input
//! type of every field of the view.
//!
//! [`schema`] and [`reader`] describe records, [`source`] reads a
//! description from the text of a declaration, [`classify`] decides what
//! becomes of each field, [`synth`], [`plan`] and [`metadata`] build the
//! three results, [`generate`] puts them together, [`convert`] runs the
//! conversions, and [`laws`] states what holds of every generation.
//! [`forms`] holds the components of the job application form.

pub mod classify;
pub mod convert;
pub mod error;
pub mod fields;
pub mod forms;
pub mod generate;
pub mod laws;
pub mod metadata;
pub mod model;
pub mod plan;
pub mod primitive;
pub mod reader;
pub mod schema;
pub mod source;
pub mod synth;
pub mod text;
pub mod value;
