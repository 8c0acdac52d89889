//! Proposes a `From` implementation for the enum variant under the cursor.
//!
//! The crate works on a plain-data model of the parsed source ([`tree`]) and of
//! what semantic analysis knows about it ([`semantics`]). It finds and
//! classifies the variant at an offset ([`classify`]), checks that no
//! conversion from the variant's field type exists yet, assembles the text of
//! the new `impl` block ([`synthesize`]) and packages the result as a proposal
//! ([`assist`]).

pub mod text;
pub mod tree;
pub mod classify;
pub mod semantics;
pub mod synthesize;
pub mod assist;
