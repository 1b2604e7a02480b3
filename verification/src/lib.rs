//! An interactive-form library for publication metadata.
//!
//! The library holds the data model (a [`record::Details`] record with a
//! closed [`status::Status`] enumeration and a closed [`genre::Genre`]
//! enumeration), the rules of the prompt pipeline (every cancelled prompt
//! falls back to the field's default), the comma-splitting of free-text
//! genre input, and the serialization of a record to JSON text, both
//! compact and pretty-printed. A parser for the compact form is stated
//! beside the renderer, with a proof that parsing what was rendered
//! recovers every field. All of it is verified; terminal prompts and file
//! output live outside the library.

pub mod genre;
pub mod json;
pub mod parse;
pub mod record;
pub mod sink;
pub mod split;
pub mod status;
