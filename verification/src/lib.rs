//! Typography engine of the Barcelona-Extropic font: glyph dispatch, SVG and
//! JSON assembly, proof-of-render hashing, chirality transforms and ambigram
//! glyph pairing, each with its contract.
//!
//! Measurements are handed to the engine already written out as decimal
//! text (see [`font::FontParams`]); the engine decides what is drawn and how
//! the documents are put together.

pub mod text;
pub mod json;
pub mod digest;
pub mod glyph;
pub mod font;
pub mod chiral;
pub mod ambigraph;

pub use json::serde_json_escape;
pub use glyph::{GlyphIndex, GlyphKind};
pub use font::{FontParams, is_premium_license_key, proof_envelope, snap};
pub use chiral::{ChiralAxis, apply_chirality};
pub use ambigraph::GlyphPair;
