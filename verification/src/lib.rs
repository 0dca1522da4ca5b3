//! Compile-time synthesis of teardown code for structures that own heap
//! resources through raw-pointer fields.
//!
//! The crate works on a *schema*: a passive description of a named-field
//! struct whose fields carry ownership hints. A classifier maps each field
//! to a teardown action, a synthesizer assembles the actions into one
//! ordered teardown procedure, and an entry-point generator derives the
//! exported, foreign-callable free function for a type. Parsing a
//! source-level declaration into a schema, and rendering the synthesized
//! procedure into output text, are left to an external front and back end.

pub mod destruct;
pub mod entry;
pub mod schema;
pub mod utils;
