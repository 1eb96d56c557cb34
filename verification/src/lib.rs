//! Configuration-to-page transformation and template substitution for a
//! static site of navigation tiles, side panels and tool listings.
//!
//! The data flows one way. Decoded input is resolved into the configuration
//! model (`schema`, `resolve`, `config`). The model is checked against the
//! rules that the schema cannot express and drawn as markup (`render`,
//! `tools`), and the indices of the tool page are derived from it (`data`,
//! `json`). `codegen` puts both together as the inserts of each page.
//! `substitute` applies inserts to template text, and `builder` says what
//! each written file holds and how it is named; `stylesheet` says what
//! follows from a run of the stylesheet minifier.

pub mod option;
pub mod text;
pub mod ordered;
pub mod config;
pub mod schema;
pub mod resolve;
pub mod render;
pub mod tools;
pub mod data;
pub mod json;
pub mod substitute;
pub mod codegen;
pub mod builder;
pub mod stylesheet;
