//! Typed data-model declarations from OpenAPI 3 component schemas.
//!
//! A named schema is classified as an enumeration or a record, built into an
//! intermediate representation with normalized names and mapped field types,
//! and rendered through a text template:
//!
//! - `naming` turns schema names into type names and field names;
//! - `mapping` maps primitive schema types to the types of a target language;
//! - `schema` holds the schema graph and classifies a schema;
//! - `builder` builds records and enumerations, `types` holds them;
//! - `templates` renders them;
//! - `codegen` ties the steps together, schema by schema.
//!
//! Every function is verified against its contract, and the contracts are
//! stated over the models of the values: texts as sequences of characters,
//! lists as sequences, each type by its view.
//!
//! Four things are done by other crates and believed, not proved: the casing
//! of `convert_case`, `char::is_numeric` of std, the JSON values of
//! `serde_json`, and the rendering of `handlebars`. What the casing and the
//! rendering give is named, not described: the contracts say which text is
//! cased in which style, and which template is rendered with which
//! variables.
pub mod text;
pub mod naming;
pub mod schema;
pub mod error;
pub mod types;
pub mod mapping;
pub mod builder;
pub mod templates;
pub mod codegen;

pub use codegen::CodegenImpl;
pub use error::Error;
pub use mapping::Target;
pub use templates::Templates;
