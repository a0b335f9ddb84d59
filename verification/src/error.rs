//! The ways in which building or rendering one schema can fail.
use vstd::prelude::*;
use crate::schema::SchemaType;
use crate::text::text_view;

verus! {

/// Why one schema gave no declaration. Each failure concerns that schema
/// alone.
#[derive(Debug)]
pub enum Error {
    /// A primitive type tag that no target type stands for. `property` names
    /// the property that carried it, where a record was being built.
    UnsupportedSchemaType { schema_type: SchemaType, property: Option<String> },
    /// A schema, or the value of a property, that cannot be read as an
    /// object: `name` is a bare reference where an object was expected, has
    /// no type tag, or is an array without an element schema.
    MalformedSchema { name: String },
    /// The template engine failed. Its error is passed on as it came.
    Render(handlebars::RenderError),
}

/// What an `Error` stands for.
pub enum ErrorView {
    UnsupportedSchemaType { schema_type: SchemaType, property: Option<Seq<char>> },
    MalformedSchema { name: Seq<char> },
    Render(handlebars::RenderError),
}

impl View for Error {
    type V = ErrorView;

    open spec fn view(&self) -> ErrorView {
        match self {
            Error::UnsupportedSchemaType { schema_type, property } => {
                ErrorView::UnsupportedSchemaType {
                    schema_type: *schema_type,
                    property: text_view(*property),
                }
            },
            Error::MalformedSchema { name } => ErrorView::MalformedSchema { name: name@ },
            Error::Render(error) => ErrorView::Render(*error),
        }
    }
}

} // verus!
