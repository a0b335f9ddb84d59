//! The code generator: from a named schema to the text of its declaration.
use vstd::prelude::*;
use crate::builder::{build_enum, build_struct, enum_of, struct_of};
use crate::error::{Error, ErrorView};
use crate::mapping::{hint_view, map_primitive, mapped_type, Target};
use crate::naming::{field_name_of, starts_numeric, to_field_name, to_type_name, type_name_of};
use crate::schema::{
    classify, kind_of, Number, ObjectOrReference, ObjectOrReferenceView, SchemaKind, SchemaType,
    SchemaView,
};
use crate::templates::{
    enum_data, enum_template, rendered, struct_data, struct_template, Templates,
};
use crate::types::{Enum, EnumView, Struct, StructView};

verus! {

/// The enumeration that a named schema becomes. A bare reference is
/// malformed: only a schema written in place can be declared.
pub open spec fn parsed_enum(name: Seq<char>, source: ObjectOrReferenceView) -> Result<
    EnumView,
    ErrorView,
> {
    match source {
        ObjectOrReferenceView::Object(schema) => Ok(enum_of(name, schema)),
        ObjectOrReferenceView::Ref { .. } => Err(ErrorView::MalformedSchema { name }),
    }
}

/// The record that a named schema becomes. A bare reference is malformed.
pub open spec fn parsed_struct(target: Target, name: Seq<char>, source: ObjectOrReferenceView) -> Result<
    StructView,
    ErrorView,
> {
    match source {
        ObjectOrReferenceView::Object(schema) => struct_of(target, name, schema),
        ObjectOrReferenceView::Ref { .. } => Err(ErrorView::MalformedSchema { name }),
    }
}

/// The declaration of a named schema: the schema is classified, built as
/// the kind it has, and rendered through the template of that kind. A bare
/// reference is malformed, and a failure to build is never rendered.
pub open spec fn declaration_of(target: Target, name: Seq<char>, source: ObjectOrReferenceView) -> Result<
    Seq<char>,
    ErrorView,
> {
    match source {
        ObjectOrReferenceView::Ref { .. } => Err(ErrorView::MalformedSchema { name }),
        ObjectOrReferenceView::Object(schema) => match kind_of(schema) {
            SchemaKind::Enum => rendered(enum_template(target), enum_data(enum_of(name, schema))),
            SchemaKind::Struct => match struct_of(target, name, schema) {
                Err(error) => Err(error),
                Ok(record) => rendered(struct_template(target), struct_data(record)),
            },
        },
    }
}

/// A record that cannot be built is never rendered: its declaration is the
/// error of the build.
pub proof fn lemma_failed_build_is_not_rendered(
    target: Target,
    name: Seq<char>,
    schema: SchemaView,
)
    requires
        kind_of(schema) == SchemaKind::Struct,
        struct_of(target, name, schema) is Err,
    ensures
        declaration_of(target, name, ObjectOrReferenceView::Object(schema)) == Err::<
            Seq<char>,
            ErrorView,
        >(struct_of(target, name, schema)->Err_0),
{
}

/// Whether an outcome is the expected one: the same text, or the same error.
pub open spec fn outcome_is(outcome: Result<String, Error>, expected: Result<Seq<char>, ErrorView>) -> bool {
    match expected {
        Ok(text) => outcome matches Ok(out) && out@ == text,
        Err(error) => outcome matches Err(out) && out@ == error,
    }
}

/// A code generator for one target language.
pub struct CodegenImpl {
    templates: Templates,
}

impl CodegenImpl {
    /// The target language.
    pub closed spec fn spec_target(&self) -> Target {
        self.templates.target()
    }

    /// The target language.
    #[verifier::when_used_as_spec(spec_target)]
    pub fn target(&self) -> (target: Target)
        ensures
            target == self.target(),
    {
        self.templates.target()
    }

    /// A generator of TypeScript declarations.
    pub fn new() -> (codegen: Self)
        ensures
            codegen.target() == Target::TypeScript,
    {
        CodegenImpl { templates: Templates::new() }
    }

    /// A generator of declarations for `target`.
    pub fn for_target(target: Target) -> (codegen: Self)
        ensures
            codegen.target() == target,
    {
        CodegenImpl { templates: Templates::for_target(target) }
    }

    /// The name of a type or of an enum variant for the schema name or
    /// literal `name`. It never begins with a numeric character.
    pub fn str_to_enum_variant(&mut self, name: &str) -> (out: String)
        ensures
            *final(self) == *old(self),
            out@ == type_name_of(name@),
            !starts_numeric(out@),
    {
        to_type_name(name)
    }

    /// The name of a field for the property name `name`, in the casing of
    /// the target.
    pub fn str_to_variable_name(&mut self, name: &str) -> (out: String)
        ensures
            *final(self) == *old(self),
            out@ == field_name_of(name@, old(self).target().field_style()),
    {
        to_field_name(name, self.templates.target().field_case())
    }

    /// The name of the target type for a primitive schema type, or the
    /// error `UnsupportedSchemaType` for a tag that has none.
    pub fn map_oas3_to_output_type(
        &mut self,
        oas3_type: SchemaType,
        format: Option<&str>,
        min: &Option<Number>,
    ) -> (result: Result<String, Error>)
        ensures
            *final(self) == *old(self),
            match mapped_type(old(self).target(), oas3_type, hint_view(format), *min) {
                Some(name) => result matches Ok(out) && out@ == name,
                None => result matches Err(error) && error@ == (ErrorView::UnsupportedSchemaType {
                    schema_type: oas3_type,
                    property: None,
                }),
            },
    {
        map_primitive(self.templates.target(), oas3_type, format, min)
    }

    /// Builds the record of the schema `name`.
    pub fn parse_struct(&mut self, name: &String, schema: &ObjectOrReference) -> (result: Result<
        Struct,
        Error,
    >)
        ensures
            *final(self) == *old(self),
            match parsed_struct(old(self).target(), name@, schema@) {
                Ok(record) => result matches Ok(out) && out@ == record,
                Err(error) => result matches Err(out) && out@ == error,
            },
    {
        match schema {
            ObjectOrReference::Object(object) => build_struct(
                self.templates.target(),
                name.as_str(),
                object,
            ),
            ObjectOrReference::Ref { .. } => Err(Error::MalformedSchema { name: name.clone() }),
        }
    }

    /// Builds the enumeration of a named schema.
    pub fn parse_enum(&mut self, schema: (&String, &ObjectOrReference)) -> (result: Result<
        Enum,
        Error,
    >)
        ensures
            *final(self) == *old(self),
            match parsed_enum(schema.0@, schema.1@) {
                Ok(declaration) => result matches Ok(out) && out@ == declaration,
                Err(error) => result matches Err(out) && out@ == error,
            },
    {
        match schema.1 {
            ObjectOrReference::Object(object) => Ok(build_enum(schema.0.as_str(), object)),
            ObjectOrReference::Ref { .. } => Err(
                Error::MalformedSchema { name: schema.0.clone() },
            ),
        }
    }

    /// Classifies a named schema, builds it as the kind it has, and renders
    /// its declaration.
    pub fn parse_struct_or_enum(&mut self, schema: (&String, &ObjectOrReference)) -> (result: Result<
        String,
        Error,
    >)
        ensures
            *final(self) == *old(self),
            outcome_is(result, declaration_of(old(self).target(), schema.0@, schema.1@)),
    {
        match schema.1 {
            ObjectOrReference::Ref { .. } => Err(
                Error::MalformedSchema { name: schema.0.clone() },
            ),
            ObjectOrReference::Object(object) => match classify(object) {
                SchemaKind::Struct => match self.parse_struct(schema.0, schema.1) {
                    Err(error) => Err(error),
                    Ok(record) => self.templates.render_struct_template(&record),
                },
                SchemaKind::Enum => match self.parse_enum(schema) {
                    Err(error) => Err(error),
                    Ok(declaration) => self.templates.render_enum_template(&declaration),
                },
            },
        }
    }

    /// Generates the declaration of each named schema, in their order. Each
    /// schema is tried on its own: a failure is the outcome of that schema
    /// alone.
    pub fn generate(&mut self, schemas: &Vec<(String, ObjectOrReference)>) -> (results: Vec<
        Result<String, Error>,
    >)
        ensures
            *final(self) == *old(self),
            results@.len() == schemas@.len(),
            forall|i: int|
                0 <= i < schemas@.len() ==> outcome_is(
                    #[trigger] results@[i],
                    declaration_of(old(self).target(), schemas@[i].0@, schemas@[i].1@),
                ),
    {
        let mut results: Vec<Result<String, Error>> = Vec::new();
        let mut i: usize = 0;
        while i < schemas.len()
            invariant
                *self == *old(self),
                i <= schemas@.len(),
                results@.len() == i,
                forall|j: int|
                    0 <= j < i ==> outcome_is(
                        #[trigger] results@[j],
                        declaration_of(old(self).target(), schemas@[j].0@, schemas@[j].1@),
                    ),
            decreases schemas@.len() - i,
        {
            let outcome = self.parse_struct_or_enum((&schemas[i].0, &schemas[i].1));
            results.push(outcome);
            i += 1;
        }
        results
    }
}

} // verus!
