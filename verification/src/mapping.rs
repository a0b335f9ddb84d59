//! Type mapping: from a primitive schema type, with its format and minimum,
//! to the name of a type of the target language.
use vstd::prelude::*;
use vstd::string::*;
use crate::error::{Error, ErrorView};
use crate::naming::CaseStyle;
use crate::schema::{Number, SchemaType};
use crate::text::str_equal;

verus! {

/// The language family that declarations are written for. It decides how
/// fields are cased and how numbers are typed.
#[derive(Clone, Copy, Debug, PartialEq, Eq, Structural)]
pub enum Target {
    /// Camel-cased fields, and one numeric type for every number.
    TypeScript,
    /// Snake-cased fields, and numeric types of fixed width.
    Rust,
}

impl Target {
    /// The casing of field names.
    pub open spec fn field_style(self) -> CaseStyle {
        match self {
            Target::TypeScript => CaseStyle::Camel,
            Target::Rust => CaseStyle::Snake,
        }
    }

    /// The casing of field names.
    pub fn field_case(&self) -> (style: CaseStyle)
        ensures
            style == self.field_style(),
    {
        match self {
            Target::TypeScript => CaseStyle::Camel,
            Target::Rust => CaseStyle::Snake,
        }
    }
}

/// The characters of an optional borrowed text.
pub open spec fn hint_view(hint: Option<&str>) -> Option<Seq<char>> {
    match hint {
        Some(text) => Some(text@),
        None => None,
    }
}

/// Whether a minimum is present and numerically zero.
pub open spec fn minimum_is_zero(minimum: Option<Number>) -> bool {
    minimum matches Some(bound) && bound.is_zero()
}

/// The fixed-width integer type: 64 bits wide for the format `int64`, 32 bits
/// for any other or none; unsigned where the minimum is zero, signed
/// otherwise.
pub open spec fn integer_type(format: Option<Seq<char>>, minimum: Option<Number>) -> Seq<char> {
    if format == Some("int64"@) {
        if minimum_is_zero(minimum) {
            "u64"@
        } else {
            "i64"@
        }
    } else {
        if minimum_is_zero(minimum) {
            "u32"@
        } else {
            "i32"@
        }
    }
}

/// The fixed-width floating type: 32 bits wide for the format `float`, 64
/// bits for any other or none.
pub open spec fn float_type(format: Option<Seq<char>>) -> Seq<char> {
    if format == Some("float"@) {
        "f32"@
    } else {
        "f64"@
    }
}

/// The name of the target type for a primitive schema type, or `None` where
/// the target has no type for it.
pub open spec fn mapped_type(
    target: Target,
    schema_type: SchemaType,
    format: Option<Seq<char>>,
    minimum: Option<Number>,
) -> Option<Seq<char>> {
    match schema_type {
        SchemaType::String => Some("String"@),
        SchemaType::Boolean => Some("bool"@),
        SchemaType::Array => Some(
            match target {
                Target::TypeScript => "Array"@,
                Target::Rust => "Vec"@,
            },
        ),
        SchemaType::Number => Some(
            match target {
                Target::TypeScript => "number"@,
                Target::Rust => float_type(format),
            },
        ),
        SchemaType::Integer => Some(
            match target {
                Target::TypeScript => "number"@,
                Target::Rust => integer_type(format, minimum),
            },
        ),
        SchemaType::Object => None,
        SchemaType::Null => None,
    }
}

/// Whether `format` is present and reads `expected`.
fn format_is(format: Option<&str>, expected: &str) -> (same: bool)
    ensures
        same == (hint_view(format) == Some(expected@)),
{
    match format {
        Some(text) => str_equal(text, expected),
        None => false,
    }
}

/// Whether `minimum` is present and numerically zero.
fn minimum_zero(minimum: &Option<Number>) -> (zero: bool)
    ensures
        zero == minimum_is_zero(*minimum),
{
    match minimum {
        Some(bound) => bound.zero(),
        None => false,
    }
}

/// Maps a primitive schema type to the name of its target type.
///
/// Strings, booleans, arrays, numbers and integers are supported; for an
/// array the name is the marker of a sequence, whose element type the caller
/// resolves. Any other tag fails with `UnsupportedSchemaType`, which carries
/// the tag and names no property.
pub fn map_primitive(
    target: Target,
    schema_type: SchemaType,
    format: Option<&str>,
    minimum: &Option<Number>,
) -> (result: Result<String, Error>)
    ensures
        match mapped_type(target, schema_type, hint_view(format), *minimum) {
            Some(name) => result matches Ok(out) && out@ == name,
            None => result matches Err(error) && error@ == (ErrorView::UnsupportedSchemaType {
                schema_type,
                property: None,
            }),
        },
{
    let name: &str = match schema_type {
        SchemaType::String => "String",
        SchemaType::Boolean => "bool",
        SchemaType::Array => match target {
            Target::TypeScript => "Array",
            Target::Rust => "Vec",
        },
        SchemaType::Number => match target {
            Target::TypeScript => "number",
            Target::Rust => if format_is(format, "float") {
                "f32"
            } else {
                "f64"
            },
        },
        SchemaType::Integer => match target {
            Target::TypeScript => "number",
            Target::Rust => {
                let unsigned = minimum_zero(minimum);
                if format_is(format, "int64") {
                    if unsigned {
                        "u64"
                    } else {
                        "i64"
                    }
                } else {
                    if unsigned {
                        "u32"
                    } else {
                        "i32"
                    }
                }
            },
        },
        SchemaType::Object | SchemaType::Null => {
            return Err(Error::UnsupportedSchemaType { schema_type, property: None });
        },
    };
    Ok(String::from_str(name))
}

/// A type is mapped exactly for the five supported tags, whatever the
/// target, the format and the minimum.
pub proof fn lemma_supported_tags(
    target: Target,
    schema_type: SchemaType,
    format: Option<Seq<char>>,
    minimum: Option<Number>,
)
    ensures
        mapped_type(target, schema_type, format, minimum) is Some <==> (schema_type
            == SchemaType::String || schema_type == SchemaType::Boolean || schema_type
            == SchemaType::Array || schema_type == SchemaType::Number || schema_type
            == SchemaType::Integer),
{
}

/// A target without fixed-width numbers gives every number and integer the
/// same type, whatever the format and the minimum.
pub proof fn lemma_typescript_numbers_alike(
    schema_type: SchemaType,
    format: Option<Seq<char>>,
    minimum: Option<Number>,
)
    requires
        schema_type == SchemaType::Number || schema_type == SchemaType::Integer,
    ensures
        mapped_type(Target::TypeScript, schema_type, format, minimum) == Some("number"@),
{
}

/// With fixed-width numbers an integer is unsigned exactly where its minimum
/// is present and zero, and 64 bits wide exactly for the format `int64`.
pub proof fn lemma_integer_width_and_sign(format: Option<Seq<char>>, minimum: Option<Number>)
    ensures
        (integer_type(format, minimum) == "u32"@ || integer_type(format, minimum) == "u64"@)
            <==> minimum_is_zero(minimum),
        (integer_type(format, minimum) == "i64"@ || integer_type(format, minimum) == "u64"@)
            <==> format == Some("int64"@),
{
    reveal_strlit("u32");
    reveal_strlit("u64");
    reveal_strlit("i32");
    reveal_strlit("i64");
    assert("u32"@[0] == 'u' && "u64"@[0] == 'u' && "i32"@[0] == 'i' && "i64"@[0] == 'i');
    assert("u32"@[1] == '3' && "u64"@[1] == '6' && "i32"@[1] == '3' && "i64"@[1] == '6');
}

/// With fixed-width numbers a number is 32 bits wide exactly for the format
/// `float`, and 64 bits wide for any other format or none.
pub proof fn lemma_float_width(format: Option<Seq<char>>)
    ensures
        float_type(format) == "f32"@ <==> format == Some("float"@),
        float_type(format) == "f64"@ <==> format != Some("float"@),
{
    reveal_strlit("f32");
    reveal_strlit("f64");
    assert("f32"@[1] == '3' && "f64"@[1] == '6');
}

} // verus!
