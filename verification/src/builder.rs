//! Building the intermediate representation of a record or an enumeration
//! from its schema.
use vstd::prelude::*;
use vstd::string::*;
use crate::error::{Error, ErrorView};
use crate::mapping::{map_primitive, mapped_type, Target};
use crate::naming::{field_name_of, to_field_name, to_type_name, type_name_of};
use crate::schema::{
    lemma_schema_view, ObjectOrReference, ObjectOrReferenceView, Property, PropertyView, Schema,
    SchemaType, SchemaView,
};
use crate::text::{copy_text, holds_name, str_equal, texts_view};
use crate::types::{
    Enum, EnumVariant, EnumVariantView, EnumView, Struct, StructField, StructFieldType,
    StructFieldTypeView, StructFieldView, StructView,
};

verus! {

/// Where the last segment of a reference path begins: behind its last slash,
/// or at 0 where it has none.
pub open spec fn segment_start(path: Seq<char>) -> int
    decreases path.len(),
{
    if path.len() == 0 {
        0
    } else if path.last() == '/' {
        path.len() as int
    } else {
        segment_start(path.drop_last())
    }
}

/// The name of the schema that a reference path points to: its last segment.
pub open spec fn referenced_name(path: Seq<char>) -> Seq<char> {
    path.subrange(segment_start(path), path.len() as int)
}

/// The last segment starts within the path, holds no slash, and has a slash
/// or nothing in front of it.
pub proof fn lemma_segment_start(path: Seq<char>)
    ensures
        0 <= segment_start(path) <= path.len(),
        segment_start(path) > 0 ==> path[segment_start(path) - 1] == '/',
        forall|i: int| segment_start(path) <= i < path.len() ==> path[i] != '/',
    decreases path.len(),
{
    if path.len() > 0 && path.last() != '/' {
        let shorter = path.drop_last();
        lemma_segment_start(shorter);
        assert forall|i: int| segment_start(path) <= i < path.len() implies path[i] != '/' by {
            if i < shorter.len() {
                assert(shorter[i] == path[i]);
            }
        }
    }
}

/// The name of the schema that the reference `path` points to.
pub fn reference_target(path: &str) -> (name: String)
    ensures
        name@ == referenced_name(path@),
{
    let len: usize = path.unicode_len();
    let mut start: usize = 0;
    let mut i: usize = 0;
    while i < len
        invariant
            len == path@.len(),
            i <= len,
            start <= i,
            start == segment_start(path@.subrange(0, i as int)),
        decreases len - i,
    {
        let c = path.get_char(i);
        proof {
            let longer = path@.subrange(0, i as int + 1);
            assert(longer.drop_last() =~= path@.subrange(0, i as int));
            assert(longer.last() == c);
        }
        if c == '/' {
            start = i + 1;
        }
        i += 1;
    }
    proof {
        assert(path@.subrange(0, len as int) =~= path@);
    }
    String::from_str(path.substring_char(start, len))
}

/// The type of a field that refers to another named schema: the type name
/// that the schema is declared under.
pub open spec fn reference_type(path: Seq<char>) -> StructFieldTypeView {
    StructFieldTypeView::Ref(type_name_of(referenced_name(path)))
}

/// The type of a value written in place: what its type tag maps to. A value
/// without a tag is malformed; a tag without a target type is unsupported,
/// and the error names the property.
pub open spec fn value_type(target: Target, property: Seq<char>, schema: SchemaView) -> Result<
    StructFieldTypeView,
    ErrorView,
> {
    match schema.schema_type {
        None => Err(ErrorView::MalformedSchema { name: property }),
        Some(tag) => match mapped_type(target, tag, schema.format, schema.minimum) {
            Some(name) => Ok(StructFieldTypeView::Value(name)),
            None => Err(
                ErrorView::UnsupportedSchemaType { schema_type: tag, property: Some(property) },
            ),
        },
    }
}

/// The two-way rule: a reference resolves to the referenced type, a schema
/// written in place to a value type.
pub open spec fn resolved_type(
    target: Target,
    property: Seq<char>,
    source: ObjectOrReferenceView,
) -> Result<StructFieldTypeView, ErrorView> {
    match source {
        ObjectOrReferenceView::Ref { ref_path } => Ok(reference_type(ref_path)),
        ObjectOrReferenceView::Object(schema) => value_type(target, property, schema),
    }
}

/// Whether a property holds an array: a schema written in place whose type
/// tag says so.
pub open spec fn is_array_schema(source: ObjectOrReferenceView) -> bool {
    source matches ObjectOrReferenceView::Object(schema) && schema.schema_type == Some(
        SchemaType::Array,
    )
}

/// The element schema of an array property.
pub open spec fn element_of(source: ObjectOrReferenceView) -> Option<ObjectOrReferenceView> {
    match source {
        ObjectOrReferenceView::Object(schema) => match schema.items {
            Some(element) => Some(*element),
            None => None,
        },
        ObjectOrReferenceView::Ref { .. } => None,
    }
}

/// The type of a field and whether the field is an array. For an array the
/// type is that of its elements, and an array without an element schema is
/// malformed.
pub open spec fn field_type(
    target: Target,
    property: Seq<char>,
    source: ObjectOrReferenceView,
) -> Result<(StructFieldTypeView, bool), ErrorView> {
    if is_array_schema(source) {
        match element_of(source) {
            None => Err(ErrorView::MalformedSchema { name: property }),
            Some(element) => match resolved_type(target, property, element) {
                Ok(type_) => Ok((type_, true)),
                Err(error) => Err(error),
            },
        }
    } else {
        match resolved_type(target, property, source) {
            Ok(type_) => Ok((type_, false)),
            Err(error) => Err(error),
        }
    }
}

/// The description that a property carries: that of its schema where it is
/// written in place, none for a reference.
pub open spec fn description_of(source: ObjectOrReferenceView) -> Option<Seq<char>> {
    match source {
        ObjectOrReferenceView::Object(schema) => schema.description,
        ObjectOrReferenceView::Ref { .. } => None,
    }
}

/// The field that a property becomes. It is required exactly where
/// `required` holds its name.
pub open spec fn field_of(target: Target, property: PropertyView, required: Seq<Seq<char>>) -> Result<
    StructFieldView,
    ErrorView,
> {
    match field_type(target, property.name, property.schema) {
        Err(error) => Err(error),
        Ok((type_, is_array)) => Ok(
            StructFieldView {
                name: field_name_of(property.name, target.field_style()),
                description: description_of(property.schema),
                type_,
                required: required.contains(property.name),
                is_array,
            },
        ),
    }
}

/// The fields that a list of properties becomes, in the order of the
/// properties; the error of the first property that fails, if one does.
pub open spec fn fields_of(
    target: Target,
    properties: Seq<PropertyView>,
    required: Seq<Seq<char>>,
) -> Result<Seq<StructFieldView>, ErrorView>
    decreases properties.len(),
{
    if properties.len() == 0 {
        Ok(Seq::empty())
    } else {
        match fields_of(target, properties.drop_last(), required) {
            Err(error) => Err(error),
            Ok(fields) => match field_of(target, properties.last(), required) {
                Err(error) => Err(error),
                Ok(field) => Ok(fields.push(field)),
            },
        }
    }
}

/// The record that a named schema becomes.
pub open spec fn struct_of(target: Target, name: Seq<char>, schema: SchemaView) -> Result<
    StructView,
    ErrorView,
> {
    match fields_of(target, schema.properties, schema.required) {
        Err(error) => Err(error),
        Ok(fields) => Ok(
            StructView { name: type_name_of(name), description: schema.description, fields },
        ),
    }
}

/// The variant that a literal becomes: named by the type name of the
/// literal, and carrying the literal wherever the name differs from it.
pub open spec fn variant_of(literal: Seq<char>) -> EnumVariantView {
    EnumVariantView {
        name: type_name_of(literal),
        value: if type_name_of(literal) == literal {
            None
        } else {
            Some(literal)
        },
    }
}

/// The enumeration that a named schema becomes: one variant for each
/// literal, in the order of the literals.
pub open spec fn enum_of(name: Seq<char>, schema: SchemaView) -> EnumView {
    EnumView {
        name: type_name_of(name),
        description: schema.description,
        variants: schema.enum_values.map_values(|literal: Seq<char>| variant_of(literal)),
    }
}

/// Resolves what a property or an array element is typed by.
fn resolve_type(target: Target, property: &str, source: &ObjectOrReference) -> (result: Result<
    StructFieldType,
    Error,
>)
    ensures
        match resolved_type(target, property@, source@) {
            Ok(type_) => result matches Ok(out) && out@ == type_,
            Err(error) => result matches Err(out) && out@ == error,
        },
{
    match source {
        ObjectOrReference::Ref { ref_path } => {
            let target_name = reference_target(ref_path.as_str());
            Ok(StructFieldType::Ref(to_type_name(target_name.as_str())))
        },
        ObjectOrReference::Object(schema) => {
            let format: Option<&str> = match &schema.format {
                Some(text) => Some(text.as_str()),
                None => None,
            };
            match schema.schema_type {
                None => Err(Error::MalformedSchema { name: String::from_str(property) }),
                Some(tag) => match map_primitive(target, tag, format, &schema.minimum) {
                    Ok(name) => Ok(StructFieldType::Value(name)),
                    Err(_) => Err(
                        Error::UnsupportedSchemaType {
                            schema_type: tag,
                            property: Some(String::from_str(property)),
                        },
                    ),
                },
            }
        },
    }
}

/// Builds the field that `property` becomes.
pub fn build_field(target: Target, property: &Property, required: &Vec<String>) -> (result: Result<
    StructField,
    Error,
>)
    ensures
        match field_of(target, property@, texts_view(*required)) {
            Ok(field) => result matches Ok(out) && out@ == field,
            Err(error) => result matches Err(out) && out@ == error,
        },
{
    let name = property.name.as_str();
    let mut is_array = false;
    let mut description: Option<String> = None;
    let mut element: Option<&ObjectOrReference> = None;
    match &property.schema {
        ObjectOrReference::Object(schema) => {
            description = copy_text(&schema.description);
            match schema.schema_type {
                Some(SchemaType::Array) => {
                    is_array = true;
                    match &schema.items {
                        Some(inner) => {
                            element = Some(&**inner);
                        },
                        None => {},
                    }
                },
                _ => {},
            }
        },
        ObjectOrReference::Ref { .. } => {},
    }
    let resolved = if is_array {
        match element {
            Some(inner) => resolve_type(target, name, inner),
            None => Err(Error::MalformedSchema { name: String::from_str(name) }),
        }
    } else {
        resolve_type(target, name, &property.schema)
    };
    match resolved {
        Err(error) => Err(error),
        Ok(type_) => Ok(
            StructField {
                name: to_field_name(name, target.field_case()),
                description,
                type_,
                required: holds_name(required, name),
                is_array,
            },
        ),
    }
}

/// The fields come in the order of the properties, one for each; where a
/// property fails, the error is that of the first one that does.
pub proof fn lemma_fields_in_declaration_order(
    target: Target,
    properties: Seq<PropertyView>,
    required: Seq<Seq<char>>,
)
    ensures
        match fields_of(target, properties, required) {
            Ok(fields) => {
                &&& fields.len() == properties.len()
                &&& forall|i: int|
                    0 <= i < properties.len() ==> field_of(target, #[trigger] properties[i], required)
                        == Ok::<StructFieldView, ErrorView>(fields[i])
            },
            Err(error) => exists|k: int|
                {
                    &&& 0 <= k < properties.len()
                    &&& field_of(target, #[trigger] properties[k], required) == Err::<
                        StructFieldView,
                        ErrorView,
                    >(error)
                    &&& forall|j: int|
                        0 <= j < k ==> field_of(target, #[trigger] properties[j], required) is Ok
                },
        },
    decreases properties.len(),
{
    if properties.len() > 0 {
        let shorter = properties.drop_last();
        lemma_fields_in_declaration_order(target, shorter, required);
        assert forall|i: int| 0 <= i < shorter.len() implies shorter[i] == properties[i] by {}
        match fields_of(target, shorter, required) {
            Err(error) => {
                let k = choose|k: int|
                    {
                        &&& 0 <= k < shorter.len()
                        &&& field_of(target, #[trigger] shorter[k], required) == Err::<
                            StructFieldView,
                            ErrorView,
                        >(error)
                        &&& forall|j: int|
                            0 <= j < k ==> field_of(target, #[trigger] shorter[j], required) is Ok
                    };
                assert(shorter[k] == properties[k]);
                assert forall|j: int| 0 <= j < k implies field_of(
                    target,
                    #[trigger] properties[j],
                    required,
                ) is Ok by {
                    assert(shorter[j] == properties[j]);
                }
            },
            Ok(fields) => {
                let last = properties.len() - 1;
                match field_of(target, properties.last(), required) {
                    Err(error) => {
                        assert(properties[last] == properties.last());
                        assert forall|j: int| 0 <= j < last implies field_of(
                            target,
                            #[trigger] properties[j],
                            required,
                        ) is Ok by {
                            assert(shorter[j] == properties[j]);
                        }
                    },
                    Ok(field) => {
                        assert forall|i: int| 0 <= i < properties.len() implies field_of(
                            target,
                            #[trigger] properties[i],
                            required,
                        ) == Ok::<StructFieldView, ErrorView>(fields.push(field)[i]) by {
                            if i < last {
                                assert(shorter[i] == properties[i]);
                            }
                        }
                    },
                }
            },
        }
    }
}

/// A schema without properties becomes a record without fields, whatever
/// the target: it is no failure.
pub proof fn lemma_record_without_properties(target: Target, name: Seq<char>, schema: SchemaView)
    requires
        schema.properties.len() == 0,
    ensures
        struct_of(target, name, schema) == Ok::<StructView, ErrorView>(
            StructView {
                name: type_name_of(name),
                description: schema.description,
                fields: Seq::empty(),
            },
        ),
{
}

/// Once a property has failed, no further property changes the outcome.
proof fn lemma_failure_stands(
    target: Target,
    properties: Seq<PropertyView>,
    required: Seq<Seq<char>>,
    k: int,
)
    requires
        0 <= k <= properties.len(),
        fields_of(target, properties.subrange(0, k), required) is Err,
    ensures
        fields_of(target, properties, required) == fields_of(
            target,
            properties.subrange(0, k),
            required,
        ),
    decreases properties.len(),
{
    if k < properties.len() {
        let shorter = properties.drop_last();
        assert(shorter.subrange(0, k) =~= properties.subrange(0, k));
        lemma_failure_stands(target, shorter, required, k);
    } else {
        assert(properties.subrange(0, k) =~= properties);
    }
}

/// Builds the record that the schema `name` becomes: its fields are built
/// from the properties in their order, and the first property that fails
/// ends the build with its error.
pub fn build_struct(target: Target, name: &str, schema: &Schema) -> (result: Result<Struct, Error>)
    ensures
        match struct_of(target, name@, schema@) {
            Ok(record) => result matches Ok(out) && out@ == record,
            Err(error) => result matches Err(out) && out@ == error,
        },
{
    let mut fields: Vec<StructField> = Vec::new();
    let mut i: usize = 0;
    proof {
        lemma_schema_view(schema);
        assert(fields@.map_values(|f: StructField| f@) =~= Seq::empty());
        assert(schema@.properties.subrange(0, 0) =~= Seq::empty());
    }
    while i < schema.properties.len()
        invariant
            i <= schema.properties.len(),
            schema@.properties.len() == schema.properties.len(),
            schema@.required == texts_view(schema.required),
            forall|j: int|
                0 <= j < schema.properties.len() ==> schema@.properties[j]
                    == #[trigger] schema.properties[j]@,
            fields_of(target, schema@.properties.subrange(0, i as int), schema@.required) == Ok::<
                Seq<StructFieldView>,
                ErrorView,
            >(fields@.map_values(|f: StructField| f@)),
        decreases schema.properties.len() - i,
    {
        let ghost before = schema@.properties.subrange(0, i as int);
        let ghost longer = schema@.properties.subrange(0, i as int + 1);
        proof {
            assert(longer.drop_last() =~= before);
            assert(longer.last() == schema.properties[i as int]@);
        }
        match build_field(target, &schema.properties[i], &schema.required) {
            Err(error) => {
                proof {
                    lemma_failure_stands(
                        target,
                        schema@.properties,
                        schema@.required,
                        i as int + 1,
                    );
                }
                return Err(error);
            },
            Ok(field) => {
                let ghost built = fields@.map_values(|f: StructField| f@);
                fields.push(field);
                proof {
                    assert(fields@.map_values(|f: StructField| f@) =~= built.push(field@));
                }
            },
        }
        i += 1;
    }
    proof {
        assert(schema@.properties.subrange(0, i as int) =~= schema@.properties);
    }
    Ok(
        Struct {
            name: to_type_name(name),
            description: copy_text(&schema.description),
            fields,
        },
    )
}

/// Builds the variant that `literal` becomes.
pub fn build_variant(literal: &str) -> (variant: EnumVariant)
    ensures
        variant@ == variant_of(literal@),
{
    let name = to_type_name(literal);
    let value = if str_equal(name.as_str(), literal) {
        None
    } else {
        Some(String::from_str(literal))
    };
    EnumVariant { name, value }
}

/// Builds the enumeration that the schema `name` becomes, one variant for
/// each literal, in their order. This never fails.
pub fn build_enum(name: &str, schema: &Schema) -> (result: Enum)
    ensures
        result@ == enum_of(name@, schema@),
{
    let mut variants: Vec<EnumVariant> = Vec::new();
    let mut i: usize = 0;
    while i < schema.enum_values.len()
        invariant
            i <= schema.enum_values.len(),
            variants@.len() == i,
            forall|j: int| 0 <= j < i ==> variants@[j]@ == variant_of(schema.enum_values@[j]@),
        decreases schema.enum_values.len() - i,
    {
        variants.push(build_variant(schema.enum_values[i].as_str()));
        i += 1;
    }
    let result = Enum {
        name: to_type_name(name),
        description: copy_text(&schema.description),
        variants,
    };
    proof {
        assert(result@.variants =~= enum_of(name@, schema@).variants);
    }
    result
}

/// The variants come in the order of the literals, one for each.
pub proof fn lemma_variants_in_declaration_order(name: Seq<char>, schema: SchemaView)
    ensures
        enum_of(name, schema).variants.len() == schema.enum_values.len(),
        forall|i: int|
            0 <= i < schema.enum_values.len() ==> #[trigger] enum_of(name, schema).variants[i]
                == variant_of(schema.enum_values[i]),
{
}

/// A list in another order: place `i` of the result holds what place
/// `order[i]` of `items` holds.
pub open spec fn reordered<A>(items: Seq<A>, order: Seq<int>) -> Seq<A> {
    Seq::new(order.len(), |i: int| items[order[i]])
}

/// Whether every place that `order` names lies within a list of `len` items.
pub open spec fn order_within(order: Seq<int>, len: nat) -> bool {
    forall|i: int| 0 <= i < order.len() ==> 0 <= #[trigger] order[i] < len
}

/// Literals in another order give the same variants in that order.
pub proof fn lemma_variants_follow_literals(name: Seq<char>, schema: SchemaView, order: Seq<int>)
    requires
        order_within(order, schema.enum_values.len()),
    ensures
        enum_of(
            name,
            SchemaView { enum_values: reordered(schema.enum_values, order), ..schema },
        ).variants == reordered(enum_of(name, schema).variants, order),
{
    let moved = SchemaView { enum_values: reordered(schema.enum_values, order), ..schema };
    assert(enum_of(name, moved).variants =~= reordered(enum_of(name, schema).variants, order));
}

/// Properties in another order give the same fields in that order, where
/// every property can be built.
pub proof fn lemma_fields_follow_properties(
    target: Target,
    properties: Seq<PropertyView>,
    required: Seq<Seq<char>>,
    order: Seq<int>,
)
    requires
        order_within(order, properties.len()),
        fields_of(target, properties, required) is Ok,
    ensures
        fields_of(target, reordered(properties, order), required) == Ok::<
            Seq<StructFieldView>,
            ErrorView,
        >(reordered(fields_of(target, properties, required)->Ok_0, order)),
{
    let moved = reordered(properties, order);
    let fields = fields_of(target, properties, required)->Ok_0;
    lemma_fields_in_declaration_order(target, properties, required);
    lemma_fields_in_declaration_order(target, moved, required);
    assert forall|k: int| 0 <= k < moved.len() implies field_of(
        target,
        #[trigger] moved[k],
        required,
    ) == Ok::<StructFieldView, ErrorView>(fields[order[k]]) by {
        assert(moved[k] == properties[order[k]]);
    }
    match fields_of(target, moved, required) {
        Ok(moved_fields) => {
            assert forall|k: int| 0 <= k < moved_fields.len() implies moved_fields[k]
                == reordered(fields, order)[k] by {
                assert(field_of(target, moved[k], required) == Ok::<StructFieldView, ErrorView>(
                    moved_fields[k],
                ));
            }
            assert(moved_fields =~= reordered(fields, order));
        },
        Err(error) => {
            assert(false);
        },
    }
}

/// A variant carries its literal exactly where its name differs from the
/// literal; where the name reproduces the literal, it carries nothing.
pub proof fn lemma_variant_keeps_literal(literal: Seq<char>)
    ensures
        variant_of(literal).name != literal <==> variant_of(literal).value == Some(literal),
        variant_of(literal).name == literal <==> variant_of(literal).value is None,
{
}

} // verus!
