//! The schema graph that declarations are built from: component schemas as
//! plain values, with the model each one stands for.
use vstd::prelude::*;
use crate::text::{text_view, texts_view};

verus! {

/// The primitive type tag of a schema.
#[derive(Clone, Copy, Debug, PartialEq, Eq, Structural)]
pub enum SchemaType {
    Boolean,
    Integer,
    Number,
    String,
    Array,
    Object,
    Null,
}

/// A JSON number: an integer, or a float held by the bits of its IEEE 754
/// double.
#[derive(Clone, Copy, Debug, PartialEq, Eq, Structural)]
pub enum Number {
    Unsigned(u64),
    Signed(i64),
    Float { bits: u64 },
}

/// The bits of the double `-0.0`; those of `0.0` are all clear.
pub const NEGATIVE_ZERO_BITS: u64 = 0x8000_0000_0000_0000;

impl Number {
    /// Whether the number is numerically zero. Both float zeros count.
    pub open spec fn is_zero(self) -> bool {
        match self {
            Number::Unsigned(value) => value == 0,
            Number::Signed(value) => value == 0,
            Number::Float { bits } => bits == 0 || bits == NEGATIVE_ZERO_BITS,
        }
    }

    /// Whether the number is numerically zero.
    pub fn zero(&self) -> (zero: bool)
        ensures
            zero == self.is_zero(),
    {
        match self {
            Number::Unsigned(value) => *value == 0,
            Number::Signed(value) => *value == 0,
            Number::Float { bits } => *bits == 0 || *bits == NEGATIVE_ZERO_BITS,
        }
    }
}

/// A component schema: a record with named properties, an enumeration of
/// literals, or the typed value of a property.
#[derive(Debug, PartialEq, Eq)]
pub struct Schema {
    pub description: Option<String>,
    pub schema_type: Option<SchemaType>,
    pub format: Option<String>,
    pub minimum: Option<Number>,
    /// The literals of an enumeration, in declaration order.
    pub enum_values: Vec<String>,
    /// The properties of a record, in declaration order.
    pub properties: Vec<Property>,
    /// The names of the properties that must be present.
    pub required: Vec<String>,
    /// The element schema of an array.
    pub items: Option<Box<ObjectOrReference>>,
}

impl Default for Schema {
    /// The schema that says nothing: no description, no type tag, no hints,
    /// no literals, no properties and no element schema.
    fn default() -> (schema: Self)
        ensures
            schema@ == (SchemaView {
                description: None,
                schema_type: None,
                format: None,
                minimum: None,
                enum_values: Seq::empty(),
                properties: Seq::empty(),
                required: Seq::empty(),
                items: None,
            }),
    {
        let schema = Schema {
            description: None,
            schema_type: None,
            format: None,
            minimum: None,
            enum_values: Vec::new(),
            properties: Vec::new(),
            required: Vec::new(),
            items: None,
        };
        proof {
            assert(schema@.enum_values =~= Seq::empty());
            assert(schema@.required =~= Seq::empty());
            assert(schema@.properties =~= Seq::empty());
        }
        schema
    }
}

/// A named property of a record schema.
#[derive(Debug, PartialEq, Eq)]
pub struct Property {
    pub name: String,
    pub schema: ObjectOrReference,
}

/// A schema written in place, or a reference to a named one.
#[derive(Debug, PartialEq, Eq)]
pub enum ObjectOrReference {
    Object(Schema),
    /// `ref_path` is the reference as written, such as
    /// `#/components/schemas/Pet`.
    Ref { ref_path: String },
}

/// What a `Schema` stands for.
pub struct SchemaView {
    pub description: Option<Seq<char>>,
    pub schema_type: Option<SchemaType>,
    pub format: Option<Seq<char>>,
    pub minimum: Option<Number>,
    pub enum_values: Seq<Seq<char>>,
    pub properties: Seq<PropertyView>,
    pub required: Seq<Seq<char>>,
    pub items: Option<Box<ObjectOrReferenceView>>,
}

/// What a `Property` stands for.
pub struct PropertyView {
    pub name: Seq<char>,
    pub schema: ObjectOrReferenceView,
}

/// What an `ObjectOrReference` stands for.
pub enum ObjectOrReferenceView {
    Object(SchemaView),
    Ref { ref_path: Seq<char> },
}

/// What a list of properties stands for: the model of each, in order.
pub open spec fn properties_view(properties: Seq<Property>) -> Seq<PropertyView>
    decreases properties, 1nat,
{
    if properties.len() == 0 {
        Seq::empty()
    } else {
        properties_view(properties.drop_last()).push(property_view(properties.last()))
    }
}

/// What a property stands for.
pub open spec fn property_view(property: Property) -> PropertyView
    decreases property, 0nat,
{
    PropertyView { name: property.name@, schema: source_view(property.schema) }
}

/// What a schema or reference stands for.
pub open spec fn source_view(source: ObjectOrReference) -> ObjectOrReferenceView
    decreases source, 0nat,
{
    match source {
        ObjectOrReference::Object(schema) => ObjectOrReferenceView::Object(schema_view(schema)),
        ObjectOrReference::Ref { ref_path } => ObjectOrReferenceView::Ref { ref_path: ref_path@ },
    }
}

/// What a schema stands for.
pub open spec fn schema_view(schema: Schema) -> SchemaView
    decreases schema, 0nat,
{
    SchemaView {
        description: text_view(schema.description),
        schema_type: schema.schema_type,
        format: text_view(schema.format),
        minimum: schema.minimum,
        enum_values: texts_view(schema.enum_values),
        properties: properties_view(schema.properties@),
        required: texts_view(schema.required),
        items: match schema.items {
            Some(inner) => Some(Box::new(source_view(*inner))),
            None => None,
        },
    }
}

impl View for Schema {
    type V = SchemaView;

    open spec fn view(&self) -> SchemaView {
        schema_view(*self)
    }
}

impl View for Property {
    type V = PropertyView;

    open spec fn view(&self) -> PropertyView {
        property_view(*self)
    }
}

impl View for ObjectOrReference {
    type V = ObjectOrReferenceView;

    open spec fn view(&self) -> ObjectOrReferenceView {
        source_view(*self)
    }
}

/// The model of a list of properties holds the model of each property at
/// the property's own place.
pub proof fn lemma_properties_view(properties: Seq<Property>)
    ensures
        properties_view(properties).len() == properties.len(),
        forall|i: int|
            0 <= i < properties.len() ==> #[trigger] properties_view(properties)[i]
                == properties[i]@,
    decreases properties.len(),
{
    if properties.len() > 0 {
        lemma_properties_view(properties.drop_last());
    }
}

/// The properties of a schema's model are the models of its properties.
pub proof fn lemma_schema_view(schema: &Schema)
    ensures
        schema@.properties.len() == schema.properties.len(),
        forall|i: int|
            0 <= i < schema.properties.len() ==> #[trigger] schema@.properties[i]
                == schema.properties[i]@,
{
    lemma_properties_view(schema.properties@);
}

/// The two kinds of declaration that a schema can denote.
#[derive(Clone, Copy, Debug, PartialEq, Eq, Structural)]
pub enum SchemaKind {
    /// A record with named, typed fields.
    Struct,
    /// A fixed set of literal values.
    Enum,
}

/// The kind of a schema: an enumeration where it lists at least one literal,
/// a record otherwise, also where it has no properties.
pub open spec fn kind_of(schema: SchemaView) -> SchemaKind {
    if schema.enum_values.len() > 0 {
        SchemaKind::Enum
    } else {
        SchemaKind::Struct
    }
}

/// Decides which kind of declaration `schema` denotes.
pub fn classify(schema: &Schema) -> (kind: SchemaKind)
    ensures
        kind == kind_of(schema@),
{
    if schema.enum_values.len() > 0 {
        SchemaKind::Enum
    } else {
        SchemaKind::Struct
    }
}

/// Every schema has exactly one kind: it is an enumeration exactly when its
/// list of literals is not empty, and a record exactly when it is.
pub proof fn lemma_kind_exclusive(schema: SchemaView)
    ensures
        kind_of(schema) == SchemaKind::Enum <==> schema.enum_values.len() > 0,
        kind_of(schema) == SchemaKind::Struct <==> schema.enum_values.len() == 0,
        kind_of(schema) == SchemaKind::Enum || kind_of(schema) == SchemaKind::Struct,
        !(kind_of(schema) == SchemaKind::Enum && kind_of(schema) == SchemaKind::Struct),
{
}

/// A schema without literals and with at least one property is a record.
pub proof fn lemma_properties_without_literals(schema: SchemaView)
    requires
        schema.enum_values.len() == 0,
        schema.properties.len() >= 1,
    ensures
        kind_of(schema) == SchemaKind::Struct,
{
}

} // verus!
