//! The intermediate representation: what is known of a declaration before it
//! is rendered.
use vstd::prelude::*;
use crate::text::text_view;

verus! {

/// One variant of an enumeration.
#[derive(Clone, Debug, PartialEq, Eq)]
pub struct EnumVariant {
    pub name: String,
    /// The literal as it goes over the wire, where the name does not
    /// reproduce it.
    pub value: Option<String>,
}

/// An enumeration: a fixed set of variants, in declaration order.
#[derive(Clone, Debug, PartialEq, Eq)]
pub struct Enum {
    pub name: String,
    pub description: Option<String>,
    pub variants: Vec<EnumVariant>,
}

/// The type of a field: a value type by its name, or another declared type.
#[derive(Clone, Debug, PartialEq, Eq)]
pub enum StructFieldType {
    Value(String),
    Ref(String),
}

/// One field of a record.
#[derive(Clone, Debug, PartialEq, Eq)]
pub struct StructField {
    pub name: String,
    pub description: Option<String>,
    /// The type of the field, or of its elements where `is_array` holds.
    pub type_: StructFieldType,
    pub required: bool,
    pub is_array: bool,
}

/// A record: named, typed fields, in declaration order.
#[derive(Clone, Debug, PartialEq, Eq)]
pub struct Struct {
    pub name: String,
    pub description: Option<String>,
    pub fields: Vec<StructField>,
}

/// What an `EnumVariant` stands for.
pub struct EnumVariantView {
    pub name: Seq<char>,
    pub value: Option<Seq<char>>,
}

/// What an `Enum` stands for.
pub struct EnumView {
    pub name: Seq<char>,
    pub description: Option<Seq<char>>,
    pub variants: Seq<EnumVariantView>,
}

/// What a `StructFieldType` stands for.
pub enum StructFieldTypeView {
    Value(Seq<char>),
    Ref(Seq<char>),
}

/// What a `StructField` stands for.
pub struct StructFieldView {
    pub name: Seq<char>,
    pub description: Option<Seq<char>>,
    pub type_: StructFieldTypeView,
    pub required: bool,
    pub is_array: bool,
}

/// What a `Struct` stands for.
pub struct StructView {
    pub name: Seq<char>,
    pub description: Option<Seq<char>>,
    pub fields: Seq<StructFieldView>,
}

impl View for EnumVariant {
    type V = EnumVariantView;

    open spec fn view(&self) -> EnumVariantView {
        EnumVariantView { name: self.name@, value: text_view(self.value) }
    }
}

impl View for Enum {
    type V = EnumView;

    open spec fn view(&self) -> EnumView {
        EnumView {
            name: self.name@,
            description: text_view(self.description),
            variants: self.variants@.map_values(|v: EnumVariant| v@),
        }
    }
}

impl View for StructFieldType {
    type V = StructFieldTypeView;

    open spec fn view(&self) -> StructFieldTypeView {
        match self {
            StructFieldType::Value(name) => StructFieldTypeView::Value(name@),
            StructFieldType::Ref(name) => StructFieldTypeView::Ref(name@),
        }
    }
}

impl View for StructField {
    type V = StructFieldView;

    open spec fn view(&self) -> StructFieldView {
        StructFieldView {
            name: self.name@,
            description: text_view(self.description),
            type_: self.type_@,
            required: self.required,
            is_array: self.is_array,
        }
    }
}

impl View for Struct {
    type V = StructView;

    open spec fn view(&self) -> StructView {
        StructView {
            name: self.name@,
            description: text_view(self.description),
            fields: self.fields@.map_values(|f: StructField| f@),
        }
    }
}

} // verus!
