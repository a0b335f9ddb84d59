//! Rendering declarations through text templates.
//!
//! A declaration is handed to the template engine as a tree of template
//! variables. The tree is built here, key by key; what the engine makes of a
//! template and a tree is the engine's business and is only named.
use vstd::prelude::*;
use vstd::string::*;
use crate::error::{Error, ErrorView};
use crate::mapping::Target;
use crate::text::text_view;
use crate::types::{
    Enum, EnumVariant, EnumVariantView, EnumView, Struct, StructField, StructFieldType,
    StructFieldTypeView, StructFieldView, StructView,
};

verus! {

/// The template of a TypeScript enumeration.
pub const TYPESCRIPT_ENUM_TEMPLATE: &'static str = r#"
{{#if description}}
/** 
 * {{description}}
 */
{{/if}}
export enum {{name}} {
    {{#each variants}}
    {{name}}{{#if value}} = "{{value
    }}"{{/if}},
    {{/each}}
}
"#;

/// The template of a TypeScript interface.
pub const TYPESCRIPT_STRUCT_TEMPLATE: &'static str = r#"
{{#if description}}
/** 
 * {{description}}
 */
{{/if}}
export interface {{name}} {
    {{#each fields}}
    {{#if description}}
    /// {{description}}
    {{/if}}
    {{#if is_array}}
    {{name}}: Array<{{type_.Value}}{{type_.Ref}}{{#unless required}} | undefined{{/unless}}>;
    {{else}}
    {{name}}{{#unless required}}?{{/unless}}: {{type_.Value}}{{type_.Ref}}{{#if is_array}}[]{{/if}};
    {{/if}}
    {{/each}}
}
"#;

/// The template of a Rust enumeration. A variant whose name does not
/// reproduce its literal is renamed to the literal on the wire.
pub const RUST_ENUM_TEMPLATE: &'static str = r#"
{{#if description}}
/// {{description}}
{{/if}}
pub enum {{name}} {
    {{#each variants}}
    {{#if value}}
    #[serde(rename = "{{value}}")]
    {{/if}}
    {{name}},
    {{/each}}
}
"#;

/// The template of a Rust struct. A field that refers to another declared
/// type holds it in a box, so that records may refer to each other.
pub const RUST_STRUCT_TEMPLATE: &'static str = r#"
{{#if description}}
/// {{description}}
{{/if}}
pub struct {{name}} {
    {{#each fields}}
    {{#if description}}
    /// {{description}}
    {{/if}}
    {{#if is_array}}
    pub {{name}}: {{#unless required}}Option<{{/unless}}Vec<{{type_.Value}}{{type_.Ref}}>{{#unless required}}>{{/unless}},
    {{else}}
    pub {{name}}: {{#unless required}}Option<{{/unless}}{{type_.Value}}{{#if type_.Ref}}Box<{{type_.Ref}}>{{/if}}{{#unless required}}>{{/unless}},
    {{/if}}
    {{/each}}
}
"#;

/// `handlebars::RenderError`, the error of the template engine. It is
/// carried through and never looked into.
#[verifier::external_type_specification]
#[verifier::external_body]
pub struct ExRenderError(handlebars::RenderError);

/// `serde_json::Value`, the form in which the template engine takes its
/// variables. What a value holds is named by `json_content`.
#[verifier::external_type_specification]
#[verifier::external_body]
pub struct ExValue(serde_json::Value);

/// A tree of template variables, as the template engine reads it.
pub enum TemplateData {
    Null,
    Flag(bool),
    /// A number, by its decimal text. No declaration holds one.
    Number(Seq<char>),
    Text(Seq<char>),
    List(Seq<TemplateData>),
    Record(Map<Seq<char>, TemplateData>),
}

/// The tree that a JSON value holds.
pub uninterp spec fn json_content(value: serde_json::Value) -> TemplateData;

/// What the template engine makes of a built-in template and a tree of
/// variables: the rendered text, or the engine's error.
pub uninterp spec fn template_output(source: Seq<char>, data: TemplateData) -> Result<
    Seq<char>,
    handlebars::RenderError,
>;

/// Whether `source` is one of the templates built into this library.
pub open spec fn is_builtin_template(source: Seq<char>) -> bool {
    ||| source == TYPESCRIPT_ENUM_TEMPLATE@
    ||| source == TYPESCRIPT_STRUCT_TEMPLATE@
    ||| source == RUST_ENUM_TEMPLATE@
    ||| source == RUST_STRUCT_TEMPLATE@
}

/// The record that a list of keyed values makes: each key bound to the tree
/// of its value.
pub open spec fn record_of(entries: Seq<(String, serde_json::Value)>) -> Map<
    Seq<char>,
    TemplateData,
>
    decreases entries.len(),
{
    if entries.len() == 0 {
        Map::empty()
    } else {
        record_of(entries.drop_last()).insert(entries.last().0@, json_content(entries.last().1))
    }
}

/// Whether no key occurs twice in `entries`.
pub open spec fn keys_distinct(entries: Seq<(String, serde_json::Value)>) -> bool {
    forall|i: int, j: int|
        0 <= i < j < entries.len() ==> (#[trigger] entries[i]).0@ != (#[trigger] entries[j]).0@
}

/// `serde_json::Value::Null`, the JSON value `null`.
#[verifier::external_body]
fn json_null() -> (value: serde_json::Value)
    ensures
        json_content(value) == TemplateData::Null,
{
    serde_json::Value::Null
}

/// `serde_json::Value::Bool`, the JSON value of a boolean.
#[verifier::external_body]
fn json_flag(flag: bool) -> (value: serde_json::Value)
    ensures
        json_content(value) == TemplateData::Flag(flag),
{
    serde_json::Value::Bool(flag)
}

/// `serde_json::Value::String`, the JSON string that holds the characters
/// of `text`.
#[verifier::external_body]
fn json_text(text: &str) -> (value: serde_json::Value)
    ensures
        json_content(value) == TemplateData::Text(text@),
{
    serde_json::Value::String(text.to_owned())
}

/// `serde_json::Value::Array`, the JSON array of `items` in their order.
#[verifier::external_body]
fn json_list(items: Vec<serde_json::Value>) -> (value: serde_json::Value)
    ensures
        json_content(value) == TemplateData::List(
            items@.map_values(|item: serde_json::Value| json_content(item)),
        ),
{
    serde_json::Value::Array(items)
}

/// `serde_json::Value::Object` of the `serde_json::Map` collected from
/// `entries`: the JSON object that binds each key to its value. The keys must
/// differ, since which of two equal keys a collected map keeps is not
/// documented.
#[verifier::external_body]
fn json_record(entries: Vec<(String, serde_json::Value)>) -> (value: serde_json::Value)
    requires
        keys_distinct(entries@),
    ensures
        json_content(value) == TemplateData::Record(record_of(entries@)),
{
    serde_json::Value::Object(entries.into_iter().collect())
}

/// `Handlebars::render_template` of `handlebars`, on a registry fresh from
/// `Handlebars::new`, with the default helpers and escaping. For a built-in
/// template the outcome depends on the template and on what the data holds,
/// and on nothing else; `template_output` names it.
#[verifier::external_body]
fn render_template(source: &str, data: &serde_json::Value) -> (result: Result<
    String,
    handlebars::RenderError,
>)
    requires
        is_builtin_template(source@),
    ensures
        match result {
            Ok(text) => template_output(source@, json_content(*data)) == Ok::<
                Seq<char>,
                handlebars::RenderError,
            >(text@),
            Err(error) => template_output(source@, json_content(*data)) == Err::<
                Seq<char>,
                handlebars::RenderError,
            >(error),
        },
{
    handlebars::Handlebars::new().render_template(source, data)
}

/// A key is bound in the record of `entries` exactly where an entry has it.
pub proof fn lemma_record_keys(entries: Seq<(String, serde_json::Value)>, key: Seq<char>)
    ensures
        record_of(entries).dom().contains(key) <==> exists|i: int|
            0 <= i < entries.len() && (#[trigger] entries[i]).0@ == key,
    decreases entries.len(),
{
    if entries.len() > 0 {
        let shorter = entries.drop_last();
        lemma_record_keys(shorter, key);
        if record_of(entries).dom().contains(key) {
            if entries.last().0@ == key {
                assert(entries[entries.len() - 1].0@ == key);
            } else {
                let i = choose|i: int| 0 <= i < shorter.len() && (#[trigger] shorter[i]).0@ == key;
                assert(entries[i].0@ == key);
            }
        }
        if exists|i: int| 0 <= i < entries.len() && (#[trigger] entries[i]).0@ == key {
            let i = choose|i: int| 0 <= i < entries.len() && (#[trigger] entries[i]).0@ == key;
            if i < shorter.len() {
                assert(shorter[i].0@ == key);
            }
        }
    }
}

/// Binds `key` to `value` at the end of `entries`.
fn put(entries: &mut Vec<(String, serde_json::Value)>, key: &str, value: serde_json::Value)
    requires
        keys_distinct(old(entries)@),
        !record_of(old(entries)@).dom().contains(key@),
    ensures
        keys_distinct(final(entries)@),
        record_of(final(entries)@) == record_of(old(entries)@).insert(
            key@,
            json_content(value),
        ),
{
    let ghost before = entries@;
    entries.push((String::from_str(key), value));
    proof {
        assert(entries@.drop_last() =~= before);
        lemma_record_keys(before, key@);
        assert forall|i: int, j: int| 0 <= i < j < entries@.len() implies (#[trigger] entries@[i]).0@
            != (#[trigger] entries@[j]).0@ by {
            if j < before.len() {
                assert(before[i].0@ != before[j].0@);
            } else {
                assert(before[i].0@ != key@);
            }
        }
    }
}

/// The variable that an optional text becomes: the text, or null.
pub open spec fn optional_text_data(text: Option<Seq<char>>) -> TemplateData {
    match text {
        Some(t) => TemplateData::Text(t),
        None => TemplateData::Null,
    }
}

/// The variables of a variant: its `name`, and its `value` or null.
pub open spec fn variant_data(variant: EnumVariantView) -> TemplateData {
    TemplateData::Record(
        Map::empty().insert("name"@, TemplateData::Text(variant.name)).insert(
            "value"@,
            optional_text_data(variant.value),
        ),
    )
}

/// The variables of an enumeration: its `name`, its `description` or null,
/// and its `variants` in order.
pub open spec fn enum_data(declaration: EnumView) -> TemplateData {
    TemplateData::Record(
        Map::empty().insert("name"@, TemplateData::Text(declaration.name)).insert(
            "description"@,
            optional_text_data(declaration.description),
        ).insert(
            "variants"@,
            TemplateData::List(
                declaration.variants.map_values(|variant: EnumVariantView| variant_data(variant)),
            ),
        ),
    )
}

/// The variables of a field type: the type name under `Value` or under
/// `Ref`, and nothing under the other.
pub open spec fn field_type_data(type_: StructFieldTypeView) -> TemplateData {
    match type_ {
        StructFieldTypeView::Value(name) => TemplateData::Record(
            Map::empty().insert("Value"@, TemplateData::Text(name)),
        ),
        StructFieldTypeView::Ref(name) => TemplateData::Record(
            Map::empty().insert("Ref"@, TemplateData::Text(name)),
        ),
    }
}

/// The variables of a field: its `name`, its `description` or null, its
/// `type_`, and the flags `required` and `is_array`.
pub open spec fn field_data(field: StructFieldView) -> TemplateData {
    TemplateData::Record(
        Map::empty().insert("name"@, TemplateData::Text(field.name)).insert(
            "description"@,
            optional_text_data(field.description),
        ).insert("type_"@, field_type_data(field.type_)).insert(
            "required"@,
            TemplateData::Flag(field.required),
        ).insert("is_array"@, TemplateData::Flag(field.is_array)),
    )
}

/// The variables of a record: its `name`, its `description` or null, and
/// its `fields` in order.
pub open spec fn struct_data(declaration: StructView) -> TemplateData {
    TemplateData::Record(
        Map::empty().insert("name"@, TemplateData::Text(declaration.name)).insert(
            "description"@,
            optional_text_data(declaration.description),
        ).insert(
            "fields"@,
            TemplateData::List(
                declaration.fields.map_values(|field: StructFieldView| field_data(field)),
            ),
        ),
    )
}

/// The keys of template variables differ from each other.
proof fn lemma_keys_differ()
    ensures
        "name"@ != "value"@,
        "name"@ != "description"@,
        "name"@ != "variants"@,
        "description"@ != "variants"@,
        "name"@ != "fields"@,
        "description"@ != "fields"@,
        "name"@ != "type_"@,
        "description"@ != "type_"@,
        "name"@ != "required"@,
        "description"@ != "required"@,
        "type_"@ != "required"@,
        "name"@ != "is_array"@,
        "description"@ != "is_array"@,
        "type_"@ != "is_array"@,
        "required"@ != "is_array"@,
{
    reveal_strlit("name");
    reveal_strlit("value");
    reveal_strlit("description");
    reveal_strlit("variants");
    reveal_strlit("fields");
    reveal_strlit("type_");
    reveal_strlit("required");
    reveal_strlit("is_array");
    assert("name"@.len() == 4);
    assert("value"@.len() == 5);
    assert("description"@.len() == 11);
    assert("variants"@.len() == 8);
    assert("fields"@.len() == 6);
    assert("type_"@.len() == 5);
    assert("required"@.len() == 8 && "required"@[0] == 'r');
    assert("is_array"@.len() == 8 && "is_array"@[0] == 'i');
}

/// The JSON value of an optional text.
fn optional_text_json(text: &Option<String>) -> (value: serde_json::Value)
    ensures
        json_content(value) == optional_text_data(text_view(*text)),
{
    match text {
        Some(t) => json_text(t.as_str()),
        None => json_null(),
    }
}

/// The JSON value of a variant.
fn variant_json(variant: &EnumVariant) -> (value: serde_json::Value)
    ensures
        json_content(value) == variant_data(variant@),
{
    let mut entries: Vec<(String, serde_json::Value)> = Vec::new();
    proof {
        lemma_keys_differ();
    }
    put(&mut entries, "name", json_text(variant.name.as_str()));
    put(&mut entries, "value", optional_text_json(&variant.value));
    json_record(entries)
}

/// The JSON value of an enumeration.
fn enum_json(declaration: &Enum) -> (value: serde_json::Value)
    ensures
        json_content(value) == enum_data(declaration@),
{
    let mut variants: Vec<serde_json::Value> = Vec::new();
    let mut i: usize = 0;
    while i < declaration.variants.len()
        invariant
            i <= declaration.variants.len(),
            variants@.len() == i,
            forall|j: int|
                0 <= j < i ==> json_content(#[trigger] variants@[j]) == variant_data(
                    declaration.variants@[j]@,
                ),
        decreases declaration.variants.len() - i,
    {
        variants.push(variant_json(&declaration.variants[i]));
        i += 1;
    }
    proof {
        lemma_keys_differ();
        assert(variants@.map_values(|item: serde_json::Value| json_content(item))
            =~= declaration@.variants.map_values(
            |variant: EnumVariantView| variant_data(variant),
        ));
    }
    let mut entries: Vec<(String, serde_json::Value)> = Vec::new();
    put(&mut entries, "name", json_text(declaration.name.as_str()));
    put(&mut entries, "description", optional_text_json(&declaration.description));
    put(&mut entries, "variants", json_list(variants));
    json_record(entries)
}

/// The JSON value of a field type.
fn field_type_json(type_: &StructFieldType) -> (value: serde_json::Value)
    ensures
        json_content(value) == field_type_data(type_@),
{
    let mut entries: Vec<(String, serde_json::Value)> = Vec::new();
    match type_ {
        StructFieldType::Value(name) => {
            put(&mut entries, "Value", json_text(name.as_str()));
        },
        StructFieldType::Ref(name) => {
            put(&mut entries, "Ref", json_text(name.as_str()));
        },
    }
    json_record(entries)
}

/// The JSON value of a field.
fn field_json(field: &StructField) -> (value: serde_json::Value)
    ensures
        json_content(value) == field_data(field@),
{
    let mut entries: Vec<(String, serde_json::Value)> = Vec::new();
    proof {
        lemma_keys_differ();
    }
    put(&mut entries, "name", json_text(field.name.as_str()));
    put(&mut entries, "description", optional_text_json(&field.description));
    put(&mut entries, "type_", field_type_json(&field.type_));
    put(&mut entries, "required", json_flag(field.required));
    put(&mut entries, "is_array", json_flag(field.is_array));
    json_record(entries)
}

/// The JSON value of a record.
fn struct_json(declaration: &Struct) -> (value: serde_json::Value)
    ensures
        json_content(value) == struct_data(declaration@),
{
    let mut fields: Vec<serde_json::Value> = Vec::new();
    let mut i: usize = 0;
    while i < declaration.fields.len()
        invariant
            i <= declaration.fields.len(),
            fields@.len() == i,
            forall|j: int|
                0 <= j < i ==> json_content(#[trigger] fields@[j]) == field_data(
                    declaration.fields@[j]@,
                ),
        decreases declaration.fields.len() - i,
    {
        fields.push(field_json(&declaration.fields[i]));
        i += 1;
    }
    proof {
        lemma_keys_differ();
        assert(fields@.map_values(|item: serde_json::Value| json_content(item))
            =~= declaration@.fields.map_values(|field: StructFieldView| field_data(field)));
    }
    let mut entries: Vec<(String, serde_json::Value)> = Vec::new();
    put(&mut entries, "name", json_text(declaration.name.as_str()));
    put(&mut entries, "description", optional_text_json(&declaration.description));
    put(&mut entries, "fields", json_list(fields));
    json_record(entries)
}

/// What rendering gives: the text that the engine makes of the template and
/// the variables, or the engine's error as a render error.
pub open spec fn rendered(source: Seq<char>, data: TemplateData) -> Result<Seq<char>, ErrorView> {
    match template_output(source, data) {
        Ok(text) => Ok(text),
        Err(error) => Err(ErrorView::Render(error)),
    }
}

/// Passes the text of the template engine on, and its error as a render
/// error.
pub fn forward_render_result(outcome: Result<String, handlebars::RenderError>) -> (result: Result<
    String,
    Error,
>)
    ensures
        match outcome {
            Ok(text) => result matches Ok(out) && out@ == text@,
            Err(error) => result matches Err(out) && out@ == ErrorView::Render(error),
        },
{
    match outcome {
        Ok(text) => Ok(text),
        Err(error) => Err(Error::Render(error)),
    }
}

/// The templates of one target language.
pub struct Templates {
    target: Target,
}

/// The template that enumerations of `target` are rendered through.
pub open spec fn enum_template(target: Target) -> Seq<char> {
    match target {
        Target::TypeScript => TYPESCRIPT_ENUM_TEMPLATE@,
        Target::Rust => RUST_ENUM_TEMPLATE@,
    }
}

/// The template that records of `target` are rendered through.
pub open spec fn struct_template(target: Target) -> Seq<char> {
    match target {
        Target::TypeScript => TYPESCRIPT_STRUCT_TEMPLATE@,
        Target::Rust => RUST_STRUCT_TEMPLATE@,
    }
}

impl Templates {
    /// The target language of the templates.
    pub closed spec fn spec_target(&self) -> Target {
        self.target
    }

    /// The target language of the templates.
    #[verifier::when_used_as_spec(spec_target)]
    pub fn target(&self) -> (target: Target)
        ensures
            target == self.target(),
    {
        self.target
    }

    /// The TypeScript templates.
    pub fn new() -> (templates: Self)
        ensures
            templates.target() == Target::TypeScript,
    {
        Templates { target: Target::TypeScript }
    }

    /// The templates of `target`.
    pub fn for_target(target: Target) -> (templates: Self)
        ensures
            templates.target() == target,
    {
        Templates { target }
    }

    /// Renders the declaration of an enumeration.
    pub fn render_enum_template(&self, e: &Enum) -> (result: Result<String, Error>)
        ensures
            match rendered(enum_template(self.target()), enum_data(e@)) {
                Ok(text) => result matches Ok(out) && out@ == text,
                Err(error) => result matches Err(out) && out@ == error,
            },
    {
        let source: &str = match self.target {
            Target::TypeScript => TYPESCRIPT_ENUM_TEMPLATE,
            Target::Rust => RUST_ENUM_TEMPLATE,
        };
        let data = enum_json(e);
        forward_render_result(render_template(source, &data))
    }

    /// Renders the declaration of a record. A record without fields renders
    /// as a declaration with an empty body.
    pub fn render_struct_template(&self, s: &Struct) -> (result: Result<String, Error>)
        ensures
            match rendered(struct_template(self.target()), struct_data(s@)) {
                Ok(text) => result matches Ok(out) && out@ == text,
                Err(error) => result matches Err(out) && out@ == error,
            },
    {
        let source: &str = match self.target {
            Target::TypeScript => TYPESCRIPT_STRUCT_TEMPLATE,
            Target::Rust => RUST_STRUCT_TEMPLATE,
        };
        let data = struct_json(s);
        forward_render_result(render_template(source, &data))
    }
}

} // verus!
