use apigen_codegen::codegen::CodegenImpl;
use apigen_codegen::error::Error;
use apigen_codegen::mapping::{map_primitive, Target};
use apigen_codegen::schema::{Number, ObjectOrReference, Property, Schema, SchemaType};

fn empty_schema() -> Schema {
    Schema::default()
}

fn typed(schema_type: SchemaType) -> ObjectOrReference {
    ObjectOrReference::Object(Schema { schema_type: Some(schema_type), ..empty_schema() })
}

fn property(name: &str, schema: ObjectOrReference) -> Property {
    Property { name: name.to_string(), schema }
}

#[test]
fn test_map_oas3_to_output_type_number() {
    let schema_type = SchemaType::Integer;
    let format = None;
    let min_value = None;
    assert_eq!(
        CodegenImpl::new()
            .map_oas3_to_output_type(schema_type, format, &min_value)
            .unwrap(),
        "number"
    );
}

#[test]
fn map_oas3_to_output_type_string_test() {
    let schema_type = SchemaType::String;
    let format = None;
    let min_value = None;
    assert_eq!(
        CodegenImpl::new()
            .map_oas3_to_output_type(schema_type, format, &min_value)
            .unwrap(),
        "String"
    );
}

#[test]
fn map_oas3_to_output_type_bool_test() {
    let schema_type = SchemaType::Boolean;
    let format = None;
    let min_value = None;
    assert_eq!(
        CodegenImpl::new()
            .map_oas3_to_output_type(schema_type, format, &min_value)
            .unwrap(),
        "bool"
    );
}

#[test]
fn map_oas3_to_output_type_array_test() {
    let schema_type = SchemaType::Array;
    let format = None;
    let min_value = None;
    assert_eq!(
        CodegenImpl::new()
            .map_oas3_to_output_type(schema_type, format, &min_value)
            .unwrap(),
        "Array"
    );
}

#[test]
fn str_to_enum_variant_test() {
    assert_eq!(CodegenImpl::new().str_to_enum_variant("test"), "Test");
    assert_eq!(CodegenImpl::new().str_to_enum_variant("TEST"), "Test");
    assert_eq!(
        CodegenImpl::new().str_to_enum_variant("Test-Test"),
        "TestTest"
    );
    assert_eq!(
        CodegenImpl::new().str_to_enum_variant("test test"),
        "TestTest"
    );
    assert_eq!(CodegenImpl::new().str_to_enum_variant("1test"), "_1_Test");
}

#[test]
fn str_to_variable_name_test() {
    assert_eq!(CodegenImpl::new().str_to_variable_name("test"), "test");
    assert_eq!(
        CodegenImpl::new().str_to_variable_name("test-test"),
        "testTest"
    );
    assert_eq!(
        CodegenImpl::new().str_to_variable_name("test test"),
        "testTest"
    );
}

#[test]
fn typescript_numbers_ignore_format_and_minimum() {
    let mut codegen = CodegenImpl::new();
    let zero = Some(Number::Unsigned(0));
    assert_eq!(
        codegen.map_oas3_to_output_type(SchemaType::Integer, Some("int64"), &zero).unwrap(),
        "number"
    );
    assert_eq!(
        codegen.map_oas3_to_output_type(SchemaType::Number, Some("float"), &None).unwrap(),
        "number"
    );
    assert_eq!(
        codegen.map_oas3_to_output_type(SchemaType::Number, None, &None).unwrap(),
        "number"
    );
}

#[test]
fn rust_integers_follow_format_and_minimum() {
    let mut codegen = CodegenImpl::for_target(Target::Rust);
    let zero = Some(Number::Unsigned(0));
    let int = SchemaType::Integer;
    assert_eq!(codegen.map_oas3_to_output_type(int, Some("int32"), &None).unwrap(), "i32");
    assert_eq!(codegen.map_oas3_to_output_type(int, Some("int32"), &zero).unwrap(), "u32");
    assert_eq!(codegen.map_oas3_to_output_type(int, Some("int64"), &None).unwrap(), "i64");
    assert_eq!(codegen.map_oas3_to_output_type(int, Some("int64"), &zero).unwrap(), "u64");
    assert_eq!(codegen.map_oas3_to_output_type(int, None, &None).unwrap(), "i32");
    assert_eq!(codegen.map_oas3_to_output_type(int, None, &zero).unwrap(), "u32");
}

#[test]
fn rust_floats_follow_format() {
    let mut codegen = CodegenImpl::for_target(Target::Rust);
    let number = SchemaType::Number;
    assert_eq!(codegen.map_oas3_to_output_type(number, Some("float"), &None).unwrap(), "f32");
    assert_eq!(codegen.map_oas3_to_output_type(number, Some("double"), &None).unwrap(), "f64");
    assert_eq!(codegen.map_oas3_to_output_type(number, None, &None).unwrap(), "f64");
}

#[test]
fn rust_unrecognized_formats_take_the_default_width() {
    let zero = Some(Number::Signed(0));
    assert_eq!(
        map_primitive(Target::Rust, SchemaType::Integer, Some("int16"), &None).unwrap(),
        "i32"
    );
    assert_eq!(
        map_primitive(Target::Rust, SchemaType::Integer, Some("INT64"), &zero).unwrap(),
        "u32"
    );
    assert_eq!(
        map_primitive(Target::Rust, SchemaType::Integer, Some("int64 "), &None).unwrap(),
        "i32"
    );
    assert_eq!(
        map_primitive(Target::Rust, SchemaType::Number, Some("int32"), &None).unwrap(),
        "f64"
    );
    assert_eq!(
        map_primitive(Target::Rust, SchemaType::Number, Some("floats"), &None).unwrap(),
        "f64"
    );
}

#[test]
fn rust_minimum_other_than_zero_is_signed() {
    let int = SchemaType::Integer;
    for minimum in [
        Number::Unsigned(1),
        Number::Signed(-1),
        Number::Signed(1),
        Number::Float { bits: 0x3ff0_0000_0000_0000 },
        Number::Float { bits: 1 },
    ] {
        assert_eq!(
            map_primitive(Target::Rust, int, Some("int32"), &Some(minimum)).unwrap(),
            "i32"
        );
        assert_eq!(
            map_primitive(Target::Rust, int, Some("int64"), &Some(minimum)).unwrap(),
            "i64"
        );
    }
}

#[test]
fn rust_minimum_zero_of_any_form_is_unsigned() {
    let int = SchemaType::Integer;
    for minimum in [
        Number::Unsigned(0),
        Number::Signed(0),
        Number::Float { bits: 0 },
        Number::Float { bits: 0x8000_0000_0000_0000 },
    ] {
        assert_eq!(
            map_primitive(Target::Rust, int, Some("int32"), &Some(minimum)).unwrap(),
            "u32"
        );
        assert_eq!(
            map_primitive(Target::Rust, int, Some("int64"), &Some(minimum)).unwrap(),
            "u64"
        );
    }
}

#[test]
fn number_zero_reads_integers_and_float_bits() {
    assert!(Number::Unsigned(0).zero());
    assert!(Number::Signed(0).zero());
    assert!(Number::Float { bits: 0 }.zero());
    assert!(Number::Float { bits: 0x8000_0000_0000_0000 }.zero());
    assert!(!Number::Unsigned(7).zero());
    assert!(!Number::Signed(-7).zero());
    assert!(!Number::Float { bits: 0x3fe0_0000_0000_0000 }.zero());
}

#[test]
fn rust_text_flag_and_sequence_types() {
    assert_eq!(map_primitive(Target::Rust, SchemaType::String, None, &None).unwrap(), "String");
    assert_eq!(map_primitive(Target::Rust, SchemaType::Boolean, None, &None).unwrap(), "bool");
    assert_eq!(map_primitive(Target::Rust, SchemaType::Array, None, &None).unwrap(), "Vec");
}

#[test]
fn unsupported_tags_fail_for_every_target() {
    for target in [Target::TypeScript, Target::Rust] {
        for tag in [SchemaType::Object, SchemaType::Null] {
            match map_primitive(target, tag, Some("int32"), &Some(Number::Unsigned(0))) {
                Err(Error::UnsupportedSchemaType { schema_type, property }) => {
                    assert_eq!(schema_type, tag);
                    assert_eq!(property, None);
                }
                other => panic!("expected an unsupported type, got {:?}", other),
            }
        }
    }
}

#[test]
fn field_names_follow_the_target() {
    assert_eq!(CodegenImpl::new().str_to_variable_name("user name"), "userName");
    assert_eq!(
        CodegenImpl::for_target(Target::Rust).str_to_variable_name("user name"),
        "user_name"
    );
    assert_eq!(
        CodegenImpl::for_target(Target::Rust).str_to_variable_name("userName"),
        "user_name"
    );
    assert_eq!(
        CodegenImpl::for_target(Target::Rust).str_to_enum_variant("user name"),
        "UserName"
    );
}

#[test]
fn parse_struct_or_enum_renders_an_enumeration() {
    let schema = ObjectOrReference::Object(Schema {
        schema_type: Some(SchemaType::String),
        enum_values: vec!["red".to_string(), "dark-green".to_string(), "Blue".to_string()],
        ..empty_schema()
    });
    let name = "color".to_string();
    let text = CodegenImpl::new().parse_struct_or_enum((&name, &schema)).unwrap();
    assert_eq!(
        text,
        "\nexport enum Color {\n    Red = \"red\",\n    DarkGreen = \"dark-green\",\n    Blue,\n}\n"
    );
}

#[test]
fn parse_struct_or_enum_renders_a_record() {
    let schema = ObjectOrReference::Object(Schema {
        description: Some("A point".to_string()),
        schema_type: Some(SchemaType::Object),
        properties: vec![
            property("x", typed(SchemaType::Integer)),
            property("label-text", typed(SchemaType::String)),
        ],
        required: vec!["x".to_string()],
        ..empty_schema()
    });
    let name = "point".to_string();
    let text = CodegenImpl::new().parse_struct_or_enum((&name, &schema)).unwrap();
    assert_eq!(
        text,
        "\n/** \n * A point\n */\nexport interface Point {\n    x: number;\n    labelText?: String;\n}\n"
    );
}

#[test]
fn parse_struct_or_enum_renders_a_record_without_properties() {
    let schema = ObjectOrReference::Object(empty_schema());
    let name = "Empty".to_string();
    assert_eq!(
        CodegenImpl::new().parse_struct_or_enum((&name, &schema)).unwrap(),
        "\nexport interface Empty {\n}\n"
    );
    assert_eq!(
        CodegenImpl::for_target(Target::Rust).parse_struct_or_enum((&name, &schema)).unwrap(),
        "\npub struct Empty {\n}\n"
    );
}

#[test]
fn parse_struct_or_enum_rejects_a_bare_reference() {
    let schema = ObjectOrReference::Ref { ref_path: "#/components/schemas/Pet".to_string() };
    let name = "Alias".to_string();
    let mut codegen = CodegenImpl::new();
    match codegen.parse_struct_or_enum((&name, &schema)) {
        Err(Error::MalformedSchema { name }) => assert_eq!(name, "Alias"),
        other => panic!("expected a malformed schema, got {:?}", other),
    }
    match codegen.parse_struct(&name, &schema) {
        Err(Error::MalformedSchema { name }) => assert_eq!(name, "Alias"),
        other => panic!("expected a malformed schema, got {:?}", other),
    }
    match codegen.parse_enum((&name, &schema)) {
        Err(Error::MalformedSchema { name }) => assert_eq!(name, "Alias"),
        other => panic!("expected a malformed schema, got {:?}", other),
    }
}

#[test]
fn parse_struct_or_enum_passes_a_build_failure_on() {
    let schema = ObjectOrReference::Object(Schema {
        properties: vec![
            property("fine", typed(SchemaType::Boolean)),
            property("nested", typed(SchemaType::Object)),
        ],
        ..empty_schema()
    });
    let name = "Holder".to_string();
    match CodegenImpl::new().parse_struct_or_enum((&name, &schema)) {
        Err(Error::UnsupportedSchemaType { schema_type, property }) => {
            assert_eq!(schema_type, SchemaType::Object);
            assert_eq!(property, Some("nested".to_string()));
        }
        other => panic!("expected an unsupported type, got {:?}", other),
    }
}

#[test]
fn generate_tries_each_schema_on_its_own() {
    let schemas = vec![
        (
            "status".to_string(),
            ObjectOrReference::Object(Schema {
                enum_values: vec!["Active".to_string()],
                ..empty_schema()
            }),
        ),
        (
            "broken".to_string(),
            ObjectOrReference::Ref { ref_path: "#/components/schemas/Status".to_string() },
        ),
        (
            "holder".to_string(),
            ObjectOrReference::Object(Schema {
                properties: vec![property(
                    "status",
                    ObjectOrReference::Ref {
                        ref_path: "#/components/schemas/status".to_string(),
                    },
                )],
                ..empty_schema()
            }),
        ),
    ];
    let results = CodegenImpl::new().generate(&schemas);
    assert_eq!(results.len(), 3);
    assert_eq!(results[0].as_ref().unwrap(), "\nexport enum Status {\n    Active,\n}\n");
    assert!(matches!(&results[1], Err(Error::MalformedSchema { name }) if name == "broken"));
    assert_eq!(
        results[2].as_ref().unwrap(),
        "\nexport interface Holder {\n    status?: Status;\n}\n"
    );
}

#[test]
fn generate_of_nothing_is_nothing() {
    assert!(CodegenImpl::new().generate(&vec![]).is_empty());
}
