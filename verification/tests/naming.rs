use apigen_codegen::naming::{
    begins_numeric, escape_leading_digit, prefix_leading_digit, to_field_name, to_type_name,
    CaseStyle,
};
use apigen_codegen::text::str_equal;

#[test]
fn type_names_are_upper_camel() {
    assert_eq!(to_type_name("test"), "Test");
    assert_eq!(to_type_name("TEST"), "Test");
    assert_eq!(to_type_name("Test-Test"), "TestTest");
    assert_eq!(to_type_name("test test"), "TestTest");
    assert_eq!(to_type_name("test_test"), "TestTest");
    assert_eq!(to_type_name("testTest"), "TestTest");
    assert_eq!(to_type_name("HTTPServer"), "HttpServer");
}

#[test]
fn type_names_escape_a_leading_digit() {
    let name = to_type_name("1test");
    assert!(name.starts_with("_1_"));
    assert_eq!(name, "_1_Test");
    assert_eq!(to_type_name("42"), "_4_2");
    assert_eq!(to_type_name("7"), "_7_");
    assert_eq!(to_type_name("_1test"), "_1_Test");
    assert_eq!(to_type_name("-9 lives"), "_9_Lives");
}

#[test]
fn type_names_escape_a_leading_numeric_beyond_ascii() {
    assert_eq!(to_type_name("\u{0663}x"), "_\u{0663}_x");
    assert_eq!(to_type_name("\u{2460}x"), "_\u{2460}_x");
}

#[test]
fn type_names_of_nothing_are_empty() {
    assert_eq!(to_type_name(""), "");
    assert_eq!(to_type_name("---"), "");
}

#[test]
fn field_names_are_camel_for_typescript() {
    assert_eq!(to_field_name("test", CaseStyle::Camel), "test");
    assert_eq!(to_field_name("test-test", CaseStyle::Camel), "testTest");
    assert_eq!(to_field_name("test test", CaseStyle::Camel), "testTest");
    assert_eq!(to_field_name("Test_Test", CaseStyle::Camel), "testTest");
}

#[test]
fn field_names_are_snake_for_rust() {
    assert_eq!(to_field_name("test", CaseStyle::Snake), "test");
    assert_eq!(to_field_name("test-test", CaseStyle::Snake), "test_test");
    assert_eq!(to_field_name("testTest", CaseStyle::Snake), "test_test");
    assert_eq!(to_field_name("Test Test", CaseStyle::Snake), "test_test");
}

#[test]
fn field_names_are_prefixed_before_the_casing() {
    assert_eq!(prefix_leading_digit("1test"), "_1test");
    assert_eq!(to_field_name("1test", CaseStyle::Camel), "1Test");
    assert_eq!(to_field_name("1test", CaseStyle::Snake), "1_test");
    assert_eq!(to_field_name("1test", CaseStyle::UpperCamel), "1Test");
}

#[test]
fn normalized_names_stay_as_they_are() {
    for raw in ["test", "TEST", "Test-Test", "test test", "1test", "user_name", "HTTPServer"] {
        let once = to_type_name(raw);
        assert_eq!(to_type_name(&once), once);
        for style in [CaseStyle::Camel, CaseStyle::Snake] {
            let field = to_field_name(raw, style);
            assert_eq!(to_field_name(&field, style), field);
        }
    }
}

#[test]
fn normalizing_gives_the_same_name_each_time() {
    for raw in ["", "x", "1", "some name", "Some-Name", "some_name_2"] {
        assert_eq!(to_type_name(raw), to_type_name(raw));
        assert_eq!(to_field_name(raw, CaseStyle::Camel), to_field_name(raw, CaseStyle::Camel));
        assert_eq!(to_field_name(raw, CaseStyle::Snake), to_field_name(raw, CaseStyle::Snake));
    }
}

#[test]
fn a_lower_upper_pair_settles_on_the_second_pass() {
    assert_eq!(to_type_name("aB"), "AB");
    assert_eq!(to_type_name("AB"), "Ab");
    assert_eq!(to_type_name("Ab"), "Ab");
}

#[test]
fn escape_leading_digit_sets_the_digit_off() {
    assert_eq!(escape_leading_digit("1Test"), "_1_Test");
    assert_eq!(escape_leading_digit("9"), "_9_");
    assert_eq!(escape_leading_digit("12"), "_1_2");
    assert_eq!(escape_leading_digit("\u{0663}\u{00e9}t\u{00e9}"), "_\u{0663}_\u{00e9}t\u{00e9}");
}

#[test]
fn escape_leading_digit_leaves_other_names() {
    assert_eq!(escape_leading_digit("Test"), "Test");
    assert_eq!(escape_leading_digit("T1"), "T1");
    assert_eq!(escape_leading_digit(""), "");
    assert_eq!(escape_leading_digit("_1_Test"), "_1_Test");
    assert_eq!(escape_leading_digit("\u{00e9}1"), "\u{00e9}1");
}

#[test]
fn escape_leading_digit_twice_is_once() {
    for cased in ["1Test", "Test", "", "_", "0", "00"] {
        let once = escape_leading_digit(cased);
        assert_eq!(escape_leading_digit(&once), once);
        assert!(!begins_numeric(&once));
    }
}

#[test]
fn prefix_leading_digit_adds_one_underscore() {
    assert_eq!(prefix_leading_digit("1test"), "_1test");
    assert_eq!(prefix_leading_digit("0"), "_0");
    assert_eq!(prefix_leading_digit("test1"), "test1");
    assert_eq!(prefix_leading_digit(""), "");
    assert_eq!(prefix_leading_digit("_1test"), "_1test");
    let once = prefix_leading_digit("5 stars");
    assert_eq!(prefix_leading_digit(&once), once);
}

#[test]
fn begins_numeric_reads_the_first_character() {
    for digit in ["0", "1x", "9 lives", "5", "\u{0663}", "\u{2460}x"] {
        assert!(begins_numeric(digit));
    }
    for other in ["", "a1", "_1", " 1", "-1", "/", ":", "K", "\u{00e9}", "\u{4e09}"] {
        assert!(!begins_numeric(other));
    }
}

#[test]
fn str_equal_compares_characters() {
    assert!(str_equal("", ""));
    assert!(str_equal("int32", "int32"));
    assert!(str_equal("na\u{00ef}ve", "na\u{00ef}ve"));
    assert!(!str_equal("int32", "int64"));
    assert!(!str_equal("int32", "int3"));
    assert!(!str_equal("int3", "int32"));
    assert!(!str_equal("", "a"));
    assert!(!str_equal("Int32", "int32"));
    assert!(!str_equal("e\u{0301}", "\u{00e9}"));
}
