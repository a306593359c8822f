use oneline_template::document::Document;
use oneline_template::functions::booleans;
use oneline_template::functions::debugging;
use oneline_template::functions::signed;
use oneline_template::functions::strings;
use oneline_template::functions::unsigned;
use oneline_template::function_executor::function_error::SpecFunctionError;
use oneline_template::function_executor::function_schema::SpecSchema;
use oneline_template::function_executor::value::SpecValue;
use oneline_template::function_executor::{FunctionError, FunctionExecutor, FunctionSchema, Value};
use oneline_template::functions::BuiltinExecutor;
use oneline_template::template::{Template, TemplateBuilder};

fn assert_ok(format: &str, value: &Document, expected: &str) {
    let template = Template::parse(format).expect("Unable to create template");
    let value = template.render(value).expect("Unable to get value formatted by template");
    assert_eq!(value, expected);
}

fn assert_template_ok(format: &str) {
    let template = Template::parse(format);
    assert!(template.is_ok());
}

fn assert_template_err(format: &str, expected: &str) {
    let template = Template::parse(format);
    let error = match template {
        Ok(_) => panic!("template unexpectedly built"),
        Err(error) => error,
    };
    assert_eq!(error.message(), expected);
}

/// A formatter for floats, implemented outside the verified core because
/// it interprets the carried bits.
struct FloatToString;

enum TestExecutor {
    Builtin(BuiltinExecutor),
    Float(FloatToString),
}

impl FunctionExecutor for TestExecutor {
    fn spec_schema(&self) -> SpecSchema {
        unreachable!()
    }

    fn spec_call(
        &self,
        _input: SpecValue,
        _args: vstd::seq::Seq<SpecValue>,
    ) -> Result<SpecValue, SpecFunctionError> {
        unreachable!()
    }

    fn schema(&self) -> FunctionSchema {
        match self {
            TestExecutor::Builtin(f) => f.schema(),
            TestExecutor::Float(_) => FunctionSchema::new("float:to_string".to_string()),
        }
    }

    fn call(&self, input: Value, arguments: &[Value]) -> Result<Value, FunctionError> {
        match self {
            TestExecutor::Builtin(f) => f.call(input, arguments),
            TestExecutor::Float(_) => match input.as_float() {
                Ok(bits) => Ok(Value::String(format!("{}", f64::from_bits(*bits)))),
                Err(e) => Err(e),
            },
        }
    }
}

fn assert_ok_with_float(format: &str, value: &Document, expected: &str) {
    let builder = TemplateBuilder::new_empty()
        .with_function(TestExecutor::Builtin(BuiltinExecutor::BoolToString(booleans::ToString)))
        .with_function(TestExecutor::Builtin(BuiltinExecutor::BoolUnwrapOr(booleans::UnwrapOr)))
        .with_function(TestExecutor::Builtin(BuiltinExecutor::DebugType(debugging::DebugType)))
        .with_function(TestExecutor::Builtin(BuiltinExecutor::IntAbs(signed::Abs)))
        .with_function(TestExecutor::Builtin(BuiltinExecutor::IntHex(signed::Hex)))
        .with_function(TestExecutor::Builtin(BuiltinExecutor::IntHexFmt(signed::HexFmt)))
        .with_function(TestExecutor::Builtin(BuiltinExecutor::IntToString(signed::ToString)))
        .with_function(TestExecutor::Builtin(BuiltinExecutor::StringTrim(strings::Trim)))
        .with_function(TestExecutor::Builtin(BuiltinExecutor::StringTrimStart(strings::TrimStart)))
        .with_function(TestExecutor::Builtin(BuiltinExecutor::StringTrimEnd(strings::TrimEnd)))
        .with_function(TestExecutor::Builtin(BuiltinExecutor::StringSubStr(strings::SubStr)))
        .with_function(TestExecutor::Builtin(BuiltinExecutor::StringUnwrapOr(strings::UnwrapOr)))
        .with_function(TestExecutor::Builtin(BuiltinExecutor::UIntHex(unsigned::Hex)))
        .with_function(TestExecutor::Builtin(BuiltinExecutor::UIntHexFmt(unsigned::HexFmt)))
        .with_function(TestExecutor::Builtin(BuiltinExecutor::UIntToString(unsigned::ToString)))
        .with_function(TestExecutor::Float(FloatToString));
    let template = builder.build(format).expect("Unable to create template");
    let value = template.render(value).expect("Unable to get value formatted by template");
    assert_eq!(value, expected);
}

fn entry(key: &str, value: Document) -> (Document, Document) {
    (Document::String(key.to_string()), value)
}

fn create_object() -> Document {
    let third = Document::Mapping(vec![
        entry("str_value", Document::String("str_value".to_string())),
        entry("string_value", Document::String("string_value".to_string())),
        entry("bool_value", Document::Bool(false)),
        entry(
            "bytes_value",
            Document::Bytes(vec![
                0x48, 0x65, 0x6c, 0x6c, 0x6f, 0x2c, 0x20, 0x77, 0x6f, 0x72, 0x6c, 0x64, 0x21,
            ]),
        ),
        entry("char_value", Document::Char('c')),
        entry("uint_value", Document::UInt(99)),
        entry("int_value", Document::Int(-55)),
        entry("float_value", Document::Float(42.5f64.to_bits())),
    ]);
    let second = Document::Mapping(vec![entry("third", third)]);
    Document::Mapping(vec![entry("second", second)])
}

#[test]
fn test_parser_ok() {
    let object = create_object();
    assert_ok("{self.second.third.str_value}", &object, "str_value");
    assert_ok("{self.second.third.string_value}", &object, "string_value");
    assert_ok("{self.second.third.bool_value|bool:to_string()}", &object, "false");
    assert_ok("{self.second.third.bytes_value}", &object, "Hello, world!");
    assert_ok("{self.second.third.char_value}", &object, "c");
    assert_ok("{self.second.third.uint_value}", &object, "99");
    assert_ok("{self.second.third.int_value}", &object, "-55");
    assert_ok_with_float("{self.second.third.float_value|float:to_string()}", &object, "42.5");
}

#[test]
fn test_parser_ok_with_spaces() {
    let object = create_object();
    assert_ok("{ self.second.third.str_value }", &object, "str_value");
    assert_ok("{ self.second.third.string_value }", &object, "string_value");
    assert_ok("{ self.second.third.bool_value|bool:to_string() }", &object, "false");
    assert_ok("{ self.second.third.bytes_value }", &object, "Hello, world!");
    assert_ok("{ self.second.third.char_value }", &object, "c");
    assert_ok("{ self.second.third.uint_value }", &object, "99");
    assert_ok("{ self.second.third.int_value }", &object, "-55");
    assert_ok_with_float("{ self.second.third.float_value|float:to_string() }", &object, "42.5");
}

#[test]
fn test_parser_err_field_1() {
    assert_template_err("{}", "Unexpected input `}`");
    assert_template_err("{ }", "Unexpected input `}`");
}

#[test]
fn test_parser_err_field_2() {
    assert_template_err(
        "{ self .second.third.str_value }",
        "Expected token `}` in `.second.third.str_value }`",
    );
    assert_template_err("{ self. second.third.str_value }", "Wrong field name");
    assert_template_err(
        "{ self.second .third.str_value }",
        "Expected token `}` in `.third.str_value }`",
    );
    assert_template_err("{ self.second. third.str_value }", "Wrong field name");
    assert_template_err(
        "{ self.second.third .str_value }",
        "Expected token `}` in `.str_value }`",
    );
    assert_template_err("{ self.second.third. str_value }", "Wrong field name");
}

#[test]
fn test_parser_err_field_3() {
    assert_template_err(
        "{self#second.third.str_value}",
        "Expected token `}` in `#second.third.str_value}`",
    );
    assert_template_err(
        "{self.second#third.str_value}",
        "Expected token `}` in `#third.str_value}`",
    );
    assert_template_err(
        "{self.second.third#str_value}",
        "Expected token `}` in `#str_value}`",
    );
    assert_template_err("{self.second.third.str_value#}", "Expected token `}` in `#}`");
}

#[test]
fn test_parser_err_process_1() {
    assert_template_err("{self.second.third.str_value |}", "Wrong function name");
    assert_template_err("{self.second.third.str_value | }", "Wrong function name");
    assert_template_err("{self.second.third.str_value | @}", "Wrong function name");
    assert_template_err("{self.second.third.str_value | (}", "Wrong function name");
    assert_template_err("{self.second.third.str_value | ()}", "Wrong function name");
}

#[test]
fn test_parser_err_process_2() {
    assert_template_err(
        "{self.second.third.str_value | uint:to_string}",
        "Expected token `(` in `}`",
    );
    assert_template_err(
        "{self.second.third.str_value | uint:to_string }",
        "Expected token `(` in `}`",
    );
    assert_template_err(
        "{self.second.third.str_value | uint:to_string( }",
        "Invalid argument `` in input `}`",
    );
    assert_template_err(
        "{self.second.third.str_value | uint:to_string ( }",
        "Invalid argument `` in input `}`",
    );
    assert_template_ok("{self.second.third.str_value | uint:to_string()}");
    assert_template_ok("{self.second.third.str_value | uint:to_string () }");
    assert_template_ok("{self.second.third.str_value | uint:to_string ( ) }");
}

#[test]
fn test_parser_err_process_3() {
    assert_template_err(
        "{self.second.third.str_value | uint:to_string() | uint:to_string}",
        "Expected token `(` in `}`",
    );
    assert_template_err(
        "{self.second.third.str_value | uint:to_string() | uint:to_string }",
        "Expected token `(` in `}`",
    );
    assert_template_err(
        "{self.second.third.str_value | uint:to_string() | uint:to_string( }",
        "Invalid argument `` in input `}`",
    );
    assert_template_err(
        "{self.second.third.str_value | uint:to_string() | uint:to_string ( }",
        "Invalid argument `` in input `}`",
    );
    assert_template_ok("{self.second.third.str_value | uint:to_string() | uint:to_string()}");
    assert_template_ok("{self.second.third.str_value | uint:to_string() | uint:to_string () }");
    assert_template_ok("{self.second.third.str_value | uint:to_string() | uint:to_string ( ) }");
}

#[test]
fn test_parser_argument() {
    assert_template_ok("{self.second.third.str_value | uint:hex_fmt(50uint) }");
    assert_template_err(
        "{self.second.third.str_value | uint:hex_fmt(50int) }",
        "Argument with index `0` at function `uint:hex_fmt` has wrong type",
    );
    assert_template_ok("{self.second.third.str_value | string:unwrap_or('default_value') }");
    assert_template_ok("{self.second.third.str_value | string:unwrap_or('default_\\'value') }");
    assert_template_ok("{self.second.third.str_value | bool:unwrap_or(true) }");
    assert_template_ok("{self.second.third.str_value | bool:unwrap_or(false) }");
}

#[test]
fn test_parser_empty_template() {
    assert_template_err("", "Template is empty");
}

#[test]
fn test_parser_literal_only() {
    let object = create_object();
    assert_ok("plain text, no expressions", &object, "plain text, no expressions");
}

#[test]
fn test_parser_text_around_expression() {
    let object = create_object();
    assert_ok("a={self.second.third.uint_value}!", &object, "a=99!");
    assert_ok(
        "{self.second.third.uint_value}{self.second.third.int_value}",
        &object,
        "99-55",
    );
}

#[test]
fn test_parser_unknown_function() {
    assert_template_err(
        "{self|string:reverse()}",
        "Function with name `string:reverse` not found",
    );
}

#[test]
fn test_parser_arity_mismatch() {
    assert_template_err(
        "{self|string:substr(1uint)}",
        "Into function `string:substr` passed arguments with wrong length",
    );
}

#[test]
fn test_parser_numeric_literal_errors() {
    assert_template_err(
        "{self|uint:hex_fmt(-5uint)}",
        "invalid digit found in string",
    );
    assert_template_err(
        "{self|uint:hex_fmt(99999999999999999999999999999999999999999uint)}",
        "number too large to fit in target type",
    );
    assert_template_err("{self|uint:hex_fmt(5)}", "Invalid argument `5` in input `)}`");
}

#[test]
fn test_parser_deterministic() {
    let object = create_object();
    let format = "{ self.second.third.str_value }|{self.second.third.uint_value}";
    let first = Template::parse(format)
        .expect("Unable to create template")
        .render(&object)
        .expect("Unable to render");
    let second = Template::parse(format)
        .expect("Unable to create template")
        .render(&object)
        .expect("Unable to render");
    assert_eq!(first, second);
    assert_eq!(first, "str_value|99");
}

#[test]
fn test_parser_indexed_path() {
    let items = Document::Sequence(vec![
        Document::String("zero".to_string()),
        Document::String("one".to_string()),
    ]);
    let object = Document::Mapping(vec![entry("items", items)]);
    assert_ok("{self.items.1}", &object, "one");
    assert_template_ok("{self.items.7}");
    let template = Template::parse("{self.items.7}").expect("Unable to create template");
    let error = template.render(&object).expect_err("render unexpectedly succeeded");
    assert_eq!(error.message(), "Path not found: `items.7`");
}

#[test]
fn test_parser_numeric_map_key() {
    let object = Document::Mapping(vec![(
        Document::UInt(3),
        Document::String("third".to_string()),
    )]);
    assert_ok("{self.3}", &object, "third");
}

#[test]
fn test_parser_path_shape_errors() {
    let object = Document::Mapping(vec![
        entry("xs", Document::Sequence(vec![Document::UInt(300)])),
        entry("m", Document::Mapping(vec![])),
    ]);
    let template = Template::parse("{self.xs}").expect("Unable to create template");
    let error = template.render(&object).expect_err("render unexpectedly succeeded");
    assert_eq!(error.message(), "Path `xs` contains sequence");
    let template = Template::parse("{self.m}").expect("Unable to create template");
    let error = template.render(&object).expect_err("render unexpectedly succeeded");
    assert_eq!(error.message(), "Path `m` contains map");
}

#[test]
fn test_parser_byte_sequence_renders_as_text() {
    let object = Document::Mapping(vec![entry(
        "bs",
        Document::Sequence(vec![Document::Byte(0x68), Document::Byte(0x69)]),
    )]);
    assert_ok("{self.bs}", &object, "hi");
}

#[test]
fn test_parser_invalid_utf8_bytes() {
    let object = Document::Bytes(vec![0xff]);
    let template = Template::parse("{self}").expect("Unable to create template");
    let error = template.render(&object).expect_err("render unexpectedly succeeded");
    assert_eq!(
        error.message(),
        "Error while converting vec to string: invalid utf-8 sequence of 1 bytes from index 0",
    );
}

#[test]
fn test_parser_escaped_quote_argument() {
    let object = Document::Option(None);
    assert_ok("{self|string:unwrap_or('a\\'b')}", &object, "a'b");
}
