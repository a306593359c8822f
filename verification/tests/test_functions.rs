use oneline_template::document::Document;
use oneline_template::function_executor::function_error::SpecFunctionError;
use oneline_template::function_executor::function_schema::SpecSchema;
use oneline_template::function_executor::value::SpecValue;
use oneline_template::function_executor::{
    FunctionArgument, FunctionError, FunctionExecutor, FunctionSchema, Value,
};
use oneline_template::functions::BuiltinExecutor;
use oneline_template::template::{Template, TemplateBuilder};

fn assert_ok(format: &str, value: &Document, expected: &str) {
    let template = Template::parse(format).expect("Unable to create template");
    let value = template.render(value).expect("Unable to get value formatted by template");
    assert_eq!(value, expected);
}

fn assert_err(format: &str, value: &Document, expected: &str) {
    let template = Template::parse(format).expect("Unable to create template");
    let error = template.render(value).expect_err("render unexpectedly succeeded");
    assert_eq!(error.message(), expected);
}

/// A formatter for floats, implemented outside the verified core because
/// it interprets the carried bits.
struct FloatFormatter;

impl FunctionExecutor for FloatFormatter {
    fn spec_schema(&self) -> SpecSchema {
        unreachable!()
    }

    fn spec_call(
        &self,
        _input: SpecValue,
        _args: vstd::seq::Seq<SpecValue>,
    ) -> Result<SpecValue, SpecFunctionError> {
        unreachable!()
    }

    fn schema(&self) -> FunctionSchema {
        FunctionSchema::new("float:to_string".to_string())
    }

    fn call(&self, input: Value, _arguments: &[Value]) -> Result<Value, FunctionError> {
        match input.as_float() {
            Ok(bits) => Ok(Value::String(format!("{}", f64::from_bits(*bits)))),
            Err(e) => Err(e),
        }
    }
}

fn assert_float_fn_ok(format: &str, value: &Document, expected: &str) {
    let builder = TemplateBuilder::new_empty().with_function(FloatFormatter);
    let template = builder.build(format).expect("Unable to create template");
    let rendered = template.render(value).expect("Unable to get value formatted by template");
    assert_eq!(rendered, expected);
}

#[test]
fn test_bool() {
    assert_err("{self}", &Document::Bool(true), "Convertation bool to string is not supported");
    assert_err("{self}", &Document::Bool(false), "Convertation bool to string is not supported");
}

#[test]
fn test_func_bool_to_string() {
    assert_ok("{self|bool:to_string()}", &Document::Bool(true), "true");
    assert_ok("{self|bool:to_string()}", &Document::Bool(false), "false");
}

#[test]
fn test_func_bool_unwrap_or() {
    let value = Document::Option(None);
    assert_ok("{self|bool:unwrap_or(true)|bool:to_string()}", &value, "true");
}

#[test]
fn test_float() {
    assert_err(
        "{self}",
        &Document::Float((0.5f32 as f64).to_bits()),
        "Convertation float to string is not supported",
    );
    assert_err(
        "{self}",
        &Document::Float(0.5f64.to_bits()),
        "Convertation float to string is not supported",
    );
}

#[test]
fn test_func_float_to_string() {
    assert_float_fn_ok("{self|float:to_string()}", &Document::Float((0.5f32 as f64).to_bits()), "0.5");
    assert_float_fn_ok("{self|float:to_string()}", &Document::Float(0.5f64.to_bits()), "0.5");
}

#[test]
fn test_int() {
    assert_ok("{self}", &Document::Int(-5), "-5");
    assert_ok("{self}", &Document::Int(5), "5");
}

#[test]
fn test_func_int_abs() {
    assert_ok("{self|int:abs()}", &Document::Int(-5), "5");
    assert_ok("{self|int:abs()}", &Document::Int(5), "5");
}

#[test]
fn test_func_int_hex() {
    assert_ok("{self|int:hex()}", &Document::Int(-5), "fffffffffffffffffffffffffffffffb");
    assert_ok("{self|int:hex()}", &Document::Int(5), "5");
}

#[test]
fn test_func_int_hex_fmt() {
    assert_ok(
        "{self|int:hex_fmt(100uint)}",
        &Document::Int(-5),
        "00000000000000000000000000000000000000000000000000000000000000000000fffffffffffffffffffffffffffffffb",
    );
    assert_ok(
        "{self|int:hex_fmt(100uint)}",
        &Document::Int(5),
        "0000000000000000000000000000000000000000000000000000000000000000000000000000000000000000000000000005",
    );
}

#[test]
fn test_func_int_to_string() {
    assert_ok("{self|int:to_string()}", &Document::Int(5), "5");
    assert_ok("{self|int:to_string()}", &Document::Int(-5), "-5");
}

#[test]
fn test_string() {
    let value = Document::String("abc".to_string());
    assert_ok("{self}", &value, "abc");
}

#[test]
fn test_func_string_substr() {
    let value = Document::String("2020-12-01".to_string());
    assert_ok("{self|string:substr(0uint, 4uint)|string:unwrap_or('----')}", &value, "2020");
    assert_ok("{self|string:substr(5uint, 2uint)|string:unwrap_or('--')}", &value, "12");
    assert_ok("{self|string:substr(100uint, 0uint)|string:unwrap_or('--')}", &value, "--");
    assert_ok("{self|string:substr(100uint, 0uint)|string:unwrap_or('-\\'-')}", &value, "-'-");
}

#[test]
fn test_func_string_trim() {
    let value = Document::String("\t 2020-12-01\t ".to_string());
    assert_ok("{self|string:trim()}", &value, "2020-12-01");
}

#[test]
fn test_func_string_trim_end() {
    let value = Document::String("\t 2020-12-01\t ".to_string());
    assert_ok("{self|string:trim_end()}", &value, "\t 2020-12-01");
}

#[test]
fn test_func_string_trim_start() {
    let value = Document::String("\t 2020-12-01\t ".to_string());
    assert_ok("{self|string:trim_start()}", &value, "2020-12-01\t ");
}

#[test]
fn test_uint() {
    assert_ok("{self}", &Document::UInt(5), "5");
}

#[test]
fn test_func_uint_hex() {
    assert_err("{self|uint:hex()}", &Document::Int(-5), "Trying to cast Int(-5) as uint");
    assert_err("{self|uint:hex()}", &Document::Int(5), "Trying to cast Int(5) as uint");
    assert_ok("{self|uint:hex()}", &Document::UInt(5), "5");
}

#[test]
fn test_func_uint_hex_fmt() {
    assert_err("{self|uint:hex_fmt(100uint)}", &Document::Int(-5), "Trying to cast Int(-5) as uint");
    assert_err("{self|uint:hex_fmt(100uint)}", &Document::Int(5), "Trying to cast Int(5) as uint");
    assert_ok(
        "{self|uint:hex_fmt(100uint)}",
        &Document::UInt(5),
        "0000000000000000000000000000000000000000000000000000000000000000000000000000000000000000000000000005",
    );
}

#[test]
fn test_func_uint_to_string() {
    assert_err("{self|uint:to_string()}", &Document::Int(5), "Trying to cast Int(5) as uint");
    assert_err("{self|uint:to_string()}", &Document::Int(-5), "Trying to cast Int(-5) as uint");
    assert_ok("{self|uint:to_string()}", &Document::UInt(5), "5");
}

#[test]
fn test_func_debug_type() {
    assert_ok("{self|debug:type()}", &Document::String("abc".to_string()), "String");
    assert_ok("{self|debug:type()}", &Document::Bool(true), "Bool");
    assert_ok("{self|debug:type()}", &Document::Bytes(vec![1u8]), "Bytes");
    assert_ok("{self|debug:type()}", &Document::Char('a'), "Char");
    assert_ok("{self|debug:type()}", &Document::Option(None), "Option<..>");
    let value = Document::Option(Some(Box::new(Document::String("abc".to_string()))));
    assert_ok("{self|debug:type()}", &value, "Option<String>");
    assert_ok("{self|debug:type()}", &Document::UInt(5), "UInt");
    assert_ok("{self|debug:type()}", &Document::Int(5), "Int");
    assert_ok("{self|debug:type()}", &Document::Float(35.0f64.to_bits()), "Float");
}

#[test]
fn test_char_renders_directly() {
    assert_ok("{self}", &Document::Char('x'), "x");
}

#[test]
fn test_option_refused_without_unwrap() {
    let value = Document::Option(Some(Box::new(Document::String("abc".to_string()))));
    assert_err("{self}", &value, "Convertation option to string is not supported");
}

#[test]
fn test_func_string_unwrap_or_present() {
    let value = Document::Option(Some(Box::new(Document::String("kept".to_string()))));
    assert_ok("{self|string:unwrap_or('lost')}", &value, "kept");
}

#[test]
fn test_int_extremes() {
    assert_ok(
        "{self}",
        &Document::Int(i128::MIN),
        "-170141183460469231731687303715884105728",
    );
    assert_ok(
        "{self}",
        &Document::UInt(u128::MAX),
        "340282366920938463463374607431768211455",
    );
    assert_ok(
        "{self|int:abs()}",
        &Document::Int(i128::MIN),
        "170141183460469231731687303715884105728",
    );
}

#[test]
fn test_byte_widens_to_uint() {
    assert_ok("{self}", &Document::Byte(200), "200");
    assert_ok("{self|debug:type()}", &Document::Byte(200), "UInt");
}

#[test]
fn test_null_and_unassigned_are_absent() {
    assert_err("{self}", &Document::Null, "Path not found: ``");
    assert_err("{self}", &Document::Unassigned, "Path not found: ``");
}

#[test]
fn test_cast_error_names_string_value() {
    assert_err(
        "{self|int:abs()}",
        &Document::String("abc".to_string()),
        "Trying to cast String(\"abc\") as int",
    );
}

/// An executor answering to one fixed name with a fixed result, for
/// observing which of two same-name registrations a lookup finds.
struct Fixed(&'static str);

impl FunctionExecutor for Fixed {
    fn spec_schema(&self) -> SpecSchema {
        unreachable!()
    }

    fn spec_call(
        &self,
        _input: SpecValue,
        _args: vstd::seq::Seq<SpecValue>,
    ) -> Result<SpecValue, SpecFunctionError> {
        unreachable!()
    }

    fn schema(&self) -> FunctionSchema {
        FunctionSchema::new("fixed:value".to_string())
    }

    fn call(&self, _input: Value, _arguments: &[Value]) -> Result<Value, FunctionError> {
        Ok(Value::String(self.0.to_string()))
    }
}

#[test]
fn test_registry_last_registration_wins() {
    let builder = TemplateBuilder::new_empty()
        .with_function(Fixed("first"))
        .with_function(Fixed("second"));
    let template = builder.build("{self|fixed:value()}").expect("Unable to create template");
    let rendered = template.render(&Document::UInt(0)).expect("Unable to render");
    assert_eq!(rendered, "second");
}

#[test]
fn test_registry_missing_name_is_build_error() {
    let builder: TemplateBuilder<BuiltinExecutor> = TemplateBuilder::new_empty();
    let template = builder.build("{self|uint:to_string()}");
    let error = match template {
        Ok(_) => panic!("template unexpectedly built"),
        Err(error) => error,
    };
    assert_eq!(error.message(), "Function with name `uint:to_string` not found");
}

#[test]
fn test_schema_reports_name_and_arguments() {
    let schema = FunctionSchema::new("custom:pick".to_string())
        .with_argument(FunctionArgument::uint())
        .with_argument(FunctionArgument::string());
    assert_eq!(schema.get_function_name().as_str(), "custom:pick");
    assert_eq!(schema.get_arguments().len(), 2);
}

#[test]
fn test_value_debug_strings() {
    assert_eq!(Value::Int(-5).debug_string(), "Int(-5)");
    assert_eq!(Value::UInt(7).debug_string(), "UInt(7)");
    assert_eq!(Value::Bool(true).debug_string(), "Bool(true)");
    assert_eq!(Value::String("a\"b".to_string()).debug_string(), "String(\"a\\\"b\")");
    assert_eq!(Value::Bytes(vec![1, 2, 3]).debug_string(), "Bytes([1, 2, 3])");
    assert_eq!(Value::Char('c').debug_string(), "Char('c')");
    assert_eq!(
        Value::Option(Some(Box::new(Value::Int(-5)))).debug_string(),
        "Option(Some(Int(-5)))",
    );
    assert_eq!(Value::Option(None).debug_string(), "Option(None)");
}

#[test]
fn test_value_accessors_are_tag_exact() {
    assert_eq!(*Value::UInt(9).as_uint().expect("uint expected"), 9);
    let error = Value::Int(-5).as_uint().expect_err("cast unexpectedly succeeded");
    assert_eq!(error.message(), "Trying to cast Int(-5) as uint");
    let error = Value::UInt(5).as_int().expect_err("cast unexpectedly succeeded");
    assert_eq!(error.message(), "Trying to cast UInt(5) as int");
}

#[test]
fn test_unsupported_node_shapes() {
    let newtype = Document::Newtype(Box::new(Document::UInt(1)));
    assert_err("{self}", &newtype, "Path `` contains unknown type");
    assert_err("{self}", &Document::Other, "Path `` contains unknown type");
    assert_err("{self}", &Document::ErrorValue, "Path `` contains unknown error type");
}

#[test]
fn test_nested_option_type_name() {
    let value = Document::Option(Some(Box::new(Document::Option(Some(Box::new(
        Document::String("deep".to_string()),
    ))))));
    assert_ok("{self|debug:type()}", &value, "Option<Option<String>>");
}

#[test]
fn test_option_of_null_is_absent() {
    let value = Document::Option(Some(Box::new(Document::Null)));
    assert_err("{self}", &value, "Path not found: ``");
}
