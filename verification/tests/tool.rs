use clust_macros::adapter::{ExecutionMode, ReturnShape, Returned, ToolAdapter};
use clust_macros::capability::{
    parse_int, parse_magnitude, parse_text, parse_unsigned, render_int, render_unsigned, Value,
    ValueType,
};
use clust_macros::docs::{extract_docs, read_item};
use clust_macros::model::{
    find_entry, find_input, InputEntry, TextEntry, ToolCallError, ToolDefinition, ToolOutcome,
    ToolResult, ToolUse,
};
use clust_macros::signature::{
    analyze_return, generate, validate_parameters, validate_return, CapabilityError, FunctionDecl,
    ParameterDecl, ReturnText,
};
use std::cell::Cell;

fn lines(text: &[&str]) -> Vec<String> {
    text.iter().map(|l| l.to_string()).collect()
}

fn incrementer_decl(suspends: bool) -> FunctionDecl {
    FunctionDecl {
        name: "incrementer".to_string(),
        doc_lines: lines(&[
            " Increments the argument by 1.",
            "",
            " ## Arguments",
            " - `value` - Target value.",
        ]),
        params: vec![ParameterDecl::new("value", "i32")],
        return_type: "i32".to_string(),
        suspends,
    }
}

fn increment(args: Vec<Value>) -> Returned {
    match &args[0] {
        Value::Int(v) => Returned::Plain(Value::Int(v + 1)),
        _ => unreachable!(),
    }
}

fn divider_decl() -> FunctionDecl {
    FunctionDecl {
        name: "divide".to_string(),
        doc_lines: lines(&[" Divides.", " # Parameters:", " * `a` - Dividend", " * `b` - Divisor"]),
        params: vec![ParameterDecl::new("a", "i64"), ParameterDecl::new("b", "i64")],
        return_type: "Result<i64, String>".to_string(),
        suspends: false,
    }
}

fn divide(args: Vec<Value>) -> Returned {
    match (&args[0], &args[1]) {
        (Value::Int(_), Value::Int(0)) => {
            Returned::Failed(Value::Text("division by zero".to_string()))
        }
        (Value::Int(a), Value::Int(b)) => Returned::Succeeded(Value::Int(a / b)),
        _ => unreachable!(),
    }
}

#[test]
fn incrementer_descriptor_is_exact() {
    let tool = generate(&incrementer_decl(false)).unwrap();
    let expected = "<tool_description>\n  <tool_name>incrementer</tool_name>\n  <description>Increments the argument by 1.</description>\n  <parameters>\n    <parameter>\n      <name>value</name>\n      <type>i32</type>\n      <description>Target value.</description>\n    </parameter>\n  </parameters>\n</tool_description>";
    assert_eq!(tool.description(), expected);
    assert_eq!(tool.mode, ExecutionMode::Immediate);
    assert_eq!(tool.shape, ReturnShape::Plain(ValueType::I32));
    assert_eq!(tool.types, vec![ValueType::I32]);
}

#[test]
fn incrementer_call_adds_one() {
    let tool = generate(&incrementer_decl(false)).unwrap();
    let tool_use = ToolUse::new("toolu_1", "incrementer", vec![InputEntry::text("value", "42")]);
    let result = tool.call(&tool_use, increment).unwrap();
    assert_eq!(result.tool_use_id, "toolu_1");
    assert_eq!(result.outcome, ToolOutcome::Success("43".to_string()));
    assert_eq!(
        result.render("incrementer"),
        "<function_results>\n  <result>\n    <tool_name>incrementer</tool_name>\n    <stdout>43</stdout>\n  </result>\n</function_results>"
    );
}

#[test]
fn description_renders_the_same_text_again() {
    let tool = generate(&divider_decl()).unwrap();
    assert_eq!(tool.description(), tool.description());
    assert_eq!(tool.definition.render(), tool.definition.clone().render());
}

#[test]
fn parameters_keep_declaration_order() {
    let tool = generate(&divider_decl()).unwrap();
    let names: Vec<&str> = tool.definition.parameters.iter().map(|p| p.name.as_str()).collect();
    assert_eq!(names, vec!["a", "b"]);
    let text = tool.description();
    assert!(text.find("<name>a</name>").unwrap() < text.find("<name>b</name>").unwrap());
    assert_eq!(tool.definition.parameters[0].description, "Dividend");
    assert_eq!(tool.definition.parameters[1].description, "Divisor");
}

#[test]
fn no_parameters_gives_empty_block_and_call_succeeds() {
    let decl = FunctionDecl {
        name: "ping".to_string(),
        doc_lines: vec![],
        params: vec![],
        return_type: "String".to_string(),
        suspends: false,
    };
    let tool = generate(&decl).unwrap();
    assert_eq!(
        tool.description(),
        "<tool_description>\n  <tool_name>ping</tool_name>\n  <description></description>\n  <parameters></parameters>\n</tool_description>"
    );
    let tool_use = ToolUse::new("id", "ping", vec![]);
    let result = tool
        .call(&tool_use, |_args: Vec<Value>| Returned::Plain(Value::Text("pong".to_string())))
        .unwrap();
    assert_eq!(result.outcome, ToolOutcome::Success("pong".to_string()));
}

#[test]
fn missing_parameter_is_reported_and_nothing_runs() {
    let tool = generate(&incrementer_decl(false)).unwrap();
    let calls = Cell::new(0u32);
    let tool_use = ToolUse::new("id", "incrementer", vec![InputEntry::text("other", "1")]);
    let result = tool.call(&tool_use, |args: Vec<Value>| {
        calls.set(calls.get() + 1);
        increment(args)
    });
    assert_eq!(result, Err(ToolCallError::ParameterMissing("value".to_string())));
    assert_eq!(calls.get(), 0);
}

#[test]
fn unparsable_value_names_parameter_and_raw_text() {
    let tool = generate(&incrementer_decl(false)).unwrap();
    let calls = Cell::new(0u32);
    let tool_use = ToolUse::new("id", "incrementer", vec![InputEntry::text("value", "abc")]);
    let result = tool.call(&tool_use, |args: Vec<Value>| {
        calls.set(calls.get() + 1);
        increment(args)
    });
    assert_eq!(
        result,
        Err(ToolCallError::ParameterConversionFailed(
            "value".to_string(),
            "abc".to_string(),
            "invalid digit found in string".to_string()
        ))
    );
    assert_eq!(calls.get(), 0);
    let error = result.unwrap_err();
    assert_eq!(
        error.message(),
        "cannot convert parameter value from `abc`: invalid digit found in string"
    );
    let answer = ToolResult::from_error(&tool_use, &error);
    assert_eq!(answer.tool_use_id, "id");
    assert_eq!(answer.outcome, ToolOutcome::Failure(error.message()));
}

#[test]
fn first_bad_parameter_decides() {
    let tool = generate(&divider_decl()).unwrap();
    let tool_use = ToolUse::new("id", "divide", vec![InputEntry::text("b", "x")]);
    assert_eq!(
        tool.prepare_call(&tool_use),
        Err(ToolCallError::ParameterMissing("a".to_string()))
    );
    let tool_use = ToolUse::new(
        "id",
        "divide",
        vec![InputEntry::text("b", "x"), InputEntry::text("a", "y")],
    );
    assert_eq!(
        tool.prepare_call(&tool_use),
        Err(ToolCallError::ParameterConversionFailed(
            "a".to_string(),
            "y".to_string(),
            "invalid digit found in string".to_string()
        ))
    );
}

#[test]
fn name_mismatch_is_an_error() {
    let tool = generate(&incrementer_decl(false)).unwrap();
    let tool_use = ToolUse::new("id", "decrementer", vec![InputEntry::text("value", "42")]);
    let result = tool.call(&tool_use, increment);
    assert_eq!(result, Err(ToolCallError::NameMismatch));
    assert_eq!(ToolCallError::NameMismatch.message(), "tool name mismatch");
    assert_eq!(
        ToolCallError::ParameterMissing("value".to_string()).message(),
        "missing parameter: value"
    );
}

#[test]
fn function_failure_becomes_failure_text() {
    let tool = generate(&divider_decl()).unwrap();
    assert_eq!(tool.shape, ReturnShape::Outcome(ValueType::I64, ValueType::Text));
    let tool_use = ToolUse::new(
        "t9",
        "divide",
        vec![InputEntry::text("a", "7"), InputEntry::text("b", "0")],
    );
    let result = tool.call(&tool_use, divide).unwrap();
    assert_eq!(result.outcome, ToolOutcome::Failure("division by zero".to_string()));
    assert_eq!(
        result.render("divide"),
        "<function_results>\n  <result>\n    <tool_name>divide</tool_name>\n    <stderr>division by zero</stderr>\n  </result>\n</function_results>"
    );
    let tool_use = ToolUse::new(
        "t9",
        "divide",
        vec![InputEntry::text("b", "-2"), InputEntry::text("a", "7")],
    );
    let result = tool.call(&tool_use, divide).unwrap();
    assert_eq!(result.outcome, ToolOutcome::Success("-3".to_string()));
}

#[test]
fn suspending_tool_prepares_and_completes_like_immediate() {
    let immediate = generate(&incrementer_decl(false)).unwrap();
    let suspending = generate(&incrementer_decl(true)).unwrap();
    assert_eq!(suspending.mode, ExecutionMode::Suspending);
    let tool_use = ToolUse::new("id", "incrementer", vec![InputEntry::text("value", "42")]);
    let direct = immediate.call(&tool_use, increment).unwrap();
    let args = suspending.prepare_call(&tool_use).unwrap();
    let later = ToolResult::complete(&tool_use, &increment(args));
    assert_eq!(direct, later);
    assert_eq!(immediate.description(), suspending.description());
}

#[test]
fn docs_without_heading_have_no_arguments() {
    let info = extract_docs(&lines(&[" First line.", " Second line.  "]));
    assert_eq!(info.description, "First line.\n Second line.");
    assert!(info.arg_docs.is_empty());
    let info = extract_docs(&vec![]);
    assert_eq!(info.description, "");
    assert!(info.arg_docs.is_empty());
}

#[test]
fn docs_after_the_arguments_block_are_ignored() {
    let info = extract_docs(&lines(&[
        " Does things.",
        " # Arguments",
        " free prose is passed over",
        " - `a` - First",
        " - `b c` - Not a single name",
        " - b - No backticks",
        " * `d_1` -   Spaced  ",
        " ## Returns",
        " - `e` - Not an argument",
        " # Arguments",
        " - `f` - Too late",
    ]));
    assert_eq!(info.description, "Does things.");
    assert_eq!(
        info.arg_docs,
        vec![TextEntry::new("a", "First"), TextEntry::new("d_1", "Spaced")]
    );
}

#[test]
fn heading_is_matched_with_case_and_level() {
    let info = extract_docs(&lines(&[" Text.", " # arguments", " - `a` - First"]));
    assert_eq!(info.description, "Text.\n # arguments\n - `a` - First");
    assert!(info.arg_docs.is_empty());
    let info = extract_docs(&lines(&[" Text.", " ### Arguments", " - `a` - First"]));
    assert!(info.arg_docs.is_empty());
    let info = extract_docs(&lines(&[" Text.", "## Parameters:", "- `a` - First"]));
    assert_eq!(info.description, "Text.");
    assert_eq!(info.arg_docs, vec![TextEntry::new("a", "First")]);
}

#[test]
fn read_item_patterns() {
    assert_eq!(read_item("- `value` - Target value."), Some(TextEntry::new("value", "Target value.")));
    assert_eq!(read_item("  * `x` - y"), Some(TextEntry::new("x", "y")));
    assert_eq!(read_item("- `x` - "), None);
    assert_eq!(read_item("- `x` -  "), None);
    assert_eq!(read_item("- `x` -   y  "), Some(TextEntry::new("x", "y")));
    assert_eq!(read_item("- `` - y"), None);
    assert_eq!(read_item("+ `x` - y"), None);
    assert_eq!(read_item("- `x`: y"), None);
    assert_eq!(read_item(""), None);
}

#[test]
fn undocumented_parameter_has_empty_description() {
    let decl = FunctionDecl {
        name: "f".to_string(),
        doc_lines: lines(&[" # Arguments", " - `b` - Second", " - `b` - Again"]),
        params: vec![ParameterDecl::new("a", "bool"), ParameterDecl::new("b", "String")],
        return_type: "bool".to_string(),
        suspends: false,
    };
    let tool = generate(&decl).unwrap();
    let definition: &ToolDefinition = &tool.definition;
    assert_eq!(definition.description, "");
    assert_eq!(definition.parameters[0].description, "");
    assert_eq!(definition.parameters[1].description, "Second");
    assert_eq!(definition.parameters[1].type_label, "String");
}

#[test]
fn find_entry_takes_the_first() {
    let entries = vec![TextEntry::new("a", "1"), TextEntry::new("b", "2"), TextEntry::new("a", "3")];
    assert_eq!(find_entry(&entries, &"a".to_string()), Some(0));
    assert_eq!(find_entry(&entries, &"b".to_string()), Some(1));
    assert_eq!(find_entry(&entries, &"c".to_string()), None);
}

#[test]
fn return_shapes() {
    assert_eq!(analyze_return(" i32 "), ReturnText::Plain("i32".to_string()));
    assert_eq!(
        analyze_return("Result<u8, String>"),
        ReturnText::Outcome("u8".to_string(), "String".to_string())
    );
    assert_eq!(
        analyze_return("Result<Vec<(u8, u8)>,E>"),
        ReturnText::Outcome("Vec<(u8, u8)>".to_string(), "E".to_string())
    );
    assert_eq!(analyze_return("Result<u8>"), ReturnText::Plain("Result<u8>".to_string()));
    assert_eq!(analyze_return("Option<u8>"), ReturnText::Plain("Option<u8>".to_string()));
    assert_eq!(analyze_return("Result<"), ReturnText::Plain("Result<".to_string()));
}

#[test]
fn unsupported_types_stop_generation() {
    let mut decl = incrementer_decl(false);
    decl.params.push(ParameterDecl::new("extra", "Vec<u8>"));
    decl.return_type = "Widget".to_string();
    assert_eq!(
        generate(&decl),
        Err(CapabilityError::ParameterNotParsable("extra".to_string(), "Vec<u8>".to_string()))
    );
    decl.params.pop();
    assert_eq!(generate(&decl), Err(CapabilityError::ReturnNotRenderable("Widget".to_string())));
    assert_eq!(
        validate_return(&ReturnText::Outcome("i8".to_string(), "Oops".to_string())),
        Err(CapabilityError::ReturnNotRenderable("Oops".to_string()))
    );
    assert_eq!(
        validate_return(&ReturnText::Outcome("Nope".to_string(), "Oops".to_string())),
        Err(CapabilityError::ReturnNotRenderable("Nope".to_string()))
    );
    assert_eq!(
        validate_parameters(&vec![ParameterDecl::new("a", "u16"), ParameterDecl::new("b", "bool")]),
        Ok(vec![ValueType::U16, ValueType::Bool])
    );
}

#[test]
fn registry_names() {
    assert_eq!(ValueType::from_name("i8"), Some(ValueType::I8));
    assert_eq!(ValueType::from_name("u64"), Some(ValueType::U64));
    assert_eq!(ValueType::from_name("String"), Some(ValueType::Text));
    assert_eq!(ValueType::from_name("string"), None);
    assert_eq!(ValueType::from_name(""), None);
}

#[test]
fn integers_parse_within_their_type() {
    assert_eq!(parse_int("42", ValueType::I32), Ok(42));
    assert_eq!(parse_int("+42", ValueType::U8), Ok(42));
    assert_eq!(parse_int("-0", ValueType::I8), Ok(0));
    assert_eq!(parse_int("007", ValueType::U8), Ok(7));
    assert_eq!(parse_int("-128", ValueType::I8), Ok(-128));
    assert_eq!(parse_int("127", ValueType::I8), Ok(127));
    assert_eq!(parse_int("18446744073709551615", ValueType::U64), Ok(18446744073709551615));
    assert_eq!(parse_int("-9223372036854775808", ValueType::I64), Ok(-9223372036854775808));
    let err = |m: &str| Err::<i128, String>(m.to_string());
    assert_eq!(parse_int("", ValueType::I32), err("cannot parse integer from empty string"));
    assert_eq!(parse_int("-", ValueType::I32), err("invalid digit found in string"));
    assert_eq!(parse_int("+", ValueType::U32), err("invalid digit found in string"));
    assert_eq!(parse_int("-1", ValueType::U32), err("invalid digit found in string"));
    assert_eq!(parse_int("1 ", ValueType::U32), err("invalid digit found in string"));
    assert_eq!(parse_int("128", ValueType::I8), err("number too large to fit in target type"));
    assert_eq!(parse_int("-129", ValueType::I8), err("number too small to fit in target type"));
    assert_eq!(
        parse_int("18446744073709551616", ValueType::U64),
        err("number too large to fit in target type")
    );
    assert_eq!(
        parse_int("-99999999999999999999999999999999999999999999", ValueType::I64),
        err("number too small to fit in target type")
    );
}

#[test]
fn values_parse_and_render() {
    assert_eq!(parse_text("true", ValueType::Bool), Ok(Value::Bool(true)));
    assert_eq!(parse_text("false", ValueType::Bool), Ok(Value::Bool(false)));
    assert_eq!(
        parse_text("True", ValueType::Bool),
        Err("provided string was not `true` or `false`".to_string())
    );
    assert_eq!(parse_text(" x ", ValueType::Text), Ok(Value::Text(" x ".to_string())));
    assert_eq!(parse_text("65535", ValueType::U16), Ok(Value::Int(65535)));
    assert_eq!(Value::Bool(false).render(), "false");
    assert_eq!(Value::Text("a b".to_string()).render(), "a b");
    assert_eq!(Value::Int(-17).render(), "-17");
    assert_eq!(render_int(0), "0");
    assert_eq!(render_int(10), "10");
    assert_eq!(render_int(i128::MIN), "-170141183460469231731687303715884105728");
    assert_eq!(render_int(i128::MAX), "170141183460469231731687303715884105727");
}

#[test]
fn rendered_integers_parse_back() {
    let cases: [(i128, ValueType); 6] = [
        (0, ValueType::U8),
        (255, ValueType::U8),
        (-32768, ValueType::I16),
        (2147483647, ValueType::I32),
        (-1, ValueType::I64),
        (4294967295, ValueType::U32),
    ];
    for (v, ty) in cases {
        assert_eq!(parse_int(&render_int(v), ty), Ok(v));
    }
}

#[test]
fn adapter_fields_can_be_set_by_hand() {
    let tool = ToolAdapter {
        definition: ToolDefinition {
            name: "echo".to_string(),
            description: "Says it again.".to_string(),
            parameters: vec![],
        },
        types: vec![],
        shape: ReturnShape::Plain(ValueType::Text),
        mode: ExecutionMode::Immediate,
    };
    let tool_use = ToolUse::new("x", "echo", vec![InputEntry::text("unused", "1")]);
    assert_eq!(tool.prepare_call(&tool_use), Ok(vec![]));
}

#[test]
fn structured_input_is_converted_from_its_text() {
    let tool = generate(&incrementer_decl(false)).unwrap();
    let tool_use =
        ToolUse::new("id", "incrementer", vec![InputEntry::new("value", Value::Int(42))]);
    let result = tool.call(&tool_use, increment).unwrap();
    assert_eq!(result.outcome, ToolOutcome::Success("43".to_string()));
    let tool_use =
        ToolUse::new("id", "incrementer", vec![InputEntry::new("value", Value::Bool(true))]);
    assert_eq!(
        tool.call(&tool_use, increment),
        Err(ToolCallError::ParameterConversionFailed(
            "value".to_string(),
            "true".to_string(),
            "invalid digit found in string".to_string()
        ))
    );
    let tool_use = ToolUse::new(
        "id",
        "incrementer",
        vec![InputEntry::new("value", Value::Int(2147483648))],
    );
    assert_eq!(
        tool.prepare_call(&tool_use),
        Err(ToolCallError::ParameterConversionFailed(
            "value".to_string(),
            "2147483648".to_string(),
            "number too large to fit in target type".to_string()
        ))
    );
}

#[test]
fn find_input_takes_the_first() {
    let entries = vec![
        InputEntry::text("a", "1"),
        InputEntry::new("b", Value::Bool(false)),
        InputEntry::text("a", "3"),
    ];
    assert_eq!(find_input(&entries, &"a".to_string()), Some(0));
    assert_eq!(find_input(&entries, &"b".to_string()), Some(1));
    assert_eq!(find_input(&entries, &"c".to_string()), None);
    let tool = generate(&incrementer_decl(false)).unwrap();
    let tool_use = ToolUse::new(
        "id",
        "incrementer",
        vec![InputEntry::text("value", "1"), InputEntry::text("value", "x")],
    );
    assert_eq!(tool.prepare_call(&tool_use), Ok(vec![Value::Int(1)]));
}

#[test]
fn registry_holds_the_wide_integers_and_char() {
    assert_eq!(ValueType::from_name("i128"), Some(ValueType::I128));
    assert_eq!(ValueType::from_name("u128"), Some(ValueType::U128));
    assert_eq!(ValueType::from_name("isize"), Some(ValueType::Isize));
    assert_eq!(ValueType::from_name("usize"), Some(ValueType::Usize));
    assert_eq!(ValueType::from_name("char"), Some(ValueType::Char));
    assert_eq!(ValueType::from_name("f64"), None);
}

#[test]
fn wide_integers_parse_to_their_ends() {
    assert_eq!(
        parse_text("340282366920938463463374607431768211455", ValueType::U128),
        Ok(Value::Unsigned(u128::MAX))
    );
    assert_eq!(
        parse_text("340282366920938463463374607431768211456", ValueType::U128),
        Err("number too large to fit in target type".to_string())
    );
    assert_eq!(
        parse_text("-1", ValueType::U128),
        Err("invalid digit found in string".to_string())
    );
    assert_eq!(parse_unsigned("0"), Ok(0));
    assert_eq!(parse_int("-170141183460469231731687303715884105728", ValueType::I128), Ok(i128::MIN));
    assert_eq!(parse_int("170141183460469231731687303715884105727", ValueType::I128), Ok(i128::MAX));
    assert_eq!(
        parse_int("170141183460469231731687303715884105728", ValueType::I128),
        Err("number too large to fit in target type".to_string())
    );
    assert_eq!(
        parse_int("-170141183460469231731687303715884105729", ValueType::I128),
        Err("number too small to fit in target type".to_string())
    );
    assert_eq!(parse_int(&isize::MIN.to_string(), ValueType::Isize), Ok(isize::MIN as i128));
    assert_eq!(parse_int(&usize::MAX.to_string(), ValueType::Usize), Ok(usize::MAX as i128));
    assert_eq!(
        parse_int(&format!("{}0", usize::MAX), ValueType::Usize),
        Err("number too large to fit in target type".to_string())
    );
    assert_eq!(
        parse_magnitude("-999999999999999999999999999999999999999999", true),
        Ok((true, None))
    );
    assert_eq!(parse_magnitude("+12", false), Ok((false, Some(12))));
    assert_eq!(Value::Unsigned(u128::MAX).render(), "340282366920938463463374607431768211455");
    assert_eq!(render_unsigned(7), "7");
}

#[test]
fn characters_parse_and_render() {
    assert_eq!(parse_text("x", ValueType::Char), Ok(Value::Char('x')));
    assert_eq!(parse_text("é", ValueType::Char), Ok(Value::Char('é')));
    assert_eq!(
        parse_text("", ValueType::Char),
        Err("cannot parse char from empty string".to_string())
    );
    assert_eq!(
        parse_text("xy", ValueType::Char),
        Err("too many characters in string".to_string())
    );
    assert_eq!(Value::Char('x').render(), "x");
}
