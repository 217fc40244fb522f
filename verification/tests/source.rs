use clust_macros::adapter::{ExecutionMode, ReturnShape, Returned};
use clust_macros::capability::{Value, ValueType};
use clust_macros::model::{InputEntry, ToolOutcome, ToolUse};
use clust_macros::signature::{CapabilityError, ParameterDecl};
use clust_macros::source::{
    declare, read_function, strip_spaces, tool_from_raw, clust_tool, DeclarationError,
    GenerationError, RawAttribute, RawFunction, RawParameter,
};

const INCREMENTER: &str = "/// Increments the argument by 1.\n///\n/// ## Arguments\n/// - `value` - Target value.\nfn incrementer(value: i32) -> i32 {\n    value + 1\n}\n";

#[test]
fn source_is_read_as_written() {
    let raw = read_function(INCREMENTER).unwrap();
    assert_eq!(raw.name, "incrementer");
    assert!(!raw.suspends);
    assert_eq!(raw.return_type, Some("i32".to_string()));
    assert_eq!(
        raw.params,
        vec![RawParameter { name: Some("value".to_string()), type_text: Some("i32".to_string()) }]
    );
    let texts: Vec<Option<String>> = raw.attributes.iter().map(|a| a.text.clone()).collect();
    assert_eq!(
        texts,
        vec![
            Some(" Increments the argument by 1.".to_string()),
            Some("".to_string()),
            Some(" ## Arguments".to_string()),
            Some(" - `value` - Target value.".to_string()),
        ]
    );
    assert!(raw.attributes.iter().all(|a| a.name == Some("doc".to_string())));
}

#[test]
fn incrementer_from_source() {
    let tool = clust_tool(INCREMENTER).unwrap();
    let expected = "<tool_description>\n  <tool_name>incrementer</tool_name>\n  <description>Increments the argument by 1.</description>\n  <parameters>\n    <parameter>\n      <name>value</name>\n      <type>i32</type>\n      <description>Target value.</description>\n    </parameter>\n  </parameters>\n</tool_description>";
    assert_eq!(tool.description(), expected);
    let tool_use = ToolUse::new("toolu_XXXX", "incrementer", vec![InputEntry::text("value", "42")]);
    let result = tool
        .call(&tool_use, |args: Vec<Value>| match &args[0] {
            Value::Int(v) => Returned::Plain(Value::Int(v + 1)),
            _ => unreachable!(),
        })
        .unwrap();
    assert_eq!(result.tool_use_id, "toolu_XXXX");
    assert_eq!(result.outcome, ToolOutcome::Success("43".to_string()));
}

#[test]
fn suspending_outcome_function_from_source() {
    let source = "#[inline]\n/// Divides.\n#[allow(unused)]\nasync fn divide(mut a: i64, b: i64) -> Result<i64, String> { Ok(a / b) }";
    let raw = read_function(source).unwrap();
    assert!(raw.suspends);
    assert_eq!(raw.attributes.len(), 3);
    assert_eq!(raw.attributes[0], RawAttribute { name: Some("inline".to_string()), text: None });
    assert_eq!(raw.attributes[2], RawAttribute { name: Some("allow".to_string()), text: None });
    let decl = declare(&raw).unwrap();
    assert_eq!(decl.doc_lines, vec![" Divides.".to_string()]);
    assert_eq!(decl.params, vec![ParameterDecl::new("a", "i64"), ParameterDecl::new("b", "i64")]);
    assert_eq!(decl.return_type, "Result<i64,String>");
    let tool = clust_tool(source).unwrap();
    assert_eq!(tool.mode, ExecutionMode::Suspending);
    assert_eq!(tool.shape, ReturnShape::Outcome(ValueType::I64, ValueType::Text));
    assert_eq!(tool.types, vec![ValueType::I64, ValueType::I64]);
    assert_eq!(tool.definition.description, "Divides.");
}

#[test]
fn source_without_parameters_or_docs() {
    let tool = clust_tool("fn ping() -> String { String::new() }").unwrap();
    assert_eq!(
        tool.description(),
        "<tool_description>\n  <tool_name>ping</tool_name>\n  <description></description>\n  <parameters></parameters>\n</tool_description>"
    );
}

#[test]
fn source_that_is_no_function_is_a_syntax_error() {
    for source in ["", "struct S;", "fn broken(", "fn a() {} fn b() {}"] {
        match clust_tool(source) {
            Err(GenerationError::Declaration(DeclarationError::Syntax(message))) => {
                assert!(!message.is_empty())
            }
            other => panic!("{:?}", other),
        }
    }
}

#[test]
fn receiver_or_pattern_parameter_is_refused() {
    assert_eq!(
        clust_tool("fn f(a: u8, (b, c): (u8, u8)) -> u8 { a }"),
        Err(GenerationError::Declaration(DeclarationError::UnsupportedParameter(1)))
    );
    assert_eq!(
        clust_tool("fn f(&self, a: u8) -> u8 { a }"),
        Err(GenerationError::Declaration(DeclarationError::UnsupportedParameter(0)))
    );
}

#[test]
fn unsupported_types_from_source() {
    assert_eq!(
        clust_tool("fn f(a: Vec<u8>) -> u8 { 0 }"),
        Err(GenerationError::Capability(CapabilityError::ParameterNotParsable(
            "a".to_string(),
            "Vec<u8>".to_string()
        )))
    );
    assert_eq!(
        clust_tool("fn f(a: u8) { }"),
        Err(GenerationError::Capability(CapabilityError::ReturnNotRenderable("()".to_string())))
    );
}

#[test]
fn declare_decides_on_plain_values() {
    let raw = RawFunction {
        name: "f".to_string(),
        attributes: vec![
            RawAttribute { name: Some("doc".to_string()), text: Some(" One.".to_string()) },
            RawAttribute { name: Some("doc".to_string()), text: None },
            RawAttribute { name: None, text: Some("x".to_string()) },
            RawAttribute { name: Some("path".to_string()), text: Some("y".to_string()) },
            RawAttribute { name: Some("doc".to_string()), text: Some(" Two.".to_string()) },
        ],
        params: vec![RawParameter {
            name: Some("a".to_string()),
            type_text: Some(" Vec < u8 > ".to_string()),
        }],
        return_type: None,
        suspends: true,
    };
    let decl = declare(&raw).unwrap();
    assert_eq!(decl.name, "f");
    assert_eq!(decl.doc_lines, vec![" One.".to_string(), " Two.".to_string()]);
    assert_eq!(decl.params, vec![ParameterDecl::new("a", "Vec<u8>")]);
    assert_eq!(decl.return_type, "()");
    assert!(decl.suspends);
    let mut bad = raw.clone();
    bad.params.push(RawParameter { name: Some("b".to_string()), type_text: None });
    bad.params.push(RawParameter { name: None, type_text: None });
    assert_eq!(declare(&bad), Err(DeclarationError::UnsupportedParameter(1)));
    assert_eq!(
        tool_from_raw(&bad),
        Err(GenerationError::Declaration(DeclarationError::UnsupportedParameter(1)))
    );
}

#[test]
fn strip_spaces_removes_every_blank() {
    assert_eq!(strip_spaces(" Result < i32 ,\tString >\n"), "Result<i32,String>");
    assert_eq!(strip_spaces(""), "");
    assert_eq!(strip_spaces("   "), "");
}
