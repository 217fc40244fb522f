//! The Rust text that stands next to a function once it is a tool: a unit
//! struct with the tool's definition, its descriptor and the call that runs
//! the function on converted arguments.

use vstd::prelude::*;
use vstd::string::*;
use crate::adapter::{ExecutionMode, ReturnShape, ToolAdapter};
use crate::capability::{decimal_digits, render_unsigned, ValueType};
use crate::model::{ParameterDefinition, ParameterModel, ToolDefinition, ToolModel};
use crate::text::{push_char, to_chars};

verus! {

/// How a character stands inside a string literal.
pub open spec fn escape_char(c: char) -> Seq<char> {
    if c == '"' {
        "\\\""@
    } else if c == '\\' {
        "\\\\"@
    } else if c == '\n' {
        "\\n"@
    } else if c == '\r' {
        "\\r"@
    } else {
        seq![c]
    }
}

/// The characters of `s`, each as it stands inside a string literal.
pub open spec fn escaped(s: Seq<char>) -> Seq<char>
    decreases s.len(),
{
    if s.len() == 0 {
        Seq::empty()
    } else {
        escaped(s.drop_last()) + escape_char(s.last())
    }
}

/// An expression whose value is the string `s`.
pub open spec fn text_literal(s: Seq<char>) -> Seq<char> {
    "\""@ + escaped(s) + "\".to_string()"@
}

pub open spec fn variant_name(ty: ValueType) -> Seq<char> {
    match ty {
        ValueType::I8 => "I8"@,
        ValueType::I16 => "I16"@,
        ValueType::I32 => "I32"@,
        ValueType::I64 => "I64"@,
        ValueType::U8 => "U8"@,
        ValueType::U16 => "U16"@,
        ValueType::U32 => "U32"@,
        ValueType::U64 => "U64"@,
        ValueType::I128 => "I128"@,
        ValueType::U128 => "U128"@,
        ValueType::Isize => "Isize"@,
        ValueType::Usize => "Usize"@,
        ValueType::Bool => "Bool"@,
        ValueType::Char => "Char"@,
        ValueType::Text => "Text"@,
    }
}

/// An expression whose value is the type `ty`.
pub open spec fn type_literal(ty: ValueType) -> Seq<char> {
    "::clust_macros::capability::ValueType::"@ + variant_name(ty)
}

/// The elements of a list of types, each followed by a comma.
pub open spec fn types_literal(types: Seq<ValueType>) -> Seq<char>
    decreases types.len(),
{
    if types.len() == 0 {
        Seq::empty()
    } else {
        types_literal(types.drop_last()) + type_literal(types.last()) + ", "@
    }
}

pub open spec fn shape_literal(shape: ReturnShape) -> Seq<char> {
    match shape {
        ReturnShape::Plain(t) => "::clust_macros::adapter::ReturnShape::Plain("@ + type_literal(t)
            + ")"@,
        ReturnShape::Outcome(s, f) => "::clust_macros::adapter::ReturnShape::Outcome("@
            + type_literal(s) + ", "@ + type_literal(f) + ")"@,
    }
}

pub open spec fn mode_literal(mode: ExecutionMode) -> Seq<char> {
    match mode {
        ExecutionMode::Immediate => "::clust_macros::adapter::ExecutionMode::Immediate"@,
        ExecutionMode::Suspending => "::clust_macros::adapter::ExecutionMode::Suspending"@,
    }
}

/// An expression whose value is the parameter `p`, followed by a comma.
pub open spec fn parameter_literal(p: ParameterModel) -> Seq<char> {
    "::clust_macros::model::ParameterDefinition { name: "@ + text_literal(p.name)
        + ", type_label: "@ + text_literal(p.type_label) + ", description: "@ + text_literal(
        p.description,
    ) + " }, "@
}

pub open spec fn parameter_literals(ps: Seq<ParameterModel>) -> Seq<char>
    decreases ps.len(),
{
    if ps.len() == 0 {
        Seq::empty()
    } else {
        parameter_literals(ps.drop_last()) + parameter_literal(ps.last())
    }
}

/// An expression whose value is the definition `d`.
pub open spec fn definition_literal(d: ToolModel) -> Seq<char> {
    "::clust_macros::model::ToolDefinition { name: "@ + text_literal(d.name) + ", description: "@
        + text_literal(d.description) + ", parameters: vec!["@ + parameter_literals(d.parameters)
        + "] }"@
}

/// The argument at position `i`: the converted value, rendered and parsed
/// as the parameter's declared type, followed by a comma.
pub open spec fn argument_text(i: nat, p: ParameterModel) -> Seq<char> {
    "arguments["@ + decimal_digits(i) + "].render().parse::<"@ + p.type_label
        + ">().unwrap(), "@
}

/// The arguments of the call, in declaration order.
pub open spec fn arguments_text(ps: Seq<ParameterModel>) -> Seq<char>
    decreases ps.len(),
{
    if ps.len() == 0 {
        Seq::empty()
    } else {
        arguments_text(ps.drop_last()) + argument_text((ps.len() - 1) as nat, ps.last())
    }
}

/// The expression that reports what the function gave back: a plain value
/// by its text, an outcome by the text of its success or of its failure.
pub open spec fn returned_text(shape: ReturnShape) -> Seq<char> {
    match shape {
        ReturnShape::Plain(_) => "::clust_macros::adapter::Returned::Plain(::clust_macros::capability::Value::Text(returned.to_string()))"@,
        ReturnShape::Outcome(_, _) => "match returned { Ok(value) => ::clust_macros::adapter::Returned::Succeeded(::clust_macros::capability::Value::Text(value.to_string())), Err(error) => ::clust_macros::adapter::Returned::Failed(::clust_macros::capability::Value::Text(error.to_string())) }"@,
    }
}

/// The method that calls the function: `call`, or `call_async` with an
/// await where the function suspends.
pub open spec fn call_text(
    name: Seq<char>,
    ps: Seq<ParameterModel>,
    shape: ReturnShape,
    mode: ExecutionMode,
) -> Seq<char> {
    (match mode {
        ExecutionMode::Immediate => "    pub fn call"@,
        ExecutionMode::Suspending => "    pub async fn call_async"@,
    })
        + "(&self, tool_use: &::clust_macros::model::ToolUse) -> Result<::clust_macros::model::ToolResult, ::clust_macros::model::ToolCallError> {\n        let arguments = self.adapter().prepare_call(tool_use)?;\n        let returned = "@
        + name + "("@ + arguments_text(ps) + (match mode {
        ExecutionMode::Immediate => ");\n"@,
        ExecutionMode::Suspending => ").await;\n"@,
    }) + "        Ok(::clust_macros::model::ToolResult::complete(tool_use, &"@ + returned_text(
        shape,
    ) + "))\n    }\n"@
}

/// The whole text: the function as written, then the tool's struct with
/// its definition, its adapter, its descriptor and its call.
pub open spec fn generated_item_text(
    source: Seq<char>,
    d: ToolModel,
    types: Seq<ValueType>,
    shape: ReturnShape,
    mode: ExecutionMode,
) -> Seq<char> {
    source + "\n#[allow(non_camel_case_types)]\npub struct ClustTool_"@ + d.name
        + ";\n\nimpl ClustTool_"@ + d.name
        + " {\n    pub fn definition(&self) -> ::clust_macros::model::ToolDefinition {\n        "@
        + definition_literal(d)
        + "\n    }\n\n    pub fn adapter(&self) -> ::clust_macros::adapter::ToolAdapter {\n        ::clust_macros::adapter::ToolAdapter { definition: self.definition(), types: vec!["@
        + types_literal(types) + "], shape: "@ + shape_literal(shape) + ", mode: "@ + mode_literal(
        mode,
    )
        + " }\n    }\n\n    pub fn description(&self) -> String {\n        self.definition().render()\n    }\n\n"@
        + call_text(d.name, d.parameters, shape, mode) + "}\n"@
}

/// Writes `text` as a string expression.
pub fn literal_of(text: &str) -> (s: String)
    ensures
        s@ == text_literal(text@),
{
    let v = to_chars(text);
    let mut body = String::new();
    let mut i: usize = 0;
    assert(v@.take(0) =~= Seq::<char>::empty());
    while i < v.len()
        invariant
            i <= v@.len(),
            body@ == escaped(v@.take(i as int)),
        decreases v@.len() - i,
    {
        let c = v[i];
        assert(v@.take(i + 1).drop_last() =~= v@.take(i as int));
        let ghost before = body@;
        if c == '"' {
            body.append("\\\"");
        } else if c == '\\' {
            body.append("\\\\");
        } else if c == '\n' {
            body.append("\\n");
        } else if c == '\r' {
            body.append("\\r");
        } else {
            push_char(&mut body, c);
            assert(body@ =~= before + seq![c]);
        }
        i = i + 1;
    }
    assert(v@.take(i as int) =~= v@);
    let mut s = String::from_str("\"");
    s.append(body.as_str());
    s.append("\".to_string()");
    s
}

fn variant_of(ty: ValueType) -> (r: &'static str)
    ensures
        r@ == variant_name(ty),
{
    match ty {
        ValueType::I8 => "I8",
        ValueType::I16 => "I16",
        ValueType::I32 => "I32",
        ValueType::I64 => "I64",
        ValueType::U8 => "U8",
        ValueType::U16 => "U16",
        ValueType::U32 => "U32",
        ValueType::U64 => "U64",
        ValueType::I128 => "I128",
        ValueType::U128 => "U128",
        ValueType::Isize => "Isize",
        ValueType::Usize => "Usize",
        ValueType::Bool => "Bool",
        ValueType::Char => "Char",
        ValueType::Text => "Text",
    }
}

fn type_text(ty: ValueType) -> (s: String)
    ensures
        s@ == type_literal(ty),
{
    let mut s = String::from_str("::clust_macros::capability::ValueType::");
    s.append(variant_of(ty));
    s
}

fn types_text(types: &Vec<ValueType>) -> (s: String)
    ensures
        s@ == types_literal(types@),
{
    let mut s = String::new();
    let mut i: usize = 0;
    assert(types@.take(0) =~= Seq::<ValueType>::empty());
    while i < types.len()
        invariant
            i <= types@.len(),
            s@ == types_literal(types@.take(i as int)),
        decreases types@.len() - i,
    {
        assert(types@.take(i + 1).drop_last() =~= types@.take(i as int));
        let one = type_text(types[i]);
        s.append(one.as_str());
        s.append(", ");
        i = i + 1;
    }
    assert(types@.take(i as int) =~= types@);
    s
}

fn shape_text(shape: ReturnShape) -> (s: String)
    ensures
        s@ == shape_literal(shape),
{
    match shape {
        ReturnShape::Plain(t) => {
            let mut s = String::from_str("::clust_macros::adapter::ReturnShape::Plain(");
            s.append(type_text(t).as_str());
            s.append(")");
            s
        },
        ReturnShape::Outcome(success, failure) => {
            let mut s = String::from_str("::clust_macros::adapter::ReturnShape::Outcome(");
            s.append(type_text(success).as_str());
            s.append(", ");
            s.append(type_text(failure).as_str());
            s.append(")");
            s
        },
    }
}

fn parameter_text(p: &ParameterDefinition) -> (s: String)
    ensures
        s@ == parameter_literal(p@),
{
    let mut s = String::from_str("::clust_macros::model::ParameterDefinition { name: ");
    s.append(literal_of(p.name.as_str()).as_str());
    s.append(", type_label: ");
    s.append(literal_of(p.type_label.as_str()).as_str());
    s.append(", description: ");
    s.append(literal_of(p.description.as_str()).as_str());
    s.append(" }, ");
    s
}

fn definition_text(d: &ToolDefinition) -> (s: String)
    ensures
        s@ == definition_literal(d@),
{
    let ghost ps = d@.parameters;
    let mut list = String::new();
    let mut i: usize = 0;
    assert(ps.take(0) =~= Seq::<ParameterModel>::empty());
    while i < d.parameters.len()
        invariant
            i <= d.parameters@.len(),
            ps == d@.parameters,
            list@ == parameter_literals(ps.take(i as int)),
        decreases d.parameters@.len() - i,
    {
        assert(ps.take(i + 1).drop_last() =~= ps.take(i as int));
        let one = parameter_text(&d.parameters[i]);
        list.append(one.as_str());
        i = i + 1;
    }
    assert(ps.take(i as int) =~= ps);
    let mut s = String::from_str("::clust_macros::model::ToolDefinition { name: ");
    s.append(literal_of(d.name.as_str()).as_str());
    s.append(", description: ");
    s.append(literal_of(d.description.as_str()).as_str());
    s.append(", parameters: vec![");
    s.append(list.as_str());
    s.append("] }");
    s
}

fn call_method_text(d: &ToolDefinition, shape: ReturnShape, mode: ExecutionMode) -> (s: String)
    ensures
        s@ == call_text(d@.name, d@.parameters, shape, mode),
{
    let ghost ps = d@.parameters;
    let mut arguments = String::new();
    let mut i: usize = 0;
    assert(ps.take(0) =~= Seq::<ParameterModel>::empty());
    while i < d.parameters.len()
        invariant
            i <= d.parameters@.len(),
            ps == d@.parameters,
            arguments@ == arguments_text(ps.take(i as int)),
        decreases d.parameters@.len() - i,
    {
        assert(ps.take(i + 1).drop_last() =~= ps.take(i as int));
        assert(ps.take(i + 1).last() == d.parameters@[i as int]@);
        let mut one = String::from_str("arguments[");
        one.append(render_unsigned(i as u128).as_str());
        one.append("].render().parse::<");
        one.append(d.parameters[i].type_label.as_str());
        one.append(">().unwrap(), ");
        arguments.append(one.as_str());
        i = i + 1;
    }
    assert(ps.take(i as int) =~= ps);
    let mut s = match mode {
        ExecutionMode::Immediate => String::from_str("    pub fn call"),
        ExecutionMode::Suspending => String::from_str("    pub async fn call_async"),
    };
    s.append(
        "(&self, tool_use: &::clust_macros::model::ToolUse) -> Result<::clust_macros::model::ToolResult, ::clust_macros::model::ToolCallError> {\n        let arguments = self.adapter().prepare_call(tool_use)?;\n        let returned = ",
    );
    s.append(d.name.as_str());
    s.append("(");
    s.append(arguments.as_str());
    match mode {
        ExecutionMode::Immediate => s.append(");\n"),
        ExecutionMode::Suspending => s.append(").await;\n"),
    }
    s.append("        Ok(::clust_macros::model::ToolResult::complete(tool_use, &");
    match shape {
        ReturnShape::Plain(_) => s.append(
            "::clust_macros::adapter::Returned::Plain(::clust_macros::capability::Value::Text(returned.to_string()))",
        ),
        ReturnShape::Outcome(_, _) => s.append(
            "match returned { Ok(value) => ::clust_macros::adapter::Returned::Succeeded(::clust_macros::capability::Value::Text(value.to_string())), Err(error) => ::clust_macros::adapter::Returned::Failed(::clust_macros::capability::Value::Text(error.to_string())) }",
        ),
    }
    s.append("))\n    }\n");
    s
}

/// Writes the text that stands for the function `source` once it is the
/// tool `tool`. The text builds the same adapter again, so `tool` has a
/// type for each of its parameters.
pub fn generated_item(source: &str, tool: &ToolAdapter) -> (s: String)
    requires
        tool.wf(),
    ensures
        s@ == generated_item_text(
            source@,
            tool.definition@,
            tool.types@,
            tool.shape,
            tool.mode,
        ),
{
    let mut s = String::from_str(source);
    s.append("\n#[allow(non_camel_case_types)]\npub struct ClustTool_");
    s.append(tool.definition.name.as_str());
    s.append(";\n\nimpl ClustTool_");
    s.append(tool.definition.name.as_str());
    s.append(
        " {\n    pub fn definition(&self) -> ::clust_macros::model::ToolDefinition {\n        ",
    );
    s.append(definition_text(&tool.definition).as_str());
    s.append(
        "\n    }\n\n    pub fn adapter(&self) -> ::clust_macros::adapter::ToolAdapter {\n        ::clust_macros::adapter::ToolAdapter { definition: self.definition(), types: vec![",
    );
    s.append(types_text(&tool.types).as_str());
    s.append("], shape: ");
    s.append(shape_text(tool.shape).as_str());
    s.append(", mode: ");
    match tool.mode {
        ExecutionMode::Immediate => s.append("::clust_macros::adapter::ExecutionMode::Immediate"),
        ExecutionMode::Suspending => s.append("::clust_macros::adapter::ExecutionMode::Suspending"),
    }
    s.append(
        " }\n    }\n\n    pub fn description(&self) -> String {\n        self.definition().render()\n    }\n\n",
    );
    s.append(call_method_text(&tool.definition, tool.shape, tool.mode).as_str());
    s.append("}\n");
    s
}

} // verus!
