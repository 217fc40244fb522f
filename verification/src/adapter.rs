//! Calling a tool: the arguments are looked up by name and converted in
//! declaration order, the function is run, and what it gave back becomes text.

use vstd::prelude::*;
use vstd::string::*;
use crate::capability::{has_type, parse_text, parse_value, render_value, Value, ValueModel, ValueType};
use crate::model::{
    find_input, inputs_view, lookup, CallErrorModel, EntryModel, OutcomeModel,
    ParameterDefinition, ParameterModel, ResultModel, ToolCallError, ToolDefinition, ToolOutcome,
    ToolResult, ToolUse, ToolUseModel,
};

verus! {

/// Whether a tool's function runs to its end at once or may suspend.
#[derive(Clone, Copy, Debug, PartialEq, Eq, Structural)]
pub enum ExecutionMode {
    Immediate,
    Suspending,
}

/// What a tool's function returns: one value, or a success or a failure with
/// a value each.
#[derive(Clone, Copy, Debug, PartialEq, Eq, Structural)]
pub enum ReturnShape {
    Plain(ValueType),
    Outcome(ValueType, ValueType),
}

/// What a tool's function gave back.
#[derive(Clone, Debug, PartialEq, Eq)]
pub enum Returned {
    Plain(Value),
    Succeeded(Value),
    Failed(Value),
}

pub ghost enum ReturnedModel {
    Plain(ValueModel),
    Succeeded(ValueModel),
    Failed(ValueModel),
}

impl View for Returned {
    type V = ReturnedModel;

    open spec fn view(&self) -> ReturnedModel {
        match self {
            Returned::Plain(v) => ReturnedModel::Plain(v@),
            Returned::Succeeded(v) => ReturnedModel::Succeeded(v@),
            Returned::Failed(v) => ReturnedModel::Failed(v@),
        }
    }
}

/// The values of `s` as plain values.
pub open spec fn values_view(s: Seq<Value>) -> Seq<ValueModel> {
    s.map_values(|v: Value| v@)
}

/// Whether each value is of the type at its position.
pub open spec fn well_typed(args: Seq<ValueModel>, types: Seq<ValueType>) -> bool {
    args.len() == types.len() && forall|i: int|
        0 <= i < args.len() ==> has_type(#[trigger] args[i], types[i])
}

/// The arguments of a call: for each parameter in declaration order, the
/// text under its name converted to its type. The first parameter that has
/// no text, or whose text is not of its type, decides the error.
pub open spec fn convert_arguments(
    params: Seq<ParameterModel>,
    types: Seq<ValueType>,
    input: Seq<EntryModel>,
) -> Result<Seq<ValueModel>, CallErrorModel>
    recommends
        params.len() == types.len(),
    decreases params.len(),
{
    if params.len() == 0 {
        Ok(Seq::empty())
    } else {
        match convert_arguments(params.drop_last(), types.drop_last(), input) {
            Err(e) => Err(e),
            Ok(args) => match lookup(input, params.last().name) {
                None => Err(CallErrorModel::ParameterMissing(params.last().name)),
                Some(raw) => match parse_value(raw, types.last()) {
                    Ok(v) => Ok(args.push(v)),
                    Err(why) => Err(
                        CallErrorModel::ParameterConversionFailed(params.last().name, raw, why),
                    ),
                },
            },
        }
    }
}

/// An error among the first `k` parameters is the error of the whole list.
pub proof fn lemma_first_error_decides(
    params: Seq<ParameterModel>,
    types: Seq<ValueType>,
    input: Seq<EntryModel>,
    k: int,
)
    requires
        0 <= k <= params.len(),
        params.len() == types.len(),
        convert_arguments(params.take(k), types.take(k), input).is_err(),
    ensures
        convert_arguments(params, types, input) == convert_arguments(
            params.take(k),
            types.take(k),
            input,
        ),
    decreases params.len() - k,
{
    if k == params.len() {
        assert(params.take(k) =~= params);
        assert(types.take(k) =~= types);
    } else {
        assert(params.drop_last().take(k) =~= params.take(k));
        assert(types.drop_last().take(k) =~= types.take(k));
        lemma_first_error_decides(params.drop_last(), types.drop_last(), input, k);
    }
}

/// How what the function gave back is reported: a plain value and a success
/// as success text, the function's own failure as failure text.
pub open spec fn outcome_of(r: ReturnedModel) -> OutcomeModel {
    match r {
        ReturnedModel::Plain(v) => OutcomeModel::Success(render_value(v)),
        ReturnedModel::Succeeded(v) => OutcomeModel::Success(render_value(v)),
        ReturnedModel::Failed(v) => OutcomeModel::Failure(render_value(v)),
    }
}

/// The text that reports an error of the adapter.
pub open spec fn error_text(e: CallErrorModel) -> Seq<char> {
    match e {
        CallErrorModel::NameMismatch => "tool name mismatch"@,
        CallErrorModel::ParameterMissing(name) => "missing parameter: "@ + name,
        CallErrorModel::ParameterConversionFailed(name, raw, why) => "cannot convert parameter "@
            + name + " from `"@ + raw + "`: "@ + why,
    }
}

/// The answer's envelope.
pub open spec fn render_result(tool_name: Seq<char>, outcome: OutcomeModel) -> Seq<char> {
    "<function_results>\n  <result>\n    <tool_name>"@ + tool_name + "</tool_name>\n"@ + (match outcome {
        OutcomeModel::Success(text) => "    <stdout>"@ + text + "</stdout>\n"@,
        OutcomeModel::Failure(text) => "    <stderr>"@ + text + "</stderr>\n"@,
    }) + "  </result>\n</function_results>"@
}

impl ToolCallError {
    /// The error as text: it names the parameter and gives the reason.
    pub fn message(&self) -> (s: String)
        ensures
            s@ == error_text(self@),
    {
        match self {
            ToolCallError::NameMismatch => String::from_str("tool name mismatch"),
            ToolCallError::ParameterMissing(name) => {
                let mut s = String::from_str("missing parameter: ");
                s.append(name.as_str());
                s
            },
            ToolCallError::ParameterConversionFailed(name, raw, why) => {
                let mut s = String::from_str("cannot convert parameter ");
                s.append(name.as_str());
                s.append(" from `");
                s.append(raw.as_str());
                s.append("`: ");
                s.append(why.as_str());
                s
            },
        }
    }
}

impl ToolResult {
    /// The answer to `tool_use` after its function gave back `returned`.
    pub fn complete(tool_use: &ToolUse, returned: &Returned) -> (r: ToolResult)
        ensures
            r@ == (ResultModel { tool_use_id: tool_use.id@, outcome: outcome_of(returned@) }),
    {
        let outcome = match returned {
            Returned::Plain(v) => ToolOutcome::Success(v.render()),
            Returned::Succeeded(v) => ToolOutcome::Success(v.render()),
            Returned::Failed(v) => ToolOutcome::Failure(v.render()),
        };
        ToolResult { tool_use_id: tool_use.id.clone(), outcome }
    }

    /// The answer that reports an error of the adapter as failure text.
    pub fn from_error(tool_use: &ToolUse, error: &ToolCallError) -> (r: ToolResult)
        ensures
            r@ == (ResultModel {
                tool_use_id: tool_use.id@,
                outcome: OutcomeModel::Failure(error_text(error@)),
            }),
    {
        ToolResult {
            tool_use_id: tool_use.id.clone(),
            outcome: ToolOutcome::Failure(error.message()),
        }
    }

    /// Renders the answer's envelope for the tool `tool_name`.
    pub fn render(&self, tool_name: &str) -> (s: String)
        ensures
            s@ == render_result(tool_name@, self.outcome@),
    {
        let mut s = String::from_str("<function_results>\n  <result>\n    <tool_name>");
        s.append(tool_name);
        s.append("</tool_name>\n");
        let mut line = String::new();
        match &self.outcome {
            ToolOutcome::Success(text) => {
                line.append("    <stdout>");
                line.append(text.as_str());
                line.append("</stdout>\n");
            },
            ToolOutcome::Failure(text) => {
                line.append("    <stderr>");
                line.append(text.as_str());
                line.append("</stderr>\n");
            },
        }
        assert(Seq::<char>::empty() + "    <stdout>"@ =~= "    <stdout>"@);
        assert(Seq::<char>::empty() + "    <stderr>"@ =~= "    <stderr>"@);
        s.append(line.as_str());
        s.append("  </result>\n</function_results>");
        s
    }
}

/// A tool ready to be described and called: its definition, the type of
/// each parameter, the shape of what its function returns and how it runs.
#[derive(Clone, Debug, PartialEq, Eq)]
pub struct ToolAdapter {
    pub definition: ToolDefinition,
    pub types: Vec<ValueType>,
    pub shape: ReturnShape,
    pub mode: ExecutionMode,
}

impl ToolAdapter {
    /// Each parameter has its type.
    pub open spec fn wf(&self) -> bool {
        self.types@.len() == self.definition.parameters@.len()
    }

    /// What a request leads to before the function runs: the arguments to
    /// run it on, or the error that stops the call.
    pub open spec fn prepared(&self, tool_use: ToolUseModel) -> Result<Seq<ValueModel>, CallErrorModel> {
        if tool_use.tool_name != self.definition@.name {
            Err(CallErrorModel::NameMismatch)
        } else {
            convert_arguments(self.definition@.parameters, self.types@, tool_use.input)
        }
    }

    /// The tool's descriptor as text.
    pub fn description(&self) -> (s: String)
        ensures
            s@ == crate::descriptor::render_definition(self.definition@),
    {
        self.definition.render()
    }

    /// Checks the request's name and converts its arguments, without running
    /// anything.
    pub fn prepare_call(&self, tool_use: &ToolUse) -> (r: Result<Vec<Value>, ToolCallError>)
        requires
            self.wf(),
        ensures
            match (r, self.prepared(tool_use@)) {
                (Ok(args), Ok(m)) => values_view(args@) == m && well_typed(m, self.types@),
                (Err(e), Err(m)) => e@ == m,
                _ => false,
            },
    {
        if tool_use.tool_name != self.definition.name {
            return Err(ToolCallError::NameMismatch);
        }
        let ghost params = self.definition@.parameters;
        let ghost types = self.types@;
        let ghost input = tool_use@.input;
        let mut args: Vec<Value> = Vec::new();
        let mut i: usize = 0;
        assert(values_view(args@) =~= Seq::empty());
        while i < self.definition.parameters.len()
            invariant
                i <= self.definition.parameters@.len(),
                self.wf(),
                tool_use@.tool_name == self.definition@.name,
                params == self.definition@.parameters,
                types == self.types@,
                input == inputs_view(tool_use.input@),
                convert_arguments(params.take(i as int), types.take(i as int), input) == Ok::<
                    Seq<ValueModel>,
                    CallErrorModel,
                >(values_view(args@)),
                well_typed(values_view(args@), types.take(i as int)),
            decreases self.definition.parameters@.len() - i,
        {
            let p: &ParameterDefinition = &self.definition.parameters[i];
            proof {
                assert(params.take(i + 1).drop_last() =~= params.take(i as int));
                assert(types.take(i + 1).drop_last() =~= types.take(i as int));
                assert(params.take(i + 1).last() == p@);
                assert(types.take(i + 1).last() == self.types@[i as int]);
            }
            match find_input(&tool_use.input, &p.name) {
                None => {
                    proof {
                        lemma_first_error_decides(params, types, input, i + 1);
                    }
                    return Err(ToolCallError::ParameterMissing(p.name.clone()));
                },
                Some(k) => {
                    let raw: String = tool_use.input[k].value.render();
                    match parse_text(raw.as_str(), self.types[i]) {
                        Err(why) => {
                            proof {
                                lemma_first_error_decides(params, types, input, i + 1);
                            }
                            return Err(
                                ToolCallError::ParameterConversionFailed(
                                    p.name.clone(),
                                    raw,
                                    why,
                                ),
                            );
                        },
                        Ok(v) => {
                            let ghost before = values_view(args@);
                            args.push(v);
                            assert(values_view(args@) =~= before.push(v@));
                        },
                    }
                },
            }
            i = i + 1;
        }
        assert(params.take(i as int) =~= params);
        assert(types.take(i as int) =~= types);
        Ok(args)
    }

    /// Calls the tool: converts the arguments, runs `f` on them and reports
    /// what it gave back. Where the request names another tool, or an argument
    /// is missing or not of its type, `f` is not run and the error is returned.
    pub fn call<F: Fn(Vec<Value>) -> Returned>(&self, tool_use: &ToolUse, f: F) -> (r: Result<
        ToolResult,
        ToolCallError,
    >)
        requires
            self.wf(),
            forall|args: Vec<Value>|
                well_typed(values_view(args@), self.types@) ==> #[trigger] f.requires((args,)),
        ensures
            match (r, self.prepared(tool_use@)) {
                (Ok(res), Ok(m)) => exists|args: Vec<Value>, ret: Returned|
                    values_view(args@) == m && #[trigger] f.ensures((args,), ret) && res@ == (
                    ResultModel { tool_use_id: tool_use.id@, outcome: outcome_of(ret@) }),
                (Err(e), Err(m)) => e@ == m,
                _ => false,
            },
    {
        match self.prepare_call(tool_use) {
            Err(e) => Err(e),
            Ok(args) => {
                let ghost given = args;
                let returned = f(args);
                let res = ToolResult::complete(tool_use, &returned);
                assert(f.ensures((given,), returned));
                Ok(res)
            },
        }
    }
}

/// A tool without parameters accepts every request that names it, whatever
/// its input holds, and runs on no arguments.
pub proof fn lemma_no_parameters_always_prepared(tool: ToolAdapter, tool_use: ToolUseModel)
    requires
        tool.wf(),
        tool.definition@.parameters.len() == 0,
        tool_use.tool_name == tool.definition@.name,
    ensures
        tool.prepared(tool_use) == Ok::<Seq<ValueModel>, CallErrorModel>(Seq::empty()),
{
}

/// Where the parameters before the one at `k` convert and the input has no
/// text under the name of that one, the call fails as missing that
/// parameter.
pub proof fn lemma_missing_parameter_is_reported(
    params: Seq<ParameterModel>,
    types: Seq<ValueType>,
    input: Seq<EntryModel>,
    k: int,
)
    requires
        0 <= k < params.len(),
        params.len() == types.len(),
        convert_arguments(params.take(k), types.take(k), input).is_ok(),
        lookup(input, params[k].name).is_none(),
    ensures
        convert_arguments(params, types, input) == Err::<Seq<ValueModel>, CallErrorModel>(
            CallErrorModel::ParameterMissing(params[k].name),
        ),
{
    assert(params.take(k + 1).drop_last() =~= params.take(k));
    assert(types.take(k + 1).drop_last() =~= types.take(k));
    lemma_first_error_decides(params, types, input, k + 1);
}

/// Where the parameters before the one at `k` convert and the text under
/// the name of that one is not of its type, the call fails with that
/// parameter's name, the raw text and the parser's reason.
pub proof fn lemma_unparsable_value_is_reported(
    params: Seq<ParameterModel>,
    types: Seq<ValueType>,
    input: Seq<EntryModel>,
    k: int,
    raw: Seq<char>,
)
    requires
        0 <= k < params.len(),
        params.len() == types.len(),
        convert_arguments(params.take(k), types.take(k), input).is_ok(),
        lookup(input, params[k].name) == Some(raw),
        parse_value(raw, types[k]).is_err(),
    ensures
        convert_arguments(params, types, input) matches Err(
            CallErrorModel::ParameterConversionFailed(name, text, why),
        ) && name == params[k].name && text == raw && parse_value(raw, types[k]) == Err::<
            ValueModel,
            Seq<char>,
        >(why),
{
    assert(params.take(k + 1).drop_last() =~= params.take(k));
    assert(types.take(k + 1).drop_last() =~= types.take(k));
    lemma_first_error_decides(params, types, input, k + 1);
}

/// A failure of the function itself is reported as failure text, whatever
/// the text is.
pub proof fn lemma_function_failure_is_failure_text(message: Seq<char>)
    ensures
        outcome_of(ReturnedModel::Failed(ValueModel::Text(message))) == OutcomeModel::Failure(
            message,
        ),
{
}

/// Two tools that differ in nothing but how their function runs treat every
/// request alike.
pub proof fn lemma_mode_changes_nothing(a: ToolAdapter, b: ToolAdapter, tool_use: ToolUseModel)
    requires
        a.definition@ == b.definition@,
        a.types@ == b.types@,
    ensures
        a.prepared(tool_use) == b.prepared(tool_use),
{
}

} // verus!
