//! The data that describes a tool, a request to call it and its answer.

use vstd::prelude::*;
use vstd::string::*;
use crate::capability::{render_value, Value};

verus! {

/// One declared parameter of a tool.
#[derive(Clone, Debug, PartialEq, Eq)]
pub struct ParameterDefinition {
    pub name: String,
    /// Shown in the descriptor; conversion goes by the adapter's own types.
    pub type_label: String,
    /// Empty where the parameter is not documented.
    pub description: String,
}

pub ghost struct ParameterModel {
    pub name: Seq<char>,
    pub type_label: Seq<char>,
    pub description: Seq<char>,
}

impl View for ParameterDefinition {
    type V = ParameterModel;

    open spec fn view(&self) -> ParameterModel {
        ParameterModel {
            name: self.name@,
            type_label: self.type_label@,
            description: self.description@,
        }
    }
}

/// What a tool advertises of itself: its name, its description and its
/// parameters in declaration order.
#[derive(Clone, Debug, PartialEq, Eq)]
pub struct ToolDefinition {
    pub name: String,
    pub description: String,
    pub parameters: Vec<ParameterDefinition>,
}

pub ghost struct ToolModel {
    pub name: Seq<char>,
    pub description: Seq<char>,
    pub parameters: Seq<ParameterModel>,
}

impl View for ToolDefinition {
    type V = ToolModel;

    open spec fn view(&self) -> ToolModel {
        ToolModel {
            name: self.name@,
            description: self.description@,
            parameters: self.parameters@.map_values(|p: ParameterDefinition| p@),
        }
    }
}

/// A key with the text that belongs to it.
#[derive(Clone, Debug, PartialEq, Eq)]
pub struct TextEntry {
    pub key: String,
    pub value: String,
}

pub ghost struct EntryModel {
    pub key: Seq<char>,
    pub value: Seq<char>,
}

impl View for TextEntry {
    type V = EntryModel;

    open spec fn view(&self) -> EntryModel {
        EntryModel { key: self.key@, value: self.value@ }
    }
}

impl TextEntry {
    pub fn new(key: &str, value: &str) -> (e: TextEntry)
        ensures
            e@ == (EntryModel { key: key@, value: value@ }),
    {
        TextEntry { key: String::from_str(key), value: String::from_str(value) }
    }
}

/// The entries of `v` as plain values.
pub open spec fn entries_view(v: Seq<TextEntry>) -> Seq<EntryModel> {
    v.map_values(|e: TextEntry| e@)
}

/// The value of the first entry under `key`, if there is one.
pub open spec fn lookup(entries: Seq<EntryModel>, key: Seq<char>) -> Option<Seq<char>>
    decreases entries.len(),
{
    if entries.len() == 0 {
        None
    } else if entries[0].key == key {
        Some(entries[0].value)
    } else {
        lookup(entries.skip(1), key)
    }
}

/// Finds the first entry under `key` and hands out its position.
pub fn find_entry(entries: &Vec<TextEntry>, key: &String) -> (r: Option<usize>)
    ensures
        match r {
            Some(i) => i < entries@.len() && entries@[i as int].key@ == key@
                && lookup(entries_view(entries@), key@) == Some(entries@[i as int].value@),
            None => lookup(entries_view(entries@), key@).is_none(),
        },
{
    let ghost all = entries_view(entries@);
    let mut i: usize = 0;
    assert(all.skip(0) =~= all);
    while i < entries.len()
        invariant
            i <= entries@.len(),
            all == entries_view(entries@),
            lookup(all, key@) == lookup(all.skip(i as int), key@),
        decreases entries@.len() - i,
    {
        if entries[i].key == *key {
            return Some(i);
        }
        assert(all.skip(i as int).skip(1) =~= all.skip(i + 1));
        i = i + 1;
    }
    None
}

/// What a request gives for one parameter: the parameter's name and a
/// value, which is text or already a number or a truth value.
#[derive(Clone, Debug, PartialEq, Eq)]
pub struct InputEntry {
    pub name: String,
    pub value: Value,
}

impl View for InputEntry {
    type V = EntryModel;

    /// The name with the raw text of the value: conversion starts from the
    /// text, whatever form the value came in.
    open spec fn view(&self) -> EntryModel {
        EntryModel { key: self.name@, value: render_value(self.value@) }
    }
}

impl InputEntry {
    pub fn new(name: &str, value: Value) -> (e: InputEntry)
        ensures
            e@ == (EntryModel { key: name@, value: render_value(value@) }),
    {
        InputEntry { name: String::from_str(name), value }
    }

    /// An entry whose value is the text `raw`.
    pub fn text(name: &str, raw: &str) -> (e: InputEntry)
        ensures
            e@ == (EntryModel { key: name@, value: raw@ }),
    {
        InputEntry { name: String::from_str(name), value: Value::Text(String::from_str(raw)) }
    }
}

/// The input of a request as names with raw text.
pub open spec fn inputs_view(v: Seq<InputEntry>) -> Seq<EntryModel> {
    v.map_values(|e: InputEntry| e@)
}

/// Finds the first input under `name` and hands out its position.
pub fn find_input(entries: &Vec<InputEntry>, name: &String) -> (r: Option<usize>)
    ensures
        match r {
            Some(i) => i < entries@.len() && entries@[i as int].name@ == name@
                && lookup(inputs_view(entries@), name@) == Some(entries@[i as int]@.value),
            None => lookup(inputs_view(entries@), name@).is_none(),
        },
{
    let ghost all = inputs_view(entries@);
    let mut i: usize = 0;
    assert(all.skip(0) =~= all);
    while i < entries.len()
        invariant
            i <= entries@.len(),
            all == inputs_view(entries@),
            lookup(all, name@) == lookup(all.skip(i as int), name@),
        decreases entries@.len() - i,
    {
        if entries[i].name == *name {
            return Some(i);
        }
        assert(all.skip(i as int).skip(1) =~= all.skip(i + 1));
        i = i + 1;
    }
    None
}

/// A request to call a tool: the call's id, the tool's name and what is
/// given for each parameter, by name.
#[derive(Clone, Debug, PartialEq, Eq)]
pub struct ToolUse {
    pub id: String,
    pub tool_name: String,
    pub input: Vec<InputEntry>,
}

pub ghost struct ToolUseModel {
    pub id: Seq<char>,
    pub tool_name: Seq<char>,
    pub input: Seq<EntryModel>,
}

impl View for ToolUse {
    type V = ToolUseModel;

    open spec fn view(&self) -> ToolUseModel {
        ToolUseModel {
            id: self.id@,
            tool_name: self.tool_name@,
            input: inputs_view(self.input@),
        }
    }
}

impl ToolUse {
    pub fn new(id: &str, tool_name: &str, input: Vec<InputEntry>) -> (u: ToolUse)
        ensures
            u@ == (ToolUseModel {
                id: id@,
                tool_name: tool_name@,
                input: inputs_view(input@),
            }),
    {
        ToolUse { id: String::from_str(id), tool_name: String::from_str(tool_name), input }
    }
}

/// How a call ended, as text.
#[derive(Clone, Debug, PartialEq, Eq)]
pub enum ToolOutcome {
    Success(String),
    Failure(String),
}

pub ghost enum OutcomeModel {
    Success(Seq<char>),
    Failure(Seq<char>),
}

impl View for ToolOutcome {
    type V = OutcomeModel;

    open spec fn view(&self) -> OutcomeModel {
        match self {
            ToolOutcome::Success(t) => OutcomeModel::Success(t@),
            ToolOutcome::Failure(t) => OutcomeModel::Failure(t@),
        }
    }
}

/// The answer to one request, tied to it by the request's id.
#[derive(Clone, Debug, PartialEq, Eq)]
pub struct ToolResult {
    pub tool_use_id: String,
    pub outcome: ToolOutcome,
}

pub ghost struct ResultModel {
    pub tool_use_id: Seq<char>,
    pub outcome: OutcomeModel,
}

impl View for ToolResult {
    type V = ResultModel;

    open spec fn view(&self) -> ResultModel {
        ResultModel { tool_use_id: self.tool_use_id@, outcome: self.outcome@ }
    }
}

/// Why a call was not made.
#[derive(Clone, Debug, PartialEq, Eq)]
pub enum ToolCallError {
    /// The request names another tool.
    NameMismatch,
    /// The request has no value for the named parameter.
    ParameterMissing(String),
    /// The value given for a parameter is not of its type: the parameter's
    /// name, the raw text and the reason.
    ParameterConversionFailed(String, String, String),
}

pub ghost enum CallErrorModel {
    NameMismatch,
    ParameterMissing(Seq<char>),
    ParameterConversionFailed(Seq<char>, Seq<char>, Seq<char>),
}

impl View for ToolCallError {
    type V = CallErrorModel;

    open spec fn view(&self) -> CallErrorModel {
        match self {
            ToolCallError::NameMismatch => CallErrorModel::NameMismatch,
            ToolCallError::ParameterMissing(n) => CallErrorModel::ParameterMissing(n@),
            ToolCallError::ParameterConversionFailed(n, raw, why) =>
                CallErrorModel::ParameterConversionFailed(n@, raw@, why@),
        }
    }
}

} // verus!
