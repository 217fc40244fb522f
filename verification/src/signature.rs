//! From a function's declaration to a tool: the shape of what it returns,
//! the check that each of its types can be parsed or rendered, and the
//! definition built from its parameters and its documentation.

use vstd::prelude::*;
use vstd::string::*;
use crate::adapter::{ExecutionMode, ReturnShape, ToolAdapter};
use crate::capability::{type_of_name, ValueType};
use crate::docs::{argument_docs_of, description_of, extract_docs, lines_view, DocInfo};
use crate::model::{
    entries_view, find_entry, lookup, EntryModel, ParameterDefinition, ParameterModel, TextEntry,
    ToolDefinition, ToolModel,
};
use crate::text::{has_prefix, range_starts_with, text_of, trim, trimmed_chars, trimmed_text};

verus! {

/// A declared parameter: its name and its type as written.
#[derive(Clone, Debug, PartialEq, Eq)]
pub struct ParameterDecl {
    pub name: String,
    pub type_text: String,
}

pub ghost struct ParameterDeclModel {
    pub name: Seq<char>,
    pub type_text: Seq<char>,
}

impl View for ParameterDecl {
    type V = ParameterDeclModel;

    open spec fn view(&self) -> ParameterDeclModel {
        ParameterDeclModel { name: self.name@, type_text: self.type_text@ }
    }
}

impl ParameterDecl {
    pub fn new(name: &str, type_text: &str) -> (p: ParameterDecl)
        ensures
            p@ == (ParameterDeclModel { name: name@, type_text: type_text@ }),
    {
        ParameterDecl { name: String::from_str(name), type_text: String::from_str(type_text) }
    }
}

/// A function as declared: its name, the lines of its documentation, its
/// parameters in order, its return type as written and whether it suspends.
#[derive(Clone, Debug, PartialEq, Eq)]
pub struct FunctionDecl {
    pub name: String,
    pub doc_lines: Vec<String>,
    pub params: Vec<ParameterDecl>,
    pub return_type: String,
    pub suspends: bool,
}

pub ghost struct FunctionDeclModel {
    pub name: Seq<char>,
    pub doc_lines: Seq<Seq<char>>,
    pub params: Seq<ParameterDeclModel>,
    pub return_type: Seq<char>,
    pub suspends: bool,
}

impl View for FunctionDecl {
    type V = FunctionDeclModel;

    open spec fn view(&self) -> FunctionDeclModel {
        FunctionDeclModel {
            name: self.name@,
            doc_lines: lines_view(self.doc_lines@),
            params: decls_view(self.params@),
            return_type: self.return_type@,
            suspends: self.suspends,
        }
    }
}

/// The parameters as plain values.
pub open spec fn decls_view(s: Seq<ParameterDecl>) -> Seq<ParameterDeclModel> {
    s.map_values(|p: ParameterDecl| p@)
}

/// The types named in a return type: one, or those of a success and of a
/// failure.
#[derive(Clone, Debug, PartialEq, Eq)]
pub enum ReturnText {
    Plain(String),
    Outcome(String, String),
}

pub ghost enum ReturnTextModel {
    Plain(Seq<char>),
    Outcome(Seq<char>, Seq<char>),
}

impl View for ReturnText {
    type V = ReturnTextModel;

    open spec fn view(&self) -> ReturnTextModel {
        match self {
            ReturnText::Plain(t) => ReturnTextModel::Plain(t@),
            ReturnText::Outcome(s, f) => ReturnTextModel::Outcome(s@, f@),
        }
    }
}

/// Why a function cannot become a tool.
#[derive(Clone, Debug, PartialEq, Eq)]
pub enum CapabilityError {
    /// The type of the named parameter cannot be parsed from text.
    ParameterNotParsable(String, String),
    /// The named type, returned by the function, cannot be rendered to text.
    ReturnNotRenderable(String),
}

pub ghost enum CapabilityErrorModel {
    ParameterNotParsable(Seq<char>, Seq<char>),
    ReturnNotRenderable(Seq<char>),
}

impl View for CapabilityError {
    type V = CapabilityErrorModel;

    open spec fn view(&self) -> CapabilityErrorModel {
        match self {
            CapabilityError::ParameterNotParsable(n, t) => CapabilityErrorModel::ParameterNotParsable(
                n@,
                t@,
            ),
            CapabilityError::ReturnNotRenderable(t) => CapabilityErrorModel::ReturnNotRenderable(t@),
        }
    }
}

pub open spec fn is_opener(c: char) -> bool {
    c == '<' || c == '(' || c == '['
}

pub open spec fn is_closer(c: char) -> bool {
    c == '>' || c == ')' || c == ']'
}

/// The position of the first comma at or after `i` that stands inside no
/// bracket, when `depth` brackets are open at `i`.
pub open spec fn split_point(s: Seq<char>, i: int, depth: int) -> Option<int>
    decreases s.len() - i,
{
    if i < 0 || i >= s.len() {
        None
    } else if s[i] == ',' && depth == 0 {
        Some(i)
    } else if is_opener(s[i]) {
        split_point(s, i + 1, depth + 1)
    } else if is_closer(s[i]) {
        split_point(s, i + 1, depth - 1)
    } else {
        split_point(s, i + 1, depth)
    }
}

/// The shape of a return type: `Result<S, F>` is an outcome with the
/// success type `S` and the failure type `F`; anything else is plain.
pub open spec fn return_shape_of(text: Seq<char>) -> ReturnTextModel {
    let t = trim(text);
    if has_prefix(t, seq!['R', 'e', 's', 'u', 'l', 't', '<']) && t.last() == '>' {
        let inner = t.subrange(7, t.len() - 1);
        match split_point(inner, 0, 0) {
            Some(k) => ReturnTextModel::Outcome(trim(inner.take(k)), trim(inner.skip(k + 1))),
            None => ReturnTextModel::Plain(t),
        }
    } else {
        ReturnTextModel::Plain(t)
    }
}

/// The type of each parameter, or the first parameter whose type the
/// registry does not know.
pub open spec fn parameter_types(params: Seq<ParameterDeclModel>) -> Result<
    Seq<ValueType>,
    CapabilityErrorModel,
>
    decreases params.len(),
{
    if params.len() == 0 {
        Ok(Seq::empty())
    } else {
        match parameter_types(params.drop_last()) {
            Err(e) => Err(e),
            Ok(types) => match type_of_name(params.last().type_text) {
                Some(ty) => Ok(types.push(ty)),
                None => Err(
                    CapabilityErrorModel::ParameterNotParsable(
                        params.last().name,
                        params.last().type_text,
                    ),
                ),
            },
        }
    }
}

/// The types of what is returned, or the first of them that the registry
/// does not know.
pub open spec fn return_types(shape: ReturnTextModel) -> Result<ReturnShape, CapabilityErrorModel> {
    match shape {
        ReturnTextModel::Plain(t) => match type_of_name(t) {
            Some(ty) => Ok(ReturnShape::Plain(ty)),
            None => Err(CapabilityErrorModel::ReturnNotRenderable(t)),
        },
        ReturnTextModel::Outcome(s, f) => match type_of_name(s) {
            None => Err(CapabilityErrorModel::ReturnNotRenderable(s)),
            Some(success) => match type_of_name(f) {
                None => Err(CapabilityErrorModel::ReturnNotRenderable(f)),
                Some(failure) => Ok(ReturnShape::Outcome(success, failure)),
            },
        },
    }
}

pub open spec fn mode_of(suspends: bool) -> ExecutionMode {
    if suspends {
        ExecutionMode::Suspending
    } else {
        ExecutionMode::Immediate
    }
}

/// The descriptor's entry for a declared parameter: its description is the
/// one documented under its name, or empty.
pub open spec fn parameter_of(p: ParameterDeclModel, arg_docs: Seq<EntryModel>) -> ParameterModel {
    ParameterModel {
        name: p.name,
        type_label: p.type_text,
        description: match lookup(arg_docs, p.name) {
            Some(d) => d,
            None => Seq::empty(),
        },
    }
}

/// The definition of a tool: the declared parameters in their order, each
/// with the description found under its name.
pub open spec fn definition_of(
    name: Seq<char>,
    description: Seq<char>,
    arg_docs: Seq<EntryModel>,
    params: Seq<ParameterDeclModel>,
) -> ToolModel {
    ToolModel {
        name,
        description,
        parameters: params.map_values(|p: ParameterDeclModel| parameter_of(p, arg_docs)),
    }
}

/// Tells the shape of a return type from its text.
pub fn analyze_return(text: &str) -> (r: ReturnText)
    ensures
        r@ == return_shape_of(text@),
{
    let t = trimmed_chars(text);
    let n: usize = t.len();
    proof {
        reveal_strlit("Result<");
        assert("Result<"@ =~= seq!['R', 'e', 's', 'u', 'l', 't', '<']);
        assert(t@.subrange(0, n as int) =~= t@);
    }
    if !range_starts_with(&t, 0, n, "Result<") || t[n - 1] != '>' {
        return ReturnText::Plain(text_of(&t, 0, n));
    }
    assert(t@.take(7)[6] == '<');
    let ghost inner = t@.subrange(7, n - 1);
    let mut i: usize = 7;
    let mut depth: i128 = 0;
    while i < n - 1
        invariant
            7 <= i <= n - 1,
            n == t@.len(),
            t@ == trim(text@),
            has_prefix(t@, seq!['R', 'e', 's', 'u', 'l', 't', '<']),
            t@.last() == '>',
            inner == t@.subrange(7, n - 1),
            -(i as int) <= depth <= i as int,
            split_point(inner, 0, 0) == split_point(inner, i - 7, depth as int),
        decreases n - i,
    {
        let c = t[i];
        assert(inner[i - 7] == c);
        if c == ',' && depth == 0 {
            let success = trimmed_text(&t, 7, i);
            let failure = trimmed_text(&t, i + 1, n - 1);
            assert(t@.subrange(7, i as int) =~= inner.take(i - 7));
            assert(t@.subrange(i + 1, n - 1) =~= inner.skip(i - 7 + 1));
            return ReturnText::Outcome(success, failure);
        }
        if c == '<' || c == '(' || c == '[' {
            depth = depth + 1;
        } else if c == '>' || c == ')' || c == ']' {
            depth = depth - 1;
        }
        i = i + 1;
    }
    ReturnText::Plain(text_of(&t, 0, n))
}

/// Checks that the type of each parameter can be parsed from text.
pub fn validate_parameters(params: &Vec<ParameterDecl>) -> (r: Result<
    Vec<ValueType>,
    CapabilityError,
>)
    ensures
        match (r, parameter_types(decls_view(params@))) {
            (Ok(types), Ok(m)) => types@ == m && m.len() == params@.len(),
            (Err(e), Err(m)) => e@ == m,
            _ => false,
        },
{
    let ghost all = decls_view(params@);
    let mut types: Vec<ValueType> = Vec::new();
    let mut i: usize = 0;
    assert(all.take(0) =~= Seq::<ParameterDeclModel>::empty());
    while i < params.len()
        invariant
            i <= params@.len(),
            all == decls_view(params@),
            types@.len() == i,
            parameter_types(all.take(i as int)) == Ok::<Seq<ValueType>, CapabilityErrorModel>(
                types@,
            ),
        decreases params@.len() - i,
    {
        let p: &ParameterDecl = &params[i];
        proof {
            assert(all.take(i + 1).drop_last() =~= all.take(i as int));
            assert(all.take(i + 1).last() == p@);
        }
        match ValueType::from_name(p.type_text.as_str()) {
            None => {
                proof {
                    lemma_first_unknown_decides(all, i + 1);
                }
                return Err(
                    CapabilityError::ParameterNotParsable(p.name.clone(), p.type_text.clone()),
                );
            },
            Some(ty) => {
                types.push(ty);
            },
        }
        i = i + 1;
    }
    assert(all.take(i as int) =~= all);
    Ok(types)
}

/// A parameter of unknown type among the first `k` decides the outcome for
/// the whole list.
pub proof fn lemma_first_unknown_decides(params: Seq<ParameterDeclModel>, k: int)
    requires
        0 <= k <= params.len(),
        parameter_types(params.take(k)).is_err(),
    ensures
        parameter_types(params) == parameter_types(params.take(k)),
    decreases params.len() - k,
{
    if k == params.len() {
        assert(params.take(k) =~= params);
    } else {
        assert(params.drop_last().take(k) =~= params.take(k));
        lemma_first_unknown_decides(params.drop_last(), k);
    }
}

/// Checks that what is returned can be rendered to text.
pub fn validate_return(shape: &ReturnText) -> (r: Result<ReturnShape, CapabilityError>)
    ensures
        match (r, return_types(shape@)) {
            (Ok(s), Ok(m)) => s == m,
            (Err(e), Err(m)) => e@ == m,
            _ => false,
        },
{
    match shape {
        ReturnText::Plain(t) => match ValueType::from_name(t.as_str()) {
            Some(ty) => Ok(ReturnShape::Plain(ty)),
            None => Err(CapabilityError::ReturnNotRenderable(t.clone())),
        },
        ReturnText::Outcome(s, f) => match ValueType::from_name(s.as_str()) {
            None => Err(CapabilityError::ReturnNotRenderable(s.clone())),
            Some(success) => match ValueType::from_name(f.as_str()) {
                None => Err(CapabilityError::ReturnNotRenderable(f.clone())),
                Some(failure) => Ok(ReturnShape::Outcome(success, failure)),
            },
        },
    }
}

/// Builds the definition of a tool from its name, what its documentation
/// says and its declared parameters.
pub fn build_definition(name: &str, docs: &DocInfo, params: &Vec<ParameterDecl>) -> (d:
    ToolDefinition)
    ensures
        d@ == definition_of(
            name@,
            docs.description@,
            entries_view(docs.arg_docs@),
            decls_view(params@),
        ),
{
    let ghost arg_docs = entries_view(docs.arg_docs@);
    let ghost all = decls_view(params@);
    let mut parameters: Vec<ParameterDefinition> = Vec::new();
    let mut i: usize = 0;
    while i < params.len()
        invariant
            i <= params@.len(),
            all == decls_view(params@),
            arg_docs == entries_view(docs.arg_docs@),
            parameters@.len() == i,
            forall|j: int|
                0 <= j < i ==> (#[trigger] parameters@[j])@ == parameter_of(all[j], arg_docs),
        decreases params@.len() - i,
    {
        let p: &ParameterDecl = &params[i];
        let description = match find_entry(&docs.arg_docs, &p.name) {
            Some(k) => docs.arg_docs[k].value.clone(),
            None => String::new(),
        };
        parameters.push(
            ParameterDefinition {
                name: p.name.clone(),
                type_label: p.type_text.clone(),
                description,
            },
        );
        i = i + 1;
    }
    let d = ToolDefinition {
        name: String::from_str(name),
        description: docs.description.clone(),
        parameters,
    };
    assert(d@.parameters =~= all.map_values(|p: ParameterDeclModel| parameter_of(p, arg_docs)));
    d
}

/// What the analysis of a declaration finds: the parameters in their order,
/// the shape of what is returned and how the function runs.
#[derive(Clone, Debug, PartialEq, Eq)]
pub struct Signature {
    pub params: Vec<ParameterDecl>,
    pub return_shape: ReturnText,
    pub mode: ExecutionMode,
}

/// Analyzes a declaration. Any number of parameters is in order, none too.
pub fn analyze(decl: &FunctionDecl) -> (s: Signature)
    ensures
        decls_view(s.params@) == decls_view(decl.params@),
        s.return_shape@ == return_shape_of(decl.return_type@),
        s.mode == mode_of(decl.suspends),
{
    let mut params: Vec<ParameterDecl> = Vec::new();
    let mut i: usize = 0;
    while i < decl.params.len()
        invariant
            i <= decl.params@.len(),
            params@.len() == i,
            decls_view(params@) == decls_view(decl.params@).take(i as int),
        decreases decl.params@.len() - i,
    {
        let p: &ParameterDecl = &decl.params[i];
        let ghost before = decls_view(params@);
        params.push(ParameterDecl { name: p.name.clone(), type_text: p.type_text.clone() });
        assert(decls_view(params@) =~= before.push(p@));
        i = i + 1;
        assert(decls_view(params@) =~= decls_view(decl.params@).take(i as int));
    }
    assert(decls_view(decl.params@).take(i as int) =~= decls_view(decl.params@));
    let mode = if decl.suspends {
        ExecutionMode::Suspending
    } else {
        ExecutionMode::Immediate
    };
    Signature { params, return_shape: analyze_return(decl.return_type.as_str()), mode }
}

/// The types that an analyzed function takes and gives, or the error of the
/// first type that cannot be parsed or rendered, parameters before the
/// return type.
pub open spec fn validated(params: Seq<ParameterDeclModel>, shape: ReturnTextModel) -> Result<
    (Seq<ValueType>, ReturnShape),
    CapabilityErrorModel,
> {
    match parameter_types(params) {
        Err(e) => Err(e),
        Ok(types) => match return_types(shape) {
            Err(e) => Err(e),
            Ok(s) => Ok((types, s)),
        },
    }
}

/// Checks that each parameter can be parsed from text and that what is
/// returned can be rendered to text.
pub fn validate(signature: &Signature) -> (r: Result<(Vec<ValueType>, ReturnShape), CapabilityError>)
    ensures
        match (r, validated(decls_view(signature.params@), signature.return_shape@)) {
            (Ok(found), Ok(m)) => found.0@ == m.0 && found.1 == m.1 && m.0.len()
                == signature.params@.len(),
            (Err(e), Err(m)) => e@ == m,
            _ => false,
        },
{
    let types = match validate_parameters(&signature.params) {
        Err(e) => {
            return Err(e);
        },
        Ok(types) => types,
    };
    match validate_return(&signature.return_shape) {
        Err(e) => Err(e),
        Ok(shape) => Ok((types, shape)),
    }
}

/// What a declaration becomes: the error of the first type that cannot be
/// parsed or rendered, parameters before the return type, or the tool.
pub open spec fn generated(
    name: Seq<char>,
    doc_lines: Seq<Seq<char>>,
    params: Seq<ParameterDeclModel>,
    return_type: Seq<char>,
) -> Result<(ToolModel, Seq<ValueType>, ReturnShape), CapabilityErrorModel> {
    match parameter_types(params) {
        Err(e) => Err(e),
        Ok(types) => match return_types(return_shape_of(return_type)) {
            Err(e) => Err(e),
            Ok(shape) => Ok(
                (
                    definition_of(
                        name,
                        description_of(doc_lines),
                        argument_docs_of(doc_lines),
                        params,
                    ),
                    types,
                    shape,
                ),
            ),
        },
    }
}

/// Makes a tool of a declared function, or says which of its types keeps it
/// from being one.
pub fn generate(decl: &FunctionDecl) -> (r: Result<ToolAdapter, CapabilityError>)
    ensures
        match (
            r,
            generated(
                decl.name@,
                lines_view(decl.doc_lines@),
                decls_view(decl.params@),
                decl.return_type@,
            ),
        ) {
            (Ok(tool), Ok(m)) => tool.wf() && tool.definition@ == m.0 && tool.types@ == m.1
                && tool.shape == m.2 && tool.mode == mode_of(decl.suspends),
            (Err(e), Err(m)) => e@ == m,
            _ => false,
        },
{
    let signature = analyze(decl);
    let (types, shape) = match validate(&signature) {
        Err(e) => {
            return Err(e);
        },
        Ok(found) => found,
    };
    let docs = extract_docs(&decl.doc_lines);
    let definition = build_definition(decl.name.as_str(), &docs, &signature.params);
    assert(definition@.parameters.len() == definition.parameters@.len());
    Ok(ToolAdapter { definition, types, shape, mode: signature.mode })
}

/// The definition lists the declared parameters in their order, each under
/// its own name, wherever and in whatever order the documentation speaks
/// of them.
pub proof fn lemma_definition_keeps_order(
    name: Seq<char>,
    description: Seq<char>,
    arg_docs: Seq<EntryModel>,
    params: Seq<ParameterDeclModel>,
)
    ensures
        definition_of(name, description, arg_docs, params).parameters.len() == params.len(),
        forall|i: int|
            0 <= i < params.len() ==> {
                let p = #[trigger] definition_of(name, description, arg_docs, params).parameters[i];
                p.name == params[i].name && p.type_label == params[i].type_text
            },
{
}

/// A function without parameters becomes a tool without parameters.
pub proof fn lemma_no_parameters_declared(
    name: Seq<char>,
    description: Seq<char>,
    arg_docs: Seq<EntryModel>,
)
    ensures
        definition_of(name, description, arg_docs, Seq::empty()).parameters.len() == 0,
        parameter_types(Seq::empty()) == Ok::<Seq<ValueType>, CapabilityErrorModel>(Seq::empty()),
{
}

/// A parameter that the documentation does not speak of has an empty
/// description; one that it speaks of has the text of the first item under
/// its name.
pub proof fn lemma_description_goes_by_name(p: ParameterDeclModel, arg_docs: Seq<EntryModel>)
    ensures
        lookup(arg_docs, p.name).is_none() ==> parameter_of(p, arg_docs).description
            == Seq::<char>::empty(),
        forall|text: Seq<char>|
            lookup(arg_docs, p.name) == Some(text) ==> parameter_of(p, arg_docs).description
                == text,
{
}

} // verus!
