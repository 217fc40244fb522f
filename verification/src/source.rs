//! Reading a function's declaration from Rust source text. The syntax is
//! parsed by `syn`, once; what it read is collected as plain values, and
//! checked and put in order here.

use vstd::prelude::*;
use vstd::string::*;
use quote::ToTokens;
use crate::adapter::ToolAdapter;
use crate::signature::{
    generate, generated, mode_of, CapabilityError, FunctionDecl, FunctionDeclModel, ParameterDecl,
    ParameterDeclModel,
};
use crate::text::{is_space, is_space_char, push_char, to_chars};

verus! {

#[verifier::external_type_specification]
#[verifier::external_body]
pub struct ExItemFn(syn::ItemFn);

#[verifier::external_type_specification]
#[verifier::external_body]
pub struct ExSynError(syn::Error);

/// An attribute as read from the source: its name where its path is a
/// single identifier, and its text where it has the form `name = "text"`.
#[derive(Clone, Debug, PartialEq, Eq)]
pub struct RawAttribute {
    pub name: Option<String>,
    pub text: Option<String>,
}

/// A parameter as read from the source: its name where it is a plain
/// identifier, and its type as written.
#[derive(Clone, Debug, PartialEq, Eq)]
pub struct RawParameter {
    pub name: Option<String>,
    pub type_text: Option<String>,
}

/// A function as read from the source, with nothing decided yet.
#[derive(Clone, Debug, PartialEq, Eq)]
pub struct RawFunction {
    pub name: String,
    pub attributes: Vec<RawAttribute>,
    pub params: Vec<RawParameter>,
    pub return_type: Option<String>,
    pub suspends: bool,
}

pub ghost struct RawAttributeModel {
    pub name: Option<Seq<char>>,
    pub text: Option<Seq<char>>,
}

pub ghost struct RawParameterModel {
    pub name: Option<Seq<char>>,
    pub type_text: Option<Seq<char>>,
}

pub ghost struct RawFunctionModel {
    pub name: Seq<char>,
    pub attributes: Seq<RawAttributeModel>,
    pub params: Seq<RawParameterModel>,
    pub return_type: Option<Seq<char>>,
    pub suspends: bool,
}

pub open spec fn text_view(t: Option<String>) -> Option<Seq<char>> {
    match t {
        Some(s) => Some(s@),
        None => None,
    }
}

impl View for RawAttribute {
    type V = RawAttributeModel;

    open spec fn view(&self) -> RawAttributeModel {
        RawAttributeModel { name: text_view(self.name), text: text_view(self.text) }
    }
}

impl View for RawParameter {
    type V = RawParameterModel;

    open spec fn view(&self) -> RawParameterModel {
        RawParameterModel { name: text_view(self.name), type_text: text_view(self.type_text) }
    }
}

impl View for RawFunction {
    type V = RawFunctionModel;

    open spec fn view(&self) -> RawFunctionModel {
        RawFunctionModel {
            name: self.name@,
            attributes: self.attributes@.map_values(|a: RawAttribute| a@),
            params: self.params@.map_values(|p: RawParameter| p@),
            return_type: text_view(self.return_type),
            suspends: self.suspends,
        }
    }
}

/// Why source text does not declare a function that can become a tool.
#[derive(Clone, Debug, PartialEq, Eq)]
pub enum DeclarationError {
    /// The text is not one function item; the parser's message.
    Syntax(String),
    /// The parameter at this position is a receiver or a pattern, not a
    /// named value.
    UnsupportedParameter(usize),
}

pub ghost enum DeclarationErrorModel {
    Syntax(Seq<char>),
    UnsupportedParameter(int),
}

impl View for DeclarationError {
    type V = DeclarationErrorModel;

    open spec fn view(&self) -> DeclarationErrorModel {
        match self {
            DeclarationError::Syntax(m) => DeclarationErrorModel::Syntax(m@),
            DeclarationError::UnsupportedParameter(i) => DeclarationErrorModel::UnsupportedParameter(
                *i as int,
            ),
        }
    }
}

/// Why source text did not become a tool.
#[derive(Clone, Debug, PartialEq, Eq)]
pub enum GenerationError {
    Declaration(DeclarationError),
    Capability(CapabilityError),
}

/// Parses `source` as one function item, by `syn::parse_str`. Which texts
/// parse, and how a type in them is spelled afterwards, depends on the lexer
/// in use, which differs inside and outside a procedural macro: nothing is
/// claimed of the item or of the error.
#[verifier::external_body]
fn parse_function(source: &str) -> Result<syn::ItemFn, syn::Error> {
    syn::parse_str::<syn::ItemFn>(source)
}

/// The message of a parse error, by its `Display` impl. Nothing is claimed
/// of its wording.
#[verifier::external_body]
fn syntax_message(error: &syn::Error) -> String {
    error.to_string()
}

/// The function's name: the identifier of its signature, as text.
#[verifier::external_body]
fn function_name(item: &syn::ItemFn) -> String {
    item.sig.ident.to_string()
}

/// Whether the signature carries `async`.
#[verifier::external_body]
fn function_suspends(item: &syn::ItemFn) -> bool {
    item.sig.asyncness.is_some()
}

/// How many attributes the item has; documentation lines are among them.
#[verifier::external_body]
fn attribute_count(item: &syn::ItemFn) -> usize {
    item.attrs.len()
}

/// The name of the attribute at `index`, by `syn::Path::get_ident`: `None`
/// where there is no such attribute or its path is more than one identifier.
#[verifier::external_body]
fn attribute_name(item: &syn::ItemFn, index: usize) -> Option<String> {
    match item.attrs.get(index) {
        Some(attribute) => match attribute.path().get_ident() {
            Some(ident) => Some(ident.to_string()),
            None => None,
        },
        None => None,
    }
}

/// The text of the attribute at `index`, by `syn::LitStr::value`: `None`
/// where there is no such attribute or it is not a name with a string
/// literal as its value.
#[verifier::external_body]
fn attribute_text(item: &syn::ItemFn, index: usize) -> Option<String> {
    match item.attrs.get(index) {
        Some(syn::Attribute { meta: syn::Meta::NameValue(pair), .. }) => match &pair.value {
            syn::Expr::Lit(syn::ExprLit { lit: syn::Lit::Str(text), .. }) => Some(text.value()),
            _ => None,
        },
        _ => None,
    }
}

/// How many parameters the signature declares.
#[verifier::external_body]
fn parameter_count(item: &syn::ItemFn) -> usize {
    item.sig.inputs.len()
}

/// The name of the parameter at `index`: `None` where there is no such
/// parameter, or it is a receiver, or its pattern is not an identifier.
#[verifier::external_body]
fn parameter_name(item: &syn::ItemFn, index: usize) -> Option<String> {
    match item.sig.inputs.iter().nth(index) {
        Some(syn::FnArg::Typed(typed)) => match &*typed.pat {
            syn::Pat::Ident(pattern) => Some(pattern.ident.to_string()),
            _ => None,
        },
        _ => None,
    }
}

/// The type of the parameter at `index`, as the text of its tokens by
/// `quote::ToTokens::to_token_stream`: `None` where there is no such
/// parameter or it is a receiver. The blanks between the tokens are the
/// printer's choice: nothing is claimed of the spelling.
#[verifier::external_body]
fn parameter_type(item: &syn::ItemFn, index: usize) -> Option<String> {
    match item.sig.inputs.iter().nth(index) {
        Some(syn::FnArg::Typed(typed)) => Some(typed.ty.to_token_stream().to_string()),
        _ => None,
    }
}

/// The declared return type, as the text of its tokens by
/// `quote::ToTokens::to_token_stream`: `None` where the signature names
/// none. Nothing is claimed of the spelling.
#[verifier::external_body]
fn declared_return(item: &syn::ItemFn) -> Option<String> {
    match &item.sig.output {
        syn::ReturnType::Type(_, ty) => Some(ty.to_token_stream().to_string()),
        syn::ReturnType::Default => None,
    }
}

/// `s` without its blank characters.
pub open spec fn without_spaces(s: Seq<char>) -> Seq<char>
    decreases s.len(),
{
    if s.len() == 0 {
        Seq::empty()
    } else if is_space(s.last()) {
        without_spaces(s.drop_last())
    } else {
        without_spaces(s.drop_last()).push(s.last())
    }
}

/// The documentation lines among the attributes: the text of each attribute
/// named `doc`, in order.
pub open spec fn doc_lines_of(attributes: Seq<RawAttributeModel>) -> Seq<Seq<char>>
    decreases attributes.len(),
{
    if attributes.len() == 0 {
        Seq::empty()
    } else {
        let a = attributes.last();
        if a.name == Some("doc"@) && a.text.is_some() {
            doc_lines_of(attributes.drop_last()).push(a.text.unwrap())
        } else {
            doc_lines_of(attributes.drop_last())
        }
    }
}

/// The declared parameters, each with its type freed of blanks, or the
/// position of the first that has no name or no type.
pub open spec fn declared_params(params: Seq<RawParameterModel>) -> Result<
    Seq<ParameterDeclModel>,
    DeclarationErrorModel,
>
    decreases params.len(),
{
    if params.len() == 0 {
        Ok(Seq::empty())
    } else {
        match declared_params(params.drop_last()) {
            Err(e) => Err(e),
            Ok(known) => match (params.last().name, params.last().type_text) {
                (Some(name), Some(ty)) => Ok(
                    known.push(ParameterDeclModel { name, type_text: without_spaces(ty) }),
                ),
                _ => Err(DeclarationErrorModel::UnsupportedParameter(params.len() - 1)),
            },
        }
    }
}

/// The declaration that a function read from source stands for. A function
/// without a return type returns `()`.
pub open spec fn declared(raw: RawFunctionModel) -> Result<
    FunctionDeclModel,
    DeclarationErrorModel,
> {
    match declared_params(raw.params) {
        Err(e) => Err(e),
        Ok(params) => Ok(
            FunctionDeclModel {
                name: raw.name,
                doc_lines: doc_lines_of(raw.attributes),
                params,
                return_type: match raw.return_type {
                    Some(t) => without_spaces(t),
                    None => "()"@,
                },
                suspends: raw.suspends,
            },
        ),
    }
}

/// An unnamed parameter among the first `k` decides the outcome for the
/// whole list.
pub proof fn lemma_first_unnamed_decides(params: Seq<RawParameterModel>, k: int)
    requires
        0 <= k <= params.len(),
        declared_params(params.take(k)).is_err(),
    ensures
        declared_params(params) == declared_params(params.take(k)),
    decreases params.len() - k,
{
    if k == params.len() {
        assert(params.take(k) =~= params);
    } else {
        assert(params.drop_last().take(k) =~= params.take(k));
        lemma_first_unnamed_decides(params.drop_last(), k);
    }
}

/// Removes the blanks from a text.
pub fn strip_spaces(text: &str) -> (r: String)
    ensures
        r@ == without_spaces(text@),
{
    let v = to_chars(text);
    let mut r = String::new();
    let mut i: usize = 0;
    assert(v@.take(0) =~= Seq::<char>::empty());
    while i < v.len()
        invariant
            i <= v@.len(),
            v@ == text@,
            r@ == without_spaces(v@.take(i as int)),
        decreases v@.len() - i,
    {
        assert(v@.take(i + 1).drop_last() =~= v@.take(i as int));
        if !is_space_char(v[i]) {
            push_char(&mut r, v[i]);
        }
        i = i + 1;
    }
    assert(v@.take(i as int) =~= v@);
    r
}

fn is_doc_name(name: &Option<String>) -> (r: bool)
    ensures
        r == (text_view(*name) == Some("doc"@)),
{
    match name {
        Some(n) => {
            let v = to_chars(n.as_str());
            let len: usize = v.len();
            assert(v@.subrange(0, len as int) =~= n@);
            crate::text::range_equals(&v, 0, len, "doc")
        },
        None => false,
    }
}

/// Decides what a function read from source declares.
pub fn declare(raw: &RawFunction) -> (r: Result<FunctionDecl, DeclarationError>)
    ensures
        match (r, declared(raw@)) {
            (Ok(d), Ok(m)) => d@ == m,
            (Err(e), Err(m)) => e@ == m,
            _ => false,
        },
{
    let ghost all = raw@.params;
    let mut params: Vec<ParameterDecl> = Vec::new();
    let mut i: usize = 0;
    assert(all.take(0) =~= Seq::<RawParameterModel>::empty());
    assert(crate::signature::decls_view(params@) =~= Seq::<ParameterDeclModel>::empty());
    while i < raw.params.len()
        invariant
            i <= raw.params@.len(),
            all == raw@.params,
            declared_params(all.take(i as int)) == Ok::<
                Seq<ParameterDeclModel>,
                DeclarationErrorModel,
            >(crate::signature::decls_view(params@)),
        decreases raw.params@.len() - i,
    {
        let p: &RawParameter = &raw.params[i];
        let ghost before = crate::signature::decls_view(params@);
        proof {
            assert(all.take(i + 1).drop_last() =~= all.take(i as int));
            assert(all.take(i + 1).last() == p@);
        }
        match (&p.name, &p.type_text) {
            (Some(name), Some(ty)) => {
                let decl = ParameterDecl { name: name.clone(), type_text: strip_spaces(ty.as_str()) };
                params.push(decl);
                assert(crate::signature::decls_view(params@) =~= before.push(decl@));
            },
            _ => {
                proof {
                    lemma_first_unnamed_decides(all, i + 1);
                }
                return Err(DeclarationError::UnsupportedParameter(i));
            },
        }
        i = i + 1;
    }
    assert(all.take(i as int) =~= all);
    let ghost attributes = raw@.attributes;
    let mut doc_lines: Vec<String> = Vec::new();
    let mut k: usize = 0;
    assert(attributes.take(0) =~= Seq::<RawAttributeModel>::empty());
    assert(crate::docs::lines_view(doc_lines@) =~= Seq::<Seq<char>>::empty());
    while k < raw.attributes.len()
        invariant
            k <= raw.attributes@.len(),
            attributes == raw@.attributes,
            crate::docs::lines_view(doc_lines@) == doc_lines_of(attributes.take(k as int)),
        decreases raw.attributes@.len() - k,
    {
        let a: &RawAttribute = &raw.attributes[k];
        let ghost before = crate::docs::lines_view(doc_lines@);
        proof {
            assert(attributes.take(k + 1).drop_last() =~= attributes.take(k as int));
            assert(attributes.take(k + 1).last() == a@);
        }
        if is_doc_name(&a.name) {
            match &a.text {
                Some(text) => {
                    doc_lines.push(text.clone());
                    assert(crate::docs::lines_view(doc_lines@) =~= before.push(text@));
                },
                None => {},
            }
        }
        k = k + 1;
    }
    assert(attributes.take(k as int) =~= attributes);
    let return_type = match &raw.return_type {
        Some(t) => strip_spaces(t.as_str()),
        None => String::from_str("()"),
    };
    Ok(
        FunctionDecl {
            name: raw.name.clone(),
            doc_lines,
            params,
            return_type,
            suspends: raw.suspends,
        },
    )
}

/// Reads a function from source text: parses it once and collects its
/// name, its attributes, its parameters and its return type as the parser
/// hands them out. What is read is the parser's word; the only error is a
/// syntax error, with the parser's message.
pub fn read_function(source: &str) -> (r: Result<RawFunction, DeclarationError>)
    ensures
        r matches Err(e) ==> e is Syntax,
{
    let item = match parse_function(source) {
        Ok(item) => item,
        Err(error) => {
            return Err(DeclarationError::Syntax(syntax_message(&error)));
        },
    };
    let mut attributes: Vec<RawAttribute> = Vec::new();
    let count: usize = attribute_count(&item);
    let mut i: usize = 0;
    while i < count
        invariant
            i <= count,
        decreases count - i,
    {
        attributes.push(
            RawAttribute { name: attribute_name(&item, i), text: attribute_text(&item, i) },
        );
        i = i + 1;
    }
    let mut params: Vec<RawParameter> = Vec::new();
    let arity: usize = parameter_count(&item);
    let mut k: usize = 0;
    while k < arity
        invariant
            k <= arity,
        decreases arity - k,
    {
        params.push(
            RawParameter { name: parameter_name(&item, k), type_text: parameter_type(&item, k) },
        );
        k = k + 1;
    }
    Ok(
        RawFunction {
            name: function_name(&item),
            attributes,
            params,
            return_type: declared_return(&item),
            suspends: function_suspends(&item),
        },
    )
}

/// Whether `r` is what a function read from source becomes: the error of
/// its declaration, or what its declaration generates.
pub open spec fn is_outcome_of(raw: RawFunctionModel, r: Result<ToolAdapter, GenerationError>) -> bool {
    match declared(raw) {
        Err(m) => r matches Err(GenerationError::Declaration(e)) && e@ == m,
        Ok(d) => match generated(d.name, d.doc_lines, d.params, d.return_type) {
            Err(m) => r matches Err(GenerationError::Capability(e)) && e@ == m,
            Ok(m) => r matches Ok(tool) && tool.wf() && tool.definition@ == m.0 && tool.types@
                == m.1 && tool.shape == m.2 && tool.mode == mode_of(d.suspends),
        },
    }
}

/// Makes a tool of a function read from source, or says why it is none.
pub fn tool_from_raw(raw: &RawFunction) -> (r: Result<ToolAdapter, GenerationError>)
    ensures
        is_outcome_of(raw@, r),
{
    match declare(raw) {
        Err(e) => Err(GenerationError::Declaration(e)),
        Ok(decl) => match generate(&decl) {
            Err(e) => Err(GenerationError::Capability(e)),
            Ok(tool) => Ok(tool),
        },
    }
}

/// Makes a tool of the function that `source` declares. Whatever the
/// parser read: either it refused the text, or the result is what some
/// function read from source becomes, as `tool_from_raw` decides it.
pub fn clust_tool(source: &str) -> (r: Result<ToolAdapter, GenerationError>)
    ensures
        (r matches Err(GenerationError::Declaration(DeclarationError::Syntax(_)))) || exists|
            raw: RawFunction,
        | is_outcome_of(raw@, r),
        r matches Ok(tool) ==> tool.wf(),
{
    match read_function(source) {
        Err(e) => Err(GenerationError::Declaration(e)),
        Ok(raw) => tool_from_raw(&raw),
    }
}

} // verus!
