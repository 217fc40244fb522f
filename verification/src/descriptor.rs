//! Rendering a tool's definition as its textual descriptor.

use vstd::prelude::*;
use vstd::string::*;
use crate::model::{ParameterDefinition, ParameterModel, ToolDefinition, ToolModel};

verus! {

/// The descriptor's element for one parameter.
pub open spec fn render_parameter(p: ParameterModel) -> Seq<char> {
    "    <parameter>\n      <name>"@ + p.name + "</name>\n      <type>"@ + p.type_label
        + "</type>\n      <description>"@ + p.description
        + "</description>\n    </parameter>\n"@
}

/// The elements of the parameters, one after the other, in their order.
pub open spec fn render_parameters(ps: Seq<ParameterModel>) -> Seq<char>
    decreases ps.len(),
{
    if ps.len() == 0 {
        Seq::empty()
    } else {
        render_parameters(ps.drop_last()) + render_parameter(ps.last())
    }
}

/// The parameters block: empty where the tool takes nothing.
pub open spec fn render_parameters_block(ps: Seq<ParameterModel>) -> Seq<char> {
    if ps.len() == 0 {
        "  <parameters></parameters>\n"@
    } else {
        "  <parameters>\n"@ + render_parameters(ps) + "  </parameters>\n"@
    }
}

/// The whole descriptor of a tool.
pub open spec fn render_definition(d: ToolModel) -> Seq<char> {
    "<tool_description>\n  <tool_name>"@ + d.name + "</tool_name>\n  <description>"@
        + d.description + "</description>\n"@ + render_parameters_block(d.parameters)
        + "</tool_description>"@
}

fn parameter_text(p: &ParameterDefinition) -> (s: String)
    ensures
        s@ == render_parameter(p@),
{
    let mut s = String::from_str("    <parameter>\n      <name>");
    s.append(p.name.as_str());
    s.append("</name>\n      <type>");
    s.append(p.type_label.as_str());
    s.append("</type>\n      <description>");
    s.append(p.description.as_str());
    s.append("</description>\n    </parameter>\n");
    s
}

fn parameters_block_text(ps: &Vec<ParameterDefinition>) -> (s: String)
    ensures
        s@ == render_parameters_block(ps@.map_values(|p: ParameterDefinition| p@)),
{
    let ghost models = ps@.map_values(|p: ParameterDefinition| p@);
    if ps.len() == 0 {
        return String::from_str("  <parameters></parameters>\n");
    }
    let mut body = String::new();
    let mut i: usize = 0;
    while i < ps.len()
        invariant
            i <= ps@.len(),
            models == ps@.map_values(|p: ParameterDefinition| p@),
            body@ == render_parameters(models.take(i as int)),
        decreases ps@.len() - i,
    {
        let one = parameter_text(&ps[i]);
        body.append(one.as_str());
        assert(models.take(i + 1).drop_last() =~= models.take(i as int));
        i = i + 1;
    }
    assert(models.take(i as int) =~= models);
    let mut s = String::from_str("  <parameters>\n");
    s.append(body.as_str());
    s.append("  </parameters>\n");
    s
}

impl ToolDefinition {
    /// Renders the descriptor. The text depends on the definition's contents
    /// alone, so rendering again gives the same text.
    pub fn render(&self) -> (s: String)
        ensures
            s@ == render_definition(self@),
    {
        let mut s = String::from_str("<tool_description>\n  <tool_name>");
        s.append(self.name.as_str());
        s.append("</tool_name>\n  <description>");
        s.append(self.description.as_str());
        s.append("</description>\n");
        let block = parameters_block_text(&self.parameters);
        s.append(block.as_str());
        s.append("</tool_description>");
        s
    }
}

/// A tool without parameters renders an empty parameters block.
pub proof fn lemma_no_parameters_block_is_empty(d: ToolModel)
    requires
        d.parameters.len() == 0,
    ensures
        render_parameters_block(d.parameters) == "  <parameters></parameters>\n"@,
{
}

/// Each parameter's element follows those of the parameters declared before
/// it: the rendering of a list ends with the element of its last parameter.
pub proof fn lemma_parameters_render_in_order(ps: Seq<ParameterModel>, p: ParameterModel)
    ensures
        render_parameters(ps.push(p)) == render_parameters(ps) + render_parameter(p),
{
    assert(ps.push(p).drop_last() =~= ps);
}

} // verus!
