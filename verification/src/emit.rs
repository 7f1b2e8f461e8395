//! The document emitter: the JSON text of a document.
//!
//! The text is compact, with the members of each object in a fixed order.
//! Every field of a component is written, an empty one as `""` or `[]`; the
//! described component of the metadata is the one member that is left out
//! when it is absent. Nothing is ever written as `null`.

use crate::cyclonedx::{Bom, BomModel, Component, ComponentModel, ExternalReference};
use crate::cyclonedx::{ExternalReferenceModel, LicenseChoice, Metadata, MetadataModel};
use crate::cyclonedx::{Tool, ToolModel};
use crate::text::{decimal_text, join_with, lemma_join_push, push_decimal};
use vstd::prelude::*;

verus! {

/// The JSON string literal for a text: the text between double quotes, with
/// the characters escaped that JSON does not take as they are.
pub uninterp spec fn json_string_text(text: Seq<char>) -> Seq<char>;

/// Writes a text as a JSON string literal, by `serde_json::to_string`.
///
/// Trusted: the result is a function of the text alone, and the call does
/// not fail for a `str`, which is written to memory and has no map keys.
#[verifier::external_body]
fn json_string(text: &str) -> (literal: String)
    ensures
        literal@ == json_string_text(text@),
{
    match serde_json::to_string(text) {
        Ok(literal) => literal,
        Err(_) => String::new(),
    }
}

/// A JSON array of elements that are JSON texts already.
pub open spec fn json_array(elements: Seq<Seq<char>>) -> Seq<char> {
    seq!['['] + join_with(elements, ',') + seq![']']
}

/// The JSON object of a license entry.
pub open spec fn json_license(name: Seq<char>) -> Seq<char> {
    "{\"license\":{\"name\":"@ + json_string_text(name) + "}}"@
}

/// The JSON object of an external reference.
pub open spec fn json_reference(reference: ExternalReferenceModel) -> Seq<char> {
    "{\"type\":"@ + json_string_text(reference.reference_type) + ",\"url\":"@ + json_string_text(
        reference.url,
    ) + "}"@
}

/// The JSON objects of license entries, in order.
pub open spec fn json_licenses(names: Seq<Seq<char>>) -> Seq<Seq<char>> {
    names.map_values(|name: Seq<char>| json_license(name))
}

/// The JSON objects of external references, in order.
pub open spec fn json_references(references: Seq<ExternalReferenceModel>) -> Seq<Seq<char>> {
    references.map_values(|reference: ExternalReferenceModel| json_reference(reference))
}

/// The JSON object of a component.
pub open spec fn json_component(component: ComponentModel) -> Seq<char> {
    "{\"type\":"@ + json_string_text(component.component_type) + ",\"group\":"@
        + json_string_text(component.group) + ",\"name\":"@ + json_string_text(component.name)
        + ",\"version\":"@ + json_string_text(component.version) + ",\"description\":"@
        + json_string_text(component.description) + ",\"licenses\":"@ + json_array(
        json_licenses(component.licenses),
    ) + ",\"purl\":"@ + json_string_text(component.purl) + ",\"externalReferences\":"@
        + json_array(json_references(component.external_references)) + "}"@
}

/// The JSON objects of components, in order.
pub open spec fn json_components(components: Seq<ComponentModel>) -> Seq<Seq<char>> {
    components.map_values(|component: ComponentModel| json_component(component))
}

/// The JSON object of a tool.
pub open spec fn json_tool(tool: ToolModel) -> Seq<char> {
    "{\"vendor\":"@ + json_string_text(tool.vendor) + ",\"name\":"@ + json_string_text(tool.name)
        + ",\"version\":"@ + json_string_text(tool.version) + "}"@
}

/// The JSON objects of tools, in order.
pub open spec fn json_tools(tools: Seq<ToolModel>) -> Seq<Seq<char>> {
    tools.map_values(|tool: ToolModel| json_tool(tool))
}

/// The member for the described component: nothing where there is none.
pub open spec fn json_described(component: Option<ComponentModel>) -> Seq<char> {
    match component {
        Some(c) => ",\"component\":"@ + json_component(c),
        None => Seq::empty(),
    }
}

/// The JSON object of the metadata.
pub open spec fn json_metadata(metadata: MetadataModel) -> Seq<char> {
    "{\"timestamp\":"@ + json_string_text(metadata.timestamp) + ",\"tools\":"@ + json_array(
        json_tools(metadata.tools),
    ) + json_described(metadata.component) + "}"@
}

/// The JSON text of a document.
pub open spec fn json_bom(bom: BomModel) -> Seq<char> {
    "{\"bomFormat\":"@ + json_string_text(bom.bom_format) + ",\"specVersion\":"@
        + json_string_text(bom.spec_version) + ",\"serialNumber\":"@ + json_string_text(
        bom.serial_number,
    ) + ",\"version\":"@ + decimal_text(bom.version as nat) + ",\"metadata\":"@ + json_metadata(
        bom.metadata,
    ) + ",\"components\":"@ + json_array(json_components(bom.components)) + "}"@
}

/// Appends `lead`, which ends an object's member name, and `text` as its
/// string value.
fn push_member(out: &mut String, lead: &str, text: &str)
    ensures
        final(out)@ == old(out)@ + lead@ + json_string_text(text@),
{
    out.append(lead);
    let literal = json_string(text);
    out.append(literal.as_str());
}

/// Appends the bracket that opens an array.
fn open_array(out: &mut String)
    ensures
        final(out)@ == old(out)@ + seq!['['],
{
    proof {
        reveal_strlit("[");
    }
    out.append("[");
}

/// Appends the comma before an array's element, unless it is the first.
fn push_separator(out: &mut String, index: usize)
    ensures
        final(out)@ == if index == 0 {
            old(out)@
        } else {
            old(out)@ + seq![',']
        },
{
    if index > 0 {
        proof {
            reveal_strlit(",");
        }
        out.append(",");
    }
}

/// Appends the bracket that closes an array.
fn close_array(out: &mut String)
    ensures
        final(out)@ == old(out)@ + seq![']'],
{
    proof {
        reveal_strlit("]");
    }
    out.append("]");
}

/// What has been written of an array after `done` of its elements.
spec fn array_so_far(before: Seq<char>, elements: Seq<Seq<char>>, done: int) -> Seq<char> {
    before + seq!['['] + join_with(elements.take(done), ',')
}

/// Writing element `done` after the separator it needs continues the array.
proof fn lemma_array_step(before: Seq<char>, elements: Seq<Seq<char>>, done: int)
    requires
        0 <= done < elements.len(),
    ensures
        array_so_far(before, elements, done + 1) == if done == 0 {
            array_so_far(before, elements, done) + elements[done]
        } else {
            array_so_far(before, elements, done) + seq![','] + elements[done]
        },
{
    lemma_join_push(elements.take(done), elements[done], ',');
    assert(elements.take(done + 1) =~= elements.take(done).push(elements[done]));
    if done == 0 {
        assert(array_so_far(before, elements, 1) =~= array_so_far(before, elements, 0)
            + elements[0]);
    } else {
        assert(array_so_far(before, elements, done + 1) =~= array_so_far(before, elements, done)
            + seq![','] + elements[done]);
    }
}

fn push_license(out: &mut String, entry: &LicenseChoice)
    ensures
        final(out)@ == old(out)@ + json_license(entry@),
{
    push_member(out, "{\"license\":{\"name\":", entry.license.name.as_str());
    out.append("}}");
}

fn push_licenses(out: &mut String, entries: &Vec<LicenseChoice>)
    ensures
        final(out)@ == old(out)@ + json_array(json_licenses(entries.deep_view())),
{
    let ghost before = out@;
    let ghost elements = json_licenses(entries.deep_view());
    open_array(out);
    let mut i: usize = 0;
    while i < entries.len()
        invariant
            i <= entries.len(),
            elements == json_licenses(entries.deep_view()),
            out@ == array_so_far(before, elements, i as int),
        decreases entries.len() - i,
    {
        proof {
            lemma_array_step(before, elements, i as int);
        }
        push_separator(out, i);
        push_license(out, &entries[i]);
        i = i + 1;
    }
    close_array(out);
    assert(elements.take(i as int) =~= elements);
}

fn push_reference(out: &mut String, reference: &ExternalReference)
    ensures
        final(out)@ == old(out)@ + json_reference(reference@),
{
    push_member(out, "{\"type\":", reference.reference_type.as_str());
    push_member(out, ",\"url\":", reference.url.as_str());
    out.append("}");
}

fn push_references(out: &mut String, references: &Vec<ExternalReference>)
    ensures
        final(out)@ == old(out)@ + json_array(json_references(references.deep_view())),
{
    let ghost before = out@;
    let ghost elements = json_references(references.deep_view());
    open_array(out);
    let mut i: usize = 0;
    while i < references.len()
        invariant
            i <= references.len(),
            elements == json_references(references.deep_view()),
            out@ == array_so_far(before, elements, i as int),
        decreases references.len() - i,
    {
        proof {
            lemma_array_step(before, elements, i as int);
        }
        push_separator(out, i);
        push_reference(out, &references[i]);
        i = i + 1;
    }
    close_array(out);
    assert(elements.take(i as int) =~= elements);
}

fn push_component(out: &mut String, component: &Component)
    ensures
        final(out)@ == old(out)@ + json_component(component@),
{
    push_member(out, "{\"type\":", component.component_type.as_str());
    push_member(out, ",\"group\":", component.group.as_str());
    push_member(out, ",\"name\":", component.name.as_str());
    push_member(out, ",\"version\":", component.version.as_str());
    push_member(out, ",\"description\":", component.description.as_str());
    out.append(",\"licenses\":");
    push_licenses(out, &component.licenses);
    push_member(out, ",\"purl\":", component.purl.as_str());
    out.append(",\"externalReferences\":");
    push_references(out, &component.external_references);
    out.append("}");
}

fn push_components(out: &mut String, components: &Vec<Component>)
    ensures
        final(out)@ == old(out)@ + json_array(json_components(components.deep_view())),
{
    let ghost before = out@;
    let ghost elements = json_components(components.deep_view());
    open_array(out);
    let mut i: usize = 0;
    while i < components.len()
        invariant
            i <= components.len(),
            elements == json_components(components.deep_view()),
            out@ == array_so_far(before, elements, i as int),
        decreases components.len() - i,
    {
        proof {
            lemma_array_step(before, elements, i as int);
        }
        push_separator(out, i);
        push_component(out, &components[i]);
        i = i + 1;
    }
    close_array(out);
    assert(elements.take(i as int) =~= elements);
}

fn push_tool(out: &mut String, tool: &Tool)
    ensures
        final(out)@ == old(out)@ + json_tool(tool@),
{
    push_member(out, "{\"vendor\":", tool.vendor.as_str());
    push_member(out, ",\"name\":", tool.name.as_str());
    push_member(out, ",\"version\":", tool.version.as_str());
    out.append("}");
}

fn push_tools(out: &mut String, tools: &Vec<Tool>)
    ensures
        final(out)@ == old(out)@ + json_array(json_tools(tools.deep_view())),
{
    let ghost before = out@;
    let ghost elements = json_tools(tools.deep_view());
    open_array(out);
    let mut i: usize = 0;
    while i < tools.len()
        invariant
            i <= tools.len(),
            elements == json_tools(tools.deep_view()),
            out@ == array_so_far(before, elements, i as int),
        decreases tools.len() - i,
    {
        proof {
            lemma_array_step(before, elements, i as int);
        }
        push_separator(out, i);
        push_tool(out, &tools[i]);
        i = i + 1;
    }
    close_array(out);
    assert(elements.take(i as int) =~= elements);
}

fn push_metadata(out: &mut String, metadata: &Metadata)
    ensures
        final(out)@ == old(out)@ + json_metadata(metadata@),
{
    push_member(out, "{\"timestamp\":", metadata.timestamp.as_str());
    out.append(",\"tools\":");
    push_tools(out, &metadata.tools);
    match &metadata.component {
        Some(component) => {
            out.append(",\"component\":");
            push_component(out, component);
        },
        None => {},
    }
    out.append("}");
}

/// Renders the document as JSON text.
pub fn serialize(bom: &Bom) -> (json: String)
    ensures
        json@ == json_bom(bom@),
{
    let mut out = String::new();
    push_member(&mut out, "{\"bomFormat\":", bom.bom_format.as_str());
    push_member(&mut out, ",\"specVersion\":", bom.spec_version.as_str());
    push_member(&mut out, ",\"serialNumber\":", bom.serial_number.as_str());
    out.append(",\"version\":");
    push_decimal(&mut out, bom.version);
    out.append(",\"metadata\":");
    push_metadata(&mut out, &bom.metadata);
    out.append(",\"components\":");
    push_components(&mut out, &bom.components);
    out.append("}");
    out
}

} // verus!
