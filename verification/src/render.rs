//! From a graph to its JSON text.

use crate::document::ToJson;
use crate::failure::Failure;
use crate::graph::{
    exposes, filter, filtered, graph_document, FilteredGraph, InterfaceSet, ManagedObjectGraph,
    Objects, PropertyMap,
};
use crate::json::{empty_object_text, json_of, json_text, json_to_string, Entries};
use vstd::prelude::*;

verus! {

/// Whether two sets of objects have the same shape: the same paths, under
/// each path the same interface names, under each name the same property
/// names, and under each property name values that hold the same document.
pub open spec fn same_shape(a: Objects, b: Objects) -> bool {
    &&& a.dom() == b.dom()
    &&& forall|path: Seq<char>| #[trigger]
        a.contains_key(path) ==> same_interfaces(a[path], b[path])
}

/// Whether two interface sets have the same names, and under each name the
/// same property names with values that hold the same document.
pub open spec fn same_interfaces(a: InterfaceSet, b: InterfaceSet) -> bool {
    &&& a@.dom() == b@.dom()
    &&& forall|name: Seq<char>| #[trigger]
        a@.contains_key(name) ==> {
            &&& a@[name]@.dom() == b@[name]@.dom()
            &&& forall|property: Seq<char>| #[trigger]
                a@[name]@.contains_key(property) ==> json_of(a@[name]@[property]) == json_of(
                    b@[name]@[property],
                )
        }
}

/// Nothing of a graph's shape is lost in its document: sets of objects with
/// the same document have the same shape.
pub proof fn document_keeps_shape(a: Objects, b: Objects)
    requires
        graph_document(a) == graph_document(b),
    ensures
        same_shape(a, b),
{
    let of_a = a.map_values(|interfaces: InterfaceSet| interfaces.document());
    let of_b = b.map_values(|interfaces: InterfaceSet| interfaces.document());
    assert(a.dom() =~= of_a.dom());
    assert(b.dom() =~= of_b.dom());
    assert forall|path: Seq<char>| #[trigger] a.contains_key(path) implies same_interfaces(
        a[path],
        b[path],
    ) by {
        assert(of_a[path] == a[path].document());
        assert(of_b[path] == b[path].document());
        lemma_document_keeps_interfaces(a[path], b[path]);
    }
}

/// Interface sets with the same document have the same names and, under
/// each, the same properties.
proof fn lemma_document_keeps_interfaces(a: InterfaceSet, b: InterfaceSet)
    requires
        a.document() == b.document(),
    ensures
        same_interfaces(a, b),
{
    let of_a = a@.map_values(|properties: PropertyMap| properties.document());
    let of_b = b@.map_values(|properties: PropertyMap| properties.document());
    assert(a@.dom() =~= of_a.dom());
    assert(b@.dom() =~= of_b.dom());
    assert forall|name: Seq<char>| #[trigger] a@.contains_key(name) implies {
        &&& a@[name]@.dom() == b@[name]@.dom()
        &&& forall|property: Seq<char>| #[trigger]
            a@[name]@.contains_key(property) ==> json_of(a@[name]@[property]) == json_of(
                b@[name]@[property],
            )
    } by {
        assert(of_a[name] == a@[name].document());
        assert(of_b[name] == b@[name].document());
        let in_a = a@[name]@.map_values(|value: serde_json::Value| value.document());
        let in_b = b@[name]@.map_values(|value: serde_json::Value| value.document());
        assert(a@[name]@.dom() =~= in_a.dom());
        assert(b@[name]@.dom() =~= in_b.dom());
        assert forall|property: Seq<char>| #[trigger]
            a@[name]@.contains_key(property) implies json_of(a@[name]@[property]) == json_of(
            b@[name]@[property],
        ) by {
            assert(in_a[property] == json_of(a@[name]@[property]));
            assert(in_b[property] == json_of(b@[name]@[property]));
        }
    }
}

/// Turns what the JSON writer handed back into the outcome of this crate:
/// the text as it is, an error as a serialization failure.
pub fn written_or_failure(
    written: Result<String, serde_json::Error>,
) -> (outcome: Result<String, Failure>)
    ensures
        written matches Ok(text) ==> (outcome matches Ok(same) && same == text),
        written matches Err(error) ==> (outcome matches Err(Failure::Serialization(same)) && same
            == error),
{
    match written {
        Ok(text) => Ok(text),
        Err(error) => Err(Failure::from(error)),
    }
}

/// Writes what a filter kept as one line of compact JSON, without the line
/// end. The text is the one that the JSON writer gives for the document of
/// the kept objects; where the writer reports an error, so does this
/// function. If nothing was kept the text is `{}`.
pub fn serialize(kept: &FilteredGraph) -> (outcome: Result<String, Failure>)
    ensures
        outcome matches Ok(text) ==> json_text(graph_document(kept@)) == Some(text@),
        outcome matches Err(failure) ==> json_text(graph_document(kept@)) is None,
        outcome matches Err(failure) ==> failure is Serialization,
        (forall|path: Seq<char>| !kept@.contains_key(path)) ==> (outcome matches Ok(text) && text@
            == empty_object_text()),
{
    let value = kept.to_json();
    proof {
        if forall|path: Seq<char>| !kept@.contains_key(path) {
            assert(kept@.map_values(|interfaces: InterfaceSet| interfaces.document())
                =~= Entries::empty());
        }
    }
    written_or_failure(json_to_string(&value))
}

/// Filters `graph` for the objects that expose `interface` and writes them
/// as one line of compact JSON, without the line end. A graph without
/// objects, and one in which no object exposes the interface, give `{}`.
pub fn render(graph: &ManagedObjectGraph, interface: &str) -> (outcome: Result<String, Failure>)
    ensures
        outcome matches Ok(text) ==> json_text(graph_document(filtered(graph@, interface@)))
            == Some(text@),
        outcome matches Err(failure) ==> json_text(graph_document(filtered(graph@, interface@)))
            is None,
        outcome matches Err(failure) ==> failure is Serialization,
        graph@ == Objects::empty() ==> (outcome matches Ok(text) && text@ == empty_object_text()),
        (forall|path: Seq<char>| !exposes(graph@, path, interface@)) ==> (outcome matches Ok(text)
            && text@ == empty_object_text()),
{
    let kept = filter(graph, interface);
    serialize(&kept)
}

} // verus!
