//! The object graph that a service reports, and the filter that keeps the
//! objects exposing one interface.

use crate::document::ToJson;
use crate::json::Json;
use crate::string_map::StringMap;
use vstd::prelude::*;

verus! {

/// The properties of one interface: property name to value. The values are
/// carried as they are and never looked into.
pub type PropertyMap = StringMap<serde_json::Value>;

/// The interfaces of one object: interface name to properties.
pub type InterfaceSet = StringMap<PropertyMap>;

/// Everything a service exposes: object path to interfaces.
pub type ManagedObjectGraph = StringMap<InterfaceSet>;

/// The objects of a graph, path to interfaces, as a mathematical map.
pub type Objects = Map<Seq<char>, InterfaceSet>;

/// Whether the object at `path` is in the graph and has `interface` among
/// the names of its interfaces. Names are compared as they are: case
/// matters, and a longer or shorter name is another name.
pub open spec fn exposes(objects: Objects, path: Seq<char>, interface: Seq<char>) -> bool {
    objects.contains_key(path) && objects[path]@.contains_key(interface)
}

/// The objects that expose `interface`, each with all of its interfaces.
pub open spec fn filtered(objects: Objects, interface: Seq<char>) -> Objects {
    Map::new(|path: Seq<char>| exposes(objects, path, interface), |path: Seq<char>| objects[path])
}

/// The part of a graph that a filter kept: read-only, and borrowing the
/// interface sets of the graph it was taken from. Its view is the kept
/// objects, path to interfaces.
#[derive(Debug)]
pub struct FilteredGraph<'a> {
    kept: StringMap<&'a InterfaceSet>,
}

impl<'a> View for FilteredGraph<'a> {
    type V = Objects;

    closed spec fn view(&self) -> Objects {
        self.kept@.map_values(|interfaces: &InterfaceSet| *interfaces)
    }
}

impl<'a> FilteredGraph<'a> {
    /// The kept paths, in the order in which the graph listed them.
    pub closed spec fn paths(self) -> Seq<Seq<char>> {
        self.kept.keys()
    }

    /// The number of kept objects. Each kept path is listed once in `paths()`.
    pub fn len(&self) -> (count: usize)
        ensures
            count == self.paths().len(),
            count == self@.len(),
            self@.dom().finite(),
            self.paths().no_duplicates(),
            self@.dom() == self.paths().to_set(),
    {
        let count = self.kept.len();
        assert(self@.dom() =~= self.kept@.dom());
        count
    }

    /// Whether nothing was kept.
    pub fn is_empty(&self) -> (empty: bool)
        ensures
            empty == (self@ == Objects::empty()),
    {
        let count = self.len();
        proof {
            if count == 0 {
                assert(self@ =~= Objects::empty());
            } else {
                assert(self@.contains_key(self.paths()[0]));
            }
        }
        count == 0
    }

    /// The interfaces of the object kept under `path`, if it was kept.
    pub fn get(&self, path: &str) -> (found: Option<&'a InterfaceSet>)
        ensures
            found is Some <==> self@.contains_key(path@),
            found matches Some(interfaces) ==> *interfaces == self@[path@],
    {
        match self.kept.get(path) {
            Some(interfaces) => Some(*interfaces),
            None => None,
        }
    }

    /// The object at position `i` of `paths()`: its path and its
    /// interfaces. `None` from the number of kept objects on.
    pub fn entry(&self, i: usize) -> (found: Option<(&String, &'a InterfaceSet)>)
        ensures
            found is Some <==> i < self.paths().len(),
            found matches Some((path, interfaces)) ==> path@ == self.paths()[i as int],
            found matches Some((path, interfaces)) ==> self@.contains_key(path@) && *interfaces
                == self@[path@],
    {
        match self.kept.entry(i) {
            Some((path, interfaces)) => Some((path, *interfaces)),
            None => None,
        }
    }
}

/// The JSON object for a set of objects: each path maps to the object for
/// the interfaces at that path, each interface name to the object for its
/// properties, each property name to the property's value.
pub open spec fn graph_document(objects: Objects) -> Json {
    Json::Object(objects.map_values(|interfaces: InterfaceSet| interfaces.document()))
}

/// What a filter kept becomes the JSON object of the kept objects.
impl<'a> ToJson for FilteredGraph<'a> {
    open spec fn document(&self) -> Json {
        graph_document(self@)
    }

    fn to_json(&self) -> (value: serde_json::Value) {
        let value = self.kept.to_json();
        proof {
            assert(self.kept.document()->Object_0 =~= graph_document(self@)->Object_0);
        }
        value
    }
}

/// The paths, in their order, whose objects expose `interface`.
pub open spec fn exposing_paths(
    paths: Seq<Seq<char>>,
    objects: Objects,
    interface: Seq<char>,
) -> Seq<Seq<char>> {
    paths.filter(|path: Seq<char>| exposes(objects, path, interface))
}

/// Taking one more path into account appends it if its object exposes the
/// interface, and changes nothing otherwise.
proof fn lemma_exposing_paths_step(
    paths: Seq<Seq<char>>,
    objects: Objects,
    interface: Seq<char>,
    i: int,
)
    requires
        0 <= i < paths.len(),
    ensures
        exposes(objects, paths[i], interface) ==> exposing_paths(paths.take(i + 1), objects, interface)
            == exposing_paths(paths.take(i), objects, interface).push(paths[i]),
        !exposes(objects, paths[i], interface) ==> exposing_paths(
            paths.take(i + 1),
            objects,
            interface,
        ) == exposing_paths(paths.take(i), objects, interface),
{
    reveal(Seq::filter);
    assert(paths.take(i + 1).drop_last() =~= paths.take(i));
}

/// Keeps the objects that expose `interface`, in the order in which the
/// graph lists them. An object that is kept keeps every interface it has,
/// not only the one asked for.
pub fn filter<'a>(graph: &'a ManagedObjectGraph, interface: &str) -> (kept: FilteredGraph<'a>)
    ensures
        kept@ == filtered(graph@, interface@),
        kept.paths() == exposing_paths(graph.keys(), graph@, interface@),
{
    let mut kept: StringMap<&'a InterfaceSet> = StringMap::new();
    let count = graph.len();
    let mut i: usize = 0;
    proof {
        reveal(Seq::filter);
    }
    while i < count
        invariant
            count == graph.keys().len(),
            graph@.dom() == graph.keys().to_set(),
            graph.keys().no_duplicates(),
            i <= count,
            forall|path: Seq<char>| #[trigger]
                kept@.contains_key(path) <==> exposes(graph@, path, interface@) && exists|j: int|
                    0 <= j < i && graph.keys()[j] == path,
            forall|path: Seq<char>| #[trigger] kept@.contains_key(path) ==> *kept@[path] == graph@[path],
            kept.keys() == exposing_paths(graph.keys().take(i as int), graph@, interface@),
        decreases count - i,
    {
        proof {
            lemma_exposing_paths_step(graph.keys(), graph@, interface@, i as int);
        }
        if let Some((path, interfaces)) = graph.entry(i) {
            if interfaces.contains_key(interface) {
                kept.insert(path.clone(), interfaces);
            }
        }
        i += 1;
    }
    let kept = FilteredGraph { kept };
    proof {
        assert forall|path: Seq<char>| exposes(graph@, path, interface@) implies exists|j: int|
            0 <= j < count && graph.keys()[j] == path by {
            assert(graph.keys().to_set().contains(path));
        }
        assert(kept@ =~= filtered(graph@, interface@));
        assert(graph.keys().take(count as int) =~= graph.keys());
    }
    kept
}

/// Soundness: every object that the filter keeps exposes the interface.
pub proof fn filter_is_sound(graph: ManagedObjectGraph, interface: Seq<char>, path: Seq<char>)
    requires
        filtered(graph@, interface).contains_key(path),
    ensures
        graph@.contains_key(path),
        graph@[path]@.contains_key(interface),
{
}

/// Completeness: every object of the graph that exposes the interface is
/// kept, with its whole interface set unchanged.
pub proof fn filter_is_complete(graph: ManagedObjectGraph, interface: Seq<char>, path: Seq<char>)
    requires
        graph@.contains_key(path),
        graph@[path]@.contains_key(interface),
    ensures
        filtered(graph@, interface).contains_key(path),
        filtered(graph@, interface)[path] == graph@[path],
{
}

/// The filter adds nothing: each path it keeps is a path of the graph, and
/// maps to what it mapped to there.
pub proof fn filter_is_part_of_graph(graph: ManagedObjectGraph, interface: Seq<char>)
    ensures
        filtered(graph@, interface).dom().subset_of(graph@.dom()),
        filtered(graph@, interface).submap_of(graph@),
{
}

/// Filtering twice for the same interface keeps what the first pass kept.
pub proof fn filter_is_idempotent(graph: ManagedObjectGraph, interface: Seq<char>)
    ensures
        filtered(filtered(graph@, interface), interface) == filtered(graph@, interface),
{
    assert(filtered(filtered(graph@, interface), interface) =~= filtered(graph@, interface));
}

/// A graph in which no object exposes the interface is filtered to nothing;
/// the graph without objects is one such.
pub proof fn filter_without_match_is_empty(graph: ManagedObjectGraph, interface: Seq<char>)
    requires
        forall|path: Seq<char>| graph@.contains_key(path) ==> !graph@[path]@.contains_key(interface),
    ensures
        filtered(graph@, interface) == Objects::empty(),
{
    assert(filtered(graph@, interface) =~= Objects::empty());
}

} // verus!
