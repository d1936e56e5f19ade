//! Values that have a JSON document.

use crate::json::{json_clone, json_object, json_of, object_insert, object_new, object_of, Json};
use crate::string_map::StringMap;
use vstd::prelude::*;

verus! {

/// A value that has a JSON document and can be turned into the
/// `serde_json::Value` that holds it.
pub trait ToJson {
    /// The document that this value stands for.
    spec fn document(&self) -> Json;

    /// Builds the JSON value that holds `document()`.
    fn to_json(&self) -> (value: serde_json::Value)
        ensures
            json_of(value) == self.document(),
    ;
}

/// A property value is already JSON: it is handed on as it is.
impl ToJson for serde_json::Value {
    open spec fn document(&self) -> Json {
        json_of(*self)
    }

    fn to_json(&self) -> (value: serde_json::Value) {
        json_clone(self)
    }
}

/// A borrowed value has the document of what it borrows.
impl<'a, T: ToJson> ToJson for &'a T {
    open spec fn document(&self) -> Json {
        (**self).document()
    }

    fn to_json(&self) -> (value: serde_json::Value) {
        (**self).to_json()
    }
}

/// A map becomes the JSON object with the same keys, each value replaced by
/// its own document.
impl<V: ToJson> ToJson for StringMap<V> {
    open spec fn document(&self) -> Json {
        Json::Object(self@.map_values(|value: V| value.document()))
    }

    fn to_json(&self) -> (value: serde_json::Value) {
        let mut object = object_new();
        let count = self.len();
        let mut i: usize = 0;
        while i < count
            invariant
                count == self.keys().len(),
                self@.dom() == self.keys().to_set(),
                i <= count,
                forall|key: Seq<char>| #[trigger]
                    object_of(object).contains_key(key) <==> exists|j: int|
                        0 <= j < i && self.keys()[j] == key,
                forall|key: Seq<char>| #[trigger]
                    object_of(object).contains_key(key) ==> object_of(object)[key]
                        == self@[key].document(),
            decreases count - i,
        {
            if let Some((key, value)) = self.entry(i) {
                object_insert(&mut object, key.clone(), value.to_json());
            }
            i += 1;
        }
        proof {
            assert forall|key: Seq<char>| self@.contains_key(key) implies exists|j: int|
                0 <= j < count && self.keys()[j] == key by {
                assert(self.keys().to_set().contains(key));
            }
            assert(object_of(object) =~= self@.map_values(|value: V| value.document()));
        }
        json_object(object)
    }
}

} // verus!
