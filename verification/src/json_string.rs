//! A marker for values whose wire form is their JSON text carried inside a
//! string. The search endpoints use it for identifier lists: the `ids`
//! parameter holds the JSON array text of base-62 identifier strings, built
//! by `crate::endpoints::ids_json_string`.

use vstd::prelude::*;

verus! {

/// Wraps a value that travels as JSON text inside a string.
#[derive(Clone, Debug, PartialEq, Eq, Hash)]
pub struct JsonString<T>(pub T);

impl<T> JsonString<T> {
    /// Wraps a value.
    pub fn new(value: T) -> (r: Self)
        ensures
            r.0 == value,
    {
        JsonString(value)
    }

    /// Takes the wrapped value back out.
    pub fn into_inner(self) -> (r: T)
        ensures
            r == self.0,
    {
        self.0
    }
}

} // verus!
