//! Object paths: the hierarchical names that address objects on the bus.

use crate::text::str_equal;
use vstd::prelude::*;

verus! {

/// A character that may appear inside one element of an object path.
pub open spec fn is_path_name_char(c: char) -> bool {
    ('a' <= c && c <= 'z') || ('A' <= c && c <= 'Z') || ('0' <= c && c <= '9') || c == '_'
}

/// The bus grammar of object paths: `/`, or `/` followed by non-empty
/// `/`-separated elements made of ASCII letters, digits and `_`.
pub open spec fn is_object_path(s: Seq<char>) -> bool {
    &&& s.len() >= 1
    &&& s[0] == '/'
    &&& forall|i: int| 0 <= i < s.len() ==> is_path_name_char(#[trigger] s[i]) || s[i] == '/'
    &&& forall|i: int| 1 <= i < s.len() && #[trigger] s[i] == '/' ==> s[i - 1] != '/'
    &&& s.len() > 1 ==> s[s.len() - 1] != '/'
}

/// Relies on zvariant's `ObjectPath::try_from(&str)`, which accepts a string
/// exactly when it follows the object-path grammar above.
#[verifier::external_body]
fn bus_accepts_path(s: &str) -> (r: bool)
    ensures
        r == is_object_path(s@),
{
    zvariant::ObjectPath::try_from(s).is_ok()
}

/// The string is not a well-formed object path.
#[derive(Debug, Clone, Copy, PartialEq, Eq)]
pub struct InvalidPath;

/// A well-formed object path.
#[derive(Debug)]
pub struct ObjectPath {
    text: String,
}

impl View for ObjectPath {
    type V = Seq<char>;

    closed spec fn view(&self) -> Seq<char> {
        self.text@
    }
}

impl ObjectPath {
    #[verifier::type_invariant]
    closed spec fn inv(&self) -> bool {
        is_object_path(self.text@)
    }

    /// Checks `s` against the grammar and keeps it when it conforms.
    pub fn parse(s: &str) -> (r: Result<ObjectPath, InvalidPath>)
        ensures
            r is Ok <==> is_object_path(s@),
            r matches Ok(p) ==> p@ == s@,
    {
        if bus_accepts_path(s) {
            Ok(ObjectPath { text: s.to_string() })
        } else {
            Err(InvalidPath)
        }
    }

    /// Checks an owned string against the grammar.
    pub fn from_string(s: String) -> (r: Result<ObjectPath, InvalidPath>)
        ensures
            r is Ok <==> is_object_path(s@),
            r matches Ok(p) ==> p@ == s@,
    {
        if bus_accepts_path(s.as_str()) {
            Ok(ObjectPath { text: s })
        } else {
            Err(InvalidPath)
        }
    }

    pub fn as_str(&self) -> (r: &str)
        ensures
            r@ == self@,
    {
        self.text.as_str()
    }

    /// A second path equal to this one.
    pub fn duplicate(&self) -> (r: ObjectPath)
        ensures
            r@ == self@,
    {
        proof {
            use_type_invariant(self);
        }
        ObjectPath { text: self.text.clone() }
    }

    /// Whether both paths name the same object.
    pub fn same_as(&self, other: &ObjectPath) -> (r: bool)
        ensures
            r == (self@ == other@),
    {
        str_equal(self.text.as_str(), other.text.as_str())
    }
}

} // verus!
