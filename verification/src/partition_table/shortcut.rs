//! Partition type shortcuts.
use vstd::prelude::*;

verus! {

/// A partition type's shortcut representation.
#[derive(Debug)]
pub struct Shortcut {
    alias: String,
    shortcut: String,
    type_string: String,
    alias_deprecated: bool,
}

impl Shortcut {
    /// The partition type's string alias.
    pub closed spec fn alias_text(&self) -> Seq<char> {
        self.alias@
    }

    /// The partition type's shortcut.
    pub closed spec fn shortcut_text(&self) -> Seq<char> {
        self.shortcut@
    }

    /// The partition type's string representation.
    pub closed spec fn type_text(&self) -> Seq<char> {
        self.type_string@
    }

    /// Whether the alias is deprecated.
    pub closed spec fn deprecated(&self) -> bool {
        self.alias_deprecated
    }

    /// Creates a `Shortcut`.
    pub fn new(alias: String, shortcut: String, type_string: String, alias_deprecated: bool) -> (s:
        Shortcut)
        ensures
            s.alias_text() == alias@,
            s.shortcut_text() == shortcut@,
            s.type_text() == type_string@,
            s.deprecated() == alias_deprecated,
    {
        Shortcut { alias, shortcut, type_string, alias_deprecated }
    }

    /// Returns a partition type's string alias.
    pub fn alias(&self) -> (a: &str)
        ensures
            a@ == self.alias_text(),
    {
        self.alias.as_str()
    }

    /// Returns a partition type's shortcut representation.
    pub fn shortcut(&self) -> (s: &str)
        ensures
            s@ == self.shortcut_text(),
    {
        self.shortcut.as_str()
    }

    /// Returns a partition type's string representation.
    pub fn type_string(&self) -> (t: &str)
        ensures
            t@ == self.type_text(),
    {
        self.type_string.as_str()
    }

    /// Returns `true` when this `Shortcut` has a deprecated alias value.
    pub fn has_alias_deprecated(&self) -> (b: bool)
        ensures
            b == self.deprecated(),
    {
        self.alias_deprecated
    }
    /// Reads the outcome of a shortcut query for a supported partition type: status `0` hands
    /// out a shortcut, status `2` one whose alias is deprecated, any other status none.
    pub fn from_lookup(status: i32, alias: String, shortcut: String, type_string: String) -> (r:
        Option<Shortcut>)
        ensures
            r is Some <==> (status == 0 || status == 2),
            r matches Some(s) ==> {
                &&& s.alias_text() == alias@
                &&& s.shortcut_text() == shortcut@
                &&& s.type_text() == type_string@
                &&& s.deprecated() == (status == 2)
            },
    {
        if status == 0 || status == 2 {
            Some(Shortcut::new(alias, shortcut, type_string, status == 2))
        } else {
            None
        }
    }
}

} // verus!
