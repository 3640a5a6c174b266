//! Menu items.
use vstd::prelude::*;

verus! {

/// An item in a menu prompt.
#[derive(Debug)]
pub struct MenuItem {
    name: String,
    description: String,
    key_code: i32,
}

impl MenuItem {
    /// The item's name.
    pub closed spec fn name_text(&self) -> Seq<char> {
        self.name@
    }

    /// The item's description.
    pub closed spec fn description_text(&self) -> Seq<char> {
        self.description@
    }

    /// The item's key code.
    pub closed spec fn key(&self) -> i32 {
        self.key_code
    }

    /// Creates a `MenuItem`.
    pub fn new(name: String, description: String, key_code: i32) -> (m: MenuItem)
        ensures
            m.name_text() == name@,
            m.description_text() == description@,
            m.key() == key_code,
    {
        MenuItem { name, description, key_code }
    }

    /// Returns the item's name.
    pub fn name(&self) -> (n: &str)
        ensures
            n@ == self.name_text(),
    {
        self.name.as_str()
    }

    /// Returns the item's description.
    pub fn description(&self) -> (d: &str)
        ensures
            d@ == self.description_text(),
    {
        self.description.as_str()
    }

    /// Returns the item's key code.
    pub fn key_code(&self) -> (k: i32)
        ensures
            k == self.key(),
    {
        self.key_code
    }
    /// Reads the outcome of a query for a menu item: status `0` hands out the item, any other
    /// status (past the last item, or a failure) none.
    pub fn from_lookup(status: i32, name: String, description: String, key_code: i32) -> (r:
        Option<MenuItem>)
        ensures
            r is Some <==> status == 0,
            r matches Some(m) ==> {
                &&& m.name_text() == name@
                &&& m.description_text() == description@
                &&& m.key() == key_code
            },
    {
        if status == 0 {
            Some(MenuItem::new(name, description, key_code))
        } else {
            None
        }
    }
}

} // verus!
