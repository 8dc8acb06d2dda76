//! The categories that servers are listed under.

use crate::controllers::{lookup, name_taken, taken, Lookup};
use vstd::prelude::*;

verus! {

/// A category to be added.
#[derive(Debug)]
pub struct Category {
    pub name: String,
}

/// The category to be removed: by its id, or by its name where no id is
/// given.
#[derive(Debug)]
pub struct DeleteCategory {
    pub id: Option<i32>,
    pub name: String,
}

impl Category {
    /// Whether a category of this name exists already, the case of letters
    /// set aside.
    pub fn exists_among(&self, existing: &[String]) -> (found: bool)
        ensures
            found == taken(existing@, self.name@),
    {
        name_taken(existing, self.name.as_str())
    }
}

impl DeleteCategory {
    /// How the category to be removed is looked up.
    pub fn lookup(&self) -> (by: Lookup)
        ensures
            match self.id {
                Some(id) => by == Lookup::ById(id),
                None => by matches Lookup::ByName(n) && n@ == self.name@,
            },
    {
        lookup(self.id, self.name.as_str())
    }
}

} // verus!
