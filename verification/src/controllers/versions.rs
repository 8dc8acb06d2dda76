//! The game versions that servers are listed for.

use crate::controllers::{lookup, name_taken, taken, Lookup};
use crate::error::{AppError, CONFLICT};
use vstd::prelude::*;

verus! {

/// A game version: its name and the number of its protocol.
#[derive(Debug)]
pub struct Version {
    pub name: String,
    pub protocol: i32,
}

/// What is to change of the version with this id. A field that is not
/// given stays as it is.
#[derive(Debug)]
pub struct UpdateVersion {
    pub id: i32,
    pub name: Option<String>,
    pub protocol: Option<i32>,
}

/// The version to be removed: by its id, or by its name where no id is
/// given.
#[derive(Debug)]
pub struct DeleteVersion {
    pub id: Option<i32>,
    pub name: String,
}

impl Version {
    /// Accepts the version if none of its name exists, the case of letters
    /// set aside.
    pub fn check_new(&self, existing: &[String]) -> (checked: Result<(), AppError>)
        ensures
            checked is Ok <==> !taken(existing@, self.name@),
            checked matches Err(e) ==> e.is_response(CONFLICT, "Version already exists"@),
    {
        if name_taken(existing, self.name.as_str()) {
            Err(AppError::conflict("Version already exists"))
        } else {
            Ok(())
        }
    }
}

impl UpdateVersion {
    /// The stored version after the update.
    pub fn apply(&self, stored: Version) -> (updated: Version)
        ensures
            updated.name@ == match self.name {
                Some(name) => name@,
                None => stored.name@,
            },
            updated.protocol == match self.protocol {
                Some(protocol) => protocol,
                None => stored.protocol,
            },
    {
        let Version { name, protocol } = stored;
        Version {
            name: match &self.name {
                Some(new_name) => new_name.clone(),
                None => name,
            },
            protocol: match self.protocol {
                Some(new_protocol) => new_protocol,
                None => protocol,
            },
        }
    }
}

impl DeleteVersion {
    /// How the version to be removed is looked up.
    pub fn lookup(&self) -> (by: Lookup)
        ensures
            match self.id {
                Some(id) => by == Lookup::ById(id),
                None => by matches Lookup::ByName(n) && n@ == self.name@,
            },
    {
        lookup(self.id, self.name.as_str())
    }
}

} // verus!
