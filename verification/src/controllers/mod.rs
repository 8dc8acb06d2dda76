//! The rules that the requests to the listing are held to.

pub mod categories;
pub mod servers;
pub mod versions;

use crate::error::{AppError, NOT_FOUND};
use crate::text::{contains_name, lowercase, texts, to_lowercase};
use vstd::prelude::*;

verus! {

/// The lower-case form of each name, in the same order.
pub fn lowercase_names(names: &[String]) -> (lowered: Vec<String>)
    ensures
        lowered.len() == names.len(),
        forall|i: int| 0 <= i < names.len() ==> (#[trigger] lowered[i])@ == lowercase(names[i]@),
{
    let mut lowered: Vec<String> = Vec::new();
    let mut i: usize = 0;
    while i < names.len()
        invariant
            i <= names.len(),
            lowered.len() == i,
            forall|k: int| 0 <= k < i ==> (#[trigger] lowered[k])@ == lowercase(names[k]@),
        decreases names.len() - i,
    {
        lowered.push(to_lowercase(names[i].as_str()));
        i += 1;
    }
    lowered
}

/// Some name of `existing` differs from `name` at most in the case of its
/// letters.
pub open spec fn taken(existing: Seq<String>, name: Seq<char>) -> bool {
    exists|i: int| 0 <= i < existing.len() && lowercase(#[trigger] existing[i]@) == lowercase(name)
}

/// Whether `name` is in use already, the case of letters set aside.
pub fn name_taken(existing: &[String], name: &str) -> (found: bool)
    ensures
        found == taken(existing@, name@),
{
    let lowered = lowercase_names(existing);
    let wanted = to_lowercase(name);
    let found = contains_name(lowered.as_slice(), wanted.as_str());
    proof {
        if !found {
            assert forall|i: int| 0 <= i < existing.len() implies lowercase(
                #[trigger] existing[i]@,
            ) != lowercase(name@) by {
                assert(texts(lowered@)[i] == lowered[i]@);
            }
        }
    }
    found
}

/// How a stored row is looked up: by its id, or by its name where the
/// request gives no id.
#[derive(Debug)]
pub enum Lookup {
    ById(i32),
    ByName(String),
}

/// The lookup that a request with this id and name asks for.
pub fn lookup(id: Option<i32>, name: &str) -> (by: Lookup)
    ensures
        match id {
            Some(id) => by == Lookup::ById(id),
            None => by matches Lookup::ByName(n) && n@ == name@,
        },
{
    match id {
        Some(id) => Lookup::ById(id),
        None => Lookup::ByName(name.to_owned()),
    }
}

/// Hands on what the lookup found, or reports with `message` that nothing
/// was there.
pub fn found_or<T>(found: Option<T>, message: &str) -> (checked: Result<T, AppError>)
    ensures
        match found {
            Some(row) => checked == Ok::<T, AppError>(row),
            None => checked matches Err(e) && e.is_response(NOT_FOUND, message@),
        },
{
    match found {
        Some(row) => Ok(row),
        None => Err(AppError::not_found(message)),
    }
}

} // verus!
