//! Listed servers, and what is asked of a server before it is listed.

use crate::controllers::{name_taken, taken};
use crate::error::{AppError, BAD_REQUEST, CONFLICT};
use crate::text::{contains_name, join, joined, texts};
use vstd::prelude::*;
use vstd::string::StringExecFns;

verus! {

/// The number of listed servers at which no further one is accepted.
pub const SERVER_LIMIT: usize = 3;

/// What a user sends to list a server.
#[derive(Debug)]
pub struct ServerData {
    pub name: String,
    pub description: String,
    pub address: String,
    pub port: u16,
    pub categories: Vec<String>,
    pub min_version: String,
    pub max_version: String,
}

/// A category as a listed server shows it.
#[derive(Debug)]
pub struct Category {
    pub id: i32,
    pub name: String,
}

/// A listed server as it is shown.
#[derive(Debug)]
pub struct Server {
    pub id: i32,
    pub address: String,
    pub name: String,
    pub min_version: String,
    pub max_version: String,
    pub is_premium: i32,
    pub user_id: i32,
    pub description: String,
    pub created_at: String,
    pub categories: Vec<Category>,
}

/// The flag that a stored number stands for: every number but 0 means yes.
pub fn int_to_bool(value: i32) -> (flag: bool)
    ensures
        flag == (value != 0),
{
    value != 0
}

impl Server {
    /// Whether the server is shown as a premium one.
    pub fn premium(&self) -> (flag: bool)
        ensures
            flag == (self.is_premium != 0),
    {
        int_to_bool(self.is_premium)
    }
}

/// The texts of `v1` that are not among `v2`, each once, in the order in
/// which `v1` first has them.
pub open spec fn only_in(v1: Seq<Seq<char>>, v2: Seq<Seq<char>>) -> Seq<Seq<char>>
    decreases v1.len(),
{
    if v1.len() == 0 {
        v1
    } else {
        let earlier = only_in(v1.drop_last(), v2);
        if v2.contains(v1.last()) || earlier.contains(v1.last()) {
            earlier
        } else {
            earlier.push(v1.last())
        }
    }
}

/// `only_in` holds no text twice, and holds a text exactly when `v1` has it
/// and `v2` has not: as a set it is the difference of the two.
pub proof fn lemma_only_in_is_set_difference(v1: Seq<Seq<char>>, v2: Seq<Seq<char>>)
    ensures
        only_in(v1, v2).no_duplicates(),
        forall|x: Seq<char>| #[trigger]
            only_in(v1, v2).contains(x) <==> v1.contains(x) && !v2.contains(x),
        only_in(v1, v2).to_set() == v1.to_set().difference(v2.to_set()),
    decreases v1.len(),
{
    if v1.len() > 0 {
        let earlier = only_in(v1.drop_last(), v2);
        lemma_only_in_is_set_difference(v1.drop_last(), v2);
        let last = v1.last();
        assert forall|x: Seq<char>| #[trigger]
            only_in(v1, v2).contains(x) <==> v1.contains(x) && !v2.contains(x) by {
            if v1.contains(x) {
                let i = choose|i: int| 0 <= i < v1.len() && v1[i] == x;
                if i < v1.len() - 1 {
                    assert(v1.drop_last()[i] == x);
                }
            }
            if !(v2.contains(last) || earlier.contains(last)) {
                assert(earlier.push(last).last() == last);
                if earlier.contains(x) {
                    let i = choose|i: int| 0 <= i < earlier.len() && earlier[i] == x;
                    assert(earlier.push(last)[i] == x);
                }
            }
        }
    }
}

/// The names of `v1` that are not among `v2`, each once.
pub fn vect_difference(v1: &[String], v2: &[String]) -> (only: Vec<String>)
    ensures
        texts(only@) == only_in(texts(v1@), texts(v2@)),
        texts(only@).no_duplicates(),
        texts(only@).to_set() == texts(v1@).to_set().difference(texts(v2@).to_set()),
{
    let mut only: Vec<String> = Vec::new();
    let mut i: usize = 0;
    while i < v1.len()
        invariant
            i <= v1.len(),
            texts(only@) == only_in(texts(v1@).take(i as int), texts(v2@)),
        decreases v1.len() - i,
    {
        assert(texts(v1@).take(i + 1).drop_last() == texts(v1@).take(i as int));
        let name = &v1[i];
        if !contains_name(v2, name.as_str()) && !contains_name(only.as_slice(), name.as_str()) {
            only.push(name.clone());
        }
        i += 1;
    }
    assert(texts(v1@).take(v1.len() as int) == texts(v1@));
    proof {
        lemma_only_in_is_set_difference(texts(v1@), texts(v2@));
    }
    only
}

impl ServerData {
    /// Accepts the categories asked for if each is among the known ones, and
    /// names those that are not.
    pub fn check_categories(&self, known: &[String]) -> (checked: Result<(), AppError>)
        ensures
            checked is Ok <==> forall|i: int|
                0 <= i < self.categories.len() ==> texts(known@).contains(
                    #[trigger] self.categories[i]@,
                ),
            checked is Ok <==> only_in(texts(self.categories@), texts(known@)).len() == 0,
            checked matches Err(e) ==> e.is_response(
                BAD_REQUEST,
                "These categories are invalid: "@ + joined(
                    only_in(texts(self.categories@), texts(known@)),
                    ", "@,
                ),
            ),
    {
        let diff = vect_difference(self.categories.as_slice(), known);
        proof {
            let asked = texts(self.categories@);
            let invalid = only_in(asked, texts(known@));
            lemma_only_in_is_set_difference(asked, texts(known@));
            if invalid.len() == 0 {
                assert forall|i: int| 0 <= i < self.categories.len() implies texts(
                    known@,
                ).contains(#[trigger] self.categories[i]@) by {
                    assert(asked[i] == self.categories[i]@);
                    assert(!invalid.contains(asked[i]));
                }
            } else {
                assert(invalid.contains(invalid[0]));
                let i = choose|i: int| 0 <= i < asked.len() && asked[i] == invalid[0];
                assert(asked[i] == self.categories[i]@);
            }
        }
        if diff.len() == 0 {
            return Ok(());
        }
        let mut message = String::from_str("These categories are invalid: ");
        let list = join(diff.as_slice(), ", ");
        message.append(list.as_str());
        Err(AppError::bad_request(message.as_str()))
    }

    /// Accepts the name if no listed server has it, the case of letters set
    /// aside, and the listing has room for one more.
    pub fn check_name(&self, existing: &[String]) -> (checked: Result<(), AppError>)
        ensures
            checked is Ok <==> !taken(existing@, self.name@) && existing.len() < SERVER_LIMIT,
            checked matches Err(e) ==> if taken(existing@, self.name@) {
                e.is_response(CONFLICT, "Server already exists"@)
            } else {
                e.is_response(BAD_REQUEST, "You have reached limit of servers"@)
            },
    {
        if name_taken(existing, self.name.as_str()) {
            return Err(AppError::conflict("Server already exists"));
        }
        if existing.len() >= SERVER_LIMIT {
            return Err(AppError::bad_request("You have reached limit of servers"));
        }
        Ok(())
    }
}

/// Accepts the two versions if both were found, and hands out their ids.
pub fn check_versions(min_version: Option<i32>, max_version: Option<i32>) -> (checked: Result<
    (i32, i32),
    AppError,
>)
    ensures
        checked matches Ok(ids) ==> min_version == Some(ids.0) && max_version == Some(ids.1),
        checked matches Err(e) ==> (min_version is None || max_version is None) && e.is_response(
            BAD_REQUEST,
            "Version like this does not exist"@,
        ),
{
    match (min_version, max_version) {
        (Some(min), Some(max)) => Ok((min, max)),
        _ => Err(AppError::bad_request("Version like this does not exist")),
    }
}

} // verus!
