use craftlist::controllers::categories::{Category, DeleteCategory};
use craftlist::controllers::servers::{
    check_versions, int_to_bool, vect_difference, Server, ServerData, SERVER_LIMIT,
};
use craftlist::controllers::versions::{DeleteVersion, UpdateVersion, Version};
use craftlist::controllers::{found_or, lookup, lowercase_names, name_taken, Lookup};
use craftlist::error::AppError;
use craftlist::text::{contains_name, join};

fn names(list: &[&str]) -> Vec<String> {
    list.iter().map(|name| (*name).to_owned()).collect()
}

fn server_data(name: &str, categories: &[&str]) -> ServerData {
    ServerData {
        name: name.to_owned(),
        description: "A server".to_owned(),
        address: "play.example.org".to_owned(),
        port: 25565,
        categories: names(categories),
        min_version: "1.8".to_owned(),
        max_version: "1.20".to_owned(),
    }
}

fn rejection(checked: Result<(), AppError>) -> (u16, String) {
    match checked {
        Err(AppError::ActixError { status, message }) => (status, message),
        other => panic!("expected a rejection, got {:?}", other),
    }
}

#[test]
fn join_puts_the_separator_between_parts() {
    assert_eq!(join(&names(&["a", "b", "c"]), ", "), "a, b, c");
    assert_eq!(join(&names(&["only"]), ", "), "only");
    assert_eq!(join(&names(&[]), ", "), "");
    assert_eq!(join(&names(&["", ""]), "-"), "-");
    assert_eq!(join(&names(&["x", "y"]), ""), "xy");
}

#[test]
fn contains_name_is_exact() {
    let list = names(&["Survival", "Vanilla"]);
    assert!(contains_name(&list, "Vanilla"));
    assert!(!contains_name(&list, "vanilla"));
    assert!(!contains_name(&list, "Vanill"));
    assert!(!contains_name(&[], "Vanilla"));
}

#[test]
fn lowercase_names_lowers_each_name() {
    assert_eq!(
        lowercase_names(&names(&["Survival", "PVP", "mini Games", "ÄÖÜ"])),
        names(&["survival", "pvp", "mini games", "äöü"])
    );
    assert!(lowercase_names(&[]).is_empty());
}

#[test]
fn name_taken_sets_case_aside() {
    let existing = names(&["Hypixel", "MineLand"]);
    assert!(name_taken(&existing, "hypixel"));
    assert!(name_taken(&existing, "MINELAND"));
    assert!(name_taken(&existing, "Hypixel"));
    assert!(!name_taken(&existing, "Hypixel2"));
    assert!(!name_taken(&[], "Hypixel"));
}

#[test]
fn vect_difference_keeps_what_only_the_first_has() {
    let v1 = names(&["a", "b", "c", "d"]);
    let v2 = names(&["b", "d", "e"]);
    assert_eq!(vect_difference(&v1, &v2), names(&["a", "c"]));
}

#[test]
fn vect_difference_holds_each_name_once() {
    let v1 = names(&["a", "b", "a", "c", "b", "a"]);
    let v2 = names(&["c"]);
    assert_eq!(vect_difference(&v1, &v2), names(&["a", "b"]));
}

#[test]
fn vect_difference_of_equal_lists_is_empty() {
    let v1 = names(&["a", "b"]);
    assert!(vect_difference(&v1, &v1).is_empty());
    assert!(vect_difference(&[], &v1).is_empty());
    assert_eq!(vect_difference(&v1, &[]), v1);
}

#[test]
fn vect_difference_is_exact_about_case() {
    let v1 = names(&["PvP"]);
    let v2 = names(&["pvp"]);
    assert_eq!(vect_difference(&v1, &v2), names(&["PvP"]));
}

#[test]
fn known_categories_are_accepted() {
    let data = server_data("Mine", &["Survival", "PvP"]);
    assert!(data.check_categories(&names(&["PvP", "Survival"])).is_ok());
    assert!(server_data("Mine", &[]).check_categories(&[]).is_ok());
}

#[test]
fn unknown_categories_are_named() {
    let data = server_data("Mine", &["Survival", "Skyblock", "PvP", "Prison"]);
    let (status, message) = rejection(data.check_categories(&names(&["Survival", "PvP"])));
    assert_eq!(status, 400);
    assert_eq!(message, "These categories are invalid: Skyblock, Prison");
}

#[test]
fn one_unknown_category() {
    let data = server_data("Mine", &["Skyblock"]);
    let (status, message) = rejection(data.check_categories(&[]));
    assert_eq!(status, 400);
    assert_eq!(message, "These categories are invalid: Skyblock");
}

#[test]
fn versions_must_both_exist() {
    assert!(matches!(check_versions(Some(3), Some(9)), Ok((3, 9))));
    for (min, max) in [(None, Some(9)), (Some(3), None), (None, None)] {
        match check_versions(min, max) {
            Err(AppError::ActixError { status, message }) => {
                assert_eq!(status, 400);
                assert_eq!(message, "Version like this does not exist");
            }
            other => panic!("expected a rejection, got {:?}", other),
        }
    }
}

#[test]
fn server_limit_is_three() {
    assert_eq!(SERVER_LIMIT, 3);
}

#[test]
fn new_server_name_is_accepted_while_there_is_room() {
    let data = server_data("Mine", &[]);
    assert!(data.check_name(&[]).is_ok());
    assert!(data.check_name(&names(&["a", "b"])).is_ok());
}

#[test]
fn server_name_in_use_is_a_conflict() {
    let data = server_data("MineLand", &[]);
    let (status, message) = rejection(data.check_name(&names(&["mineland"])));
    assert_eq!(status, 409);
    assert_eq!(message, "Server already exists");
    let (status, _) = rejection(data.check_name(&names(&["a", "b", "MINELAND", "c"])));
    assert_eq!(status, 409);
}

#[test]
fn full_listing_accepts_no_server() {
    let data = server_data("Mine", &[]);
    let (status, message) = rejection(data.check_name(&names(&["a", "b", "c"])));
    assert_eq!(status, 400);
    assert_eq!(message, "You have reached limit of servers");
}

#[test]
fn stored_number_stands_for_a_flag() {
    assert!(!int_to_bool(0));
    assert!(int_to_bool(1));
    assert!(int_to_bool(-1));
    assert!(int_to_bool(i32::MAX));
    assert!(int_to_bool(i32::MIN));
}

#[test]
fn server_is_premium_by_its_stored_number() {
    let mut server = Server {
        id: 1,
        address: "play.example.org".to_owned(),
        name: "Mine".to_owned(),
        min_version: "1.8".to_owned(),
        max_version: "1.20".to_owned(),
        is_premium: 0,
        user_id: 2,
        description: String::new(),
        created_at: "2024-06-01 10:00:00".to_owned(),
        categories: vec![craftlist::controllers::servers::Category {
            id: 1,
            name: "Survival".to_owned(),
        }],
    };
    assert!(!server.premium());
    server.is_premium = 1;
    assert!(server.premium());
}

#[test]
fn lookup_prefers_the_id() {
    assert!(matches!(lookup(Some(3), "Vanilla"), Lookup::ById(3)));
    match lookup(None, "Vanilla") {
        Lookup::ByName(name) => assert_eq!(name, "Vanilla"),
        other => panic!("expected a lookup by name, got {:?}", other),
    }
    let by_id = DeleteCategory { id: Some(7), name: "x".to_owned() };
    assert!(matches!(by_id.lookup(), Lookup::ById(7)));
    let by_name = DeleteVersion { id: None, name: "1.8".to_owned() };
    match by_name.lookup() {
        Lookup::ByName(name) => assert_eq!(name, "1.8"),
        other => panic!("expected a lookup by name, got {:?}", other),
    }
    let version_by_id = DeleteVersion { id: Some(-1), name: String::new() };
    assert!(matches!(version_by_id.lookup(), Lookup::ById(-1)));
    let category_by_name = DeleteCategory { id: None, name: "Vanilla".to_owned() };
    assert!(matches!(category_by_name.lookup(), Lookup::ByName(_)));
}

#[test]
fn missing_row_is_not_found() {
    assert!(matches!(found_or(Some(5), "No such server exists"), Ok(5)));
    match found_or::<i32>(None, "No such server exists") {
        Err(AppError::ActixError { status, message }) => {
            assert_eq!(status, 404);
            assert_eq!(message, "No such server exists");
        }
        other => panic!("expected a rejection, got {:?}", other),
    }
}

#[test]
fn category_exists_whatever_the_case() {
    let category = Category { name: "vanilla".to_owned() };
    assert!(category.exists_among(&names(&["Survival", "Vanilla"])));
    assert!(!category.exists_among(&names(&["Survival"])));
}

#[test]
fn version_of_a_known_name_is_a_conflict() {
    let version = Version { name: "1.8-pre".to_owned(), protocol: 47 };
    assert!(version.check_new(&names(&["1.7", "1.9"])).is_ok());
    let (status, message) = rejection(version.check_new(&names(&["1.7", "1.8-PRE"])));
    assert_eq!(status, 409);
    assert_eq!(message, "Version already exists");
}

#[test]
fn update_changes_only_what_is_given() {
    let stored = || Version { name: "1.8".to_owned(), protocol: 47 };
    let both = UpdateVersion { id: 1, name: Some("1.9".to_owned()), protocol: Some(107) };
    let updated = both.apply(stored());
    assert_eq!((updated.name.as_str(), updated.protocol), ("1.9", 107));
    let name_only = UpdateVersion { id: 1, name: Some("1.8.9".to_owned()), protocol: None };
    let updated = name_only.apply(stored());
    assert_eq!((updated.name.as_str(), updated.protocol), ("1.8.9", 47));
    let protocol_only = UpdateVersion { id: 1, name: None, protocol: Some(5) };
    let updated = protocol_only.apply(stored());
    assert_eq!((updated.name.as_str(), updated.protocol), ("1.8", 5));
    let nothing = UpdateVersion { id: 1, name: None, protocol: None };
    let updated = nothing.apply(stored());
    assert_eq!((updated.name.as_str(), updated.protocol), ("1.8", 47));
}
