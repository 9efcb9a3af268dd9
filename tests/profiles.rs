use g_profiles::git::whoami;
use g_profiles::index::{key, Index};
use g_profiles::profile::{edit, list, removal_note, removal_targets, remove, Profile, ProfileError};
use std::collections::hash_map::DefaultHasher;
use std::hash::{Hash, Hasher};

fn strings(items: &[&str]) -> Vec<String> {
    items.iter().map(|s| s.to_string()).collect()
}

#[test]
fn new_keeps_the_fields() {
    let p = Profile::new("work", "Jane Doe", "jane@co.example").unwrap();
    assert_eq!(p.name, "work");
    assert_eq!(p.username, "Jane Doe");
    assert_eq!(p.email, "jane@co.example");
}

#[test]
fn new_refuses_a_leading_dot() {
    assert!(matches!(Profile::new(".cache", "u", "e"), Err(ProfileError::InvalidName)));
}

#[test]
fn new_refuses_path_separators() {
    assert!(matches!(Profile::new("a/b", "u", "e"), Err(ProfileError::InvalidName)));
    assert!(matches!(Profile::new("a\\b", "u", "e"), Err(ProfileError::InvalidName)));
}

#[test]
fn new_accepts_inner_dots() {
    assert!(Profile::new("with.dots", "u", "e").is_ok());
}

#[test]
fn save_then_load_gives_the_profile_back() {
    let p = Profile::new("test", "Test Username", "test@email.com").unwrap();
    let mut index = Index::new();
    let bytes = p.save(&mut index, false, false).unwrap();
    let loaded = Profile::load("test", &bytes).unwrap();
    assert_eq!(loaded, p);
    assert_eq!(index.get("Test Username", "test@email.com"), Some("test".to_string()));
}

#[test]
fn save_refuses_an_existing_file_without_overwrite() {
    let p = Profile::new("test", "u", "e").unwrap();
    let mut index = Index::new();
    match p.save(&mut index, true, false) {
        Err(ProfileError::ProfileExists(name)) => assert_eq!(name, "test"),
        other => panic!("unexpected {other:?}"),
    }
    assert_eq!(index.get("u", "e"), None);
    assert!(p.save(&mut index, true, true).is_ok());
}

#[test]
fn load_refuses_bytes_that_are_no_record() {
    assert!(matches!(Profile::load("x", &[1, 2, 3]), Err(ProfileError::Serde(_))));
}

#[test]
fn same_pair_is_refused_naming_the_owner() {
    let mut index = Index::new();
    let first = Profile::new("first", "user", "mail@x").unwrap();
    first.save(&mut index, false, false).unwrap();
    let second = Profile::new("second", "user", "mail@x").unwrap();
    match second.save(&mut index, false, false) {
        Err(ProfileError::CombinationExists { username, email, existing }) => {
            assert_eq!(username, "user");
            assert_eq!(email, "mail@x");
            assert_eq!(existing, "first");
        }
        other => panic!("unexpected {other:?}"),
    }
    assert_eq!(index.get("user", "mail@x"), Some("first".to_string()));
}

#[test]
fn another_pair_is_accepted() {
    let mut index = Index::new();
    Profile::new("first", "user", "mail@x").unwrap().save(&mut index, false, false).unwrap();
    let second = Profile::new("second", "user", "other@x").unwrap();
    assert!(second.save(&mut index, false, false).is_ok());
    assert_eq!(index.get("user", "other@x"), Some("second".to_string()));
    assert_eq!(index.get("user", "mail@x"), Some("first".to_string()));
}

#[test]
fn resaving_a_profile_with_its_own_pair_is_accepted() {
    let mut index = Index::new();
    let p = Profile::new("p", "user", "mail@x").unwrap();
    p.save(&mut index, false, false).unwrap();
    assert!(p.save(&mut index, true, true).is_ok());
    assert_eq!(index.get_all(), vec!["p".to_string()]);
}

#[test]
fn remove_drops_the_index_entry_and_is_idempotent() {
    let mut index = Index::new();
    let p = Profile::new("test", "", "").unwrap();
    index.insert(&p);
    let targets = remove(&mut index, "/home/u", "test");
    assert_eq!(
        targets,
        strings(&["/home/u/.config/g-profiles/test", "/home/u/.ssh/id_test", "/home/u/.ssh/id_test.pub"])
    );
    assert_eq!(index.get(&p.username, &p.email), None);
    let again = remove(&mut index, "/home/u", "test");
    assert_eq!(again, targets);
    assert!(index.get_all().is_empty());
}

#[test]
fn remove_drops_every_entry_of_the_name() {
    let mut index = Index::new();
    let a = Profile::new("a", "u1", "e1").unwrap();
    let a_old = Profile::new("a", "u0", "e0").unwrap();
    let b = Profile::new("b", "u2", "e2").unwrap();
    index.insert(&a);
    index.insert(&a_old);
    index.insert(&b);
    remove(&mut index, "/h", "a");
    assert_eq!(index.get_all(), vec!["b".to_string()]);
}

#[test]
fn removal_notes() {
    assert_eq!(removal_note("/h/x", true), "removed: /h/x");
    assert_eq!(removal_note("/h/x", false), "skipped: /h/x");
}

#[test]
fn edit_with_nothing_changes_nothing() {
    let mut index = Index::new();
    let p = Profile::new("test", "Test Username", "test@email.com").unwrap();
    let bytes = p.save(&mut index, false, false).unwrap();
    let stored = Profile::load("test", &bytes).unwrap();
    assert!(matches!(edit(&mut index, stored.clone(), None, None), Ok(None)));
    assert_eq!(Profile::load("test", &bytes).unwrap(), p);
    assert_eq!(index.get("Test Username", "test@email.com"), Some("test".to_string()));
}

#[test]
fn edit_changes_only_the_given_fields() {
    let mut index = Index::new();
    let p = Profile::new("test", "Test Username", "test@email.com").unwrap();
    p.save(&mut index, false, false).unwrap();
    let bytes = edit(&mut index, p.clone(), Some("username".to_string()), None).unwrap().unwrap();
    let q = Profile::load("test", &bytes).unwrap();
    assert_eq!(q.username, "username");
    assert_eq!(q.email, "test@email.com");
    assert_eq!(index.get("Test Username", "test@email.com"), None);
    assert_eq!(index.get("username", "test@email.com"), Some("test".to_string()));
    let bytes = edit(&mut index, q, Some("u2".to_string()), Some("em@i.l".to_string())).unwrap().unwrap();
    let r = Profile::load("test", &bytes).unwrap();
    assert_eq!((r.username.as_str(), r.email.as_str()), ("u2", "em@i.l"));
    assert_eq!(index.get_all(), vec!["test".to_string()]);
}

#[test]
fn edit_into_a_taken_pair_is_refused() {
    let mut index = Index::new();
    let a = Profile::new("a", "ua", "ea").unwrap();
    a.save(&mut index, false, false).unwrap();
    let b = Profile::new("b", "ub", "eb").unwrap();
    b.save(&mut index, false, false).unwrap();
    let r = edit(&mut index, b, Some("ua".to_string()), Some("ea".to_string()));
    assert!(matches!(r, Err(ProfileError::CombinationExists { existing, .. }) if existing == "a"));
    assert_eq!(index.get("ub", "eb"), Some("b".to_string()));
}

#[test]
fn list_leaves_out_hidden_files() {
    let names = strings(&["normal", ".cache", "with.dots", ".hidden"]);
    assert_eq!(list(&names), strings(&["normal", "with.dots"]));
    assert!(list(&strings(&[".hidden"])).is_empty());
}

#[test]
fn index_round_trips_through_bytes() {
    let mut index = Index::new();
    index.insert(&Profile::new("a", "u", "e").unwrap());
    let bytes = index.to_bytes().unwrap();
    let back = Index::from_bytes(&bytes).unwrap();
    assert_eq!(back.get("u", "e"), Some("a".to_string()));
    assert!(Index::from_bytes(&[0xff]).is_err());
}

#[test]
fn key_depends_on_both_fields_in_order() {
    assert_eq!(key("u", "e"), key("u", "e"));
    assert_ne!(key("u", "e"), key("e", "u"));
    assert_ne!(key("ab", "c"), key("a", "bc"));
}

#[test]
fn key_matches_hashing_the_two_strings() {
    let mut h = DefaultHasher::new();
    "Jane Doe".hash(&mut h);
    "jane@co.example".hash(&mut h);
    assert_eq!(key("Jane Doe", "jane@co.example"), h.finish());
}

#[test]
fn scenario_work_profile() {
    let mut index = Index::new();
    let work = Profile::new("work", "Jane Doe", "jane@co.example").unwrap();
    assert!(work.save(&mut index, false, false).is_ok());
    let work2 = Profile::new("work2", "Jane Doe", "jane@co.example").unwrap();
    match work2.save(&mut index, false, false) {
        Err(ProfileError::CombinationExists { existing, .. }) => assert_eq!(existing, "work"),
        other => panic!("unexpected {other:?}"),
    }
    assert_eq!(whoami(&index, "Jane Doe", "jane@co.example"), Some("work".to_string()));
    assert_eq!(whoami(&index, "Jane Doe", "other@co.example"), None);
}

#[test]
fn removal_targets_are_the_three_files() {
    assert_eq!(
        removal_targets("/h", "p"),
        strings(&["/h/.config/g-profiles/p", "/h/.ssh/id_p", "/h/.ssh/id_p.pub"])
    );
}

#[test]
fn record_bytes_are_length_prefixed_strings() {
    let mut index = Index::new();
    let bytes = Profile::new("p", "ab", "c").unwrap().save(&mut index, false, false).unwrap();
    assert_eq!(bytes, vec![2, 0, 0, 0, 0, 0, 0, 0, b'a', b'b', 1, 0, 0, 0, 0, 0, 0, 0, b'c']);
}
