use tempo_core::Config;
use tempo_core::Profile;
use tempo_core::Template;
use tempo_core::config::find_profile;
use tempo_core::config::insert_profile;

#[test]
fn config_roots_the_profile_directory() {
    let config = Config::new("profiles/user");
    assert_eq!(config.profile_dir, "profiles/user");
}

#[test]
fn insert_and_find_by_label() {
    let mut profiles: Vec<Profile> = Vec::new();
    insert_profile(&mut profiles, Profile::new("work", "work.toml", vec![]));
    insert_profile(
        &mut profiles,
        Profile::new("home", "home.toml", vec![Template::raw("h", "hello")]),
    );
    assert_eq!(profiles.len(), 2);
    let found = find_profile(&profiles, "home").expect("home profile");
    assert_eq!(found.label, "home");
    assert_eq!(found.apply("h"), "hello");
}

#[test]
fn find_missing_label_is_none() {
    let profiles = vec![Profile::new("work", "work.toml", vec![])];
    assert!(find_profile(&profiles, "missing").is_none());
    assert!(find_profile(&Vec::new(), "work").is_none());
}

#[test]
fn later_insert_with_same_label_wins() {
    let mut profiles: Vec<Profile> = Vec::new();
    insert_profile(
        &mut profiles,
        Profile::new("work", "early.toml", vec![Template::raw("a", "b")]),
    );
    insert_profile(
        &mut profiles,
        Profile::new("work", "late.toml", vec![Template::raw("a", "c")]),
    );
    assert_eq!(profiles.len(), 1);
    let found = find_profile(&profiles, "work").expect("work profile");
    assert_eq!(found.path, "late.toml");
    assert_eq!(found.apply("a"), "c");
}
