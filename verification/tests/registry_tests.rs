use tray_clock::Registry;

fn small_registry() -> Registry {
    Registry::from_ids(vec!["Asia/Tokyo".to_string(), "Europe/London".to_string()])
}

#[test]
fn builtin_registry_knows_the_zones_of_the_database() {
    let registry = Registry::builtin();
    assert!(registry.is_valid("Europe/London"));
    assert!(registry.is_valid("Asia/Tokyo"));
    assert!(registry.is_valid("America/New_York"));
    assert!(registry.is_valid("UTC"));
}

#[test]
fn builtin_registry_rejects_what_the_database_lacks() {
    let registry = Registry::builtin();
    assert!(!registry.is_valid("Mars/Olympus_Mons"));
    assert!(!registry.is_valid(""));
    assert!(!registry.is_valid("europe/london"));
    assert!(!registry.is_valid("Europe/London "));
    assert!(!registry.is_valid("show"));
    assert!(!registry.is_valid("quit"));
}

#[test]
fn builtin_registry_keeps_the_order_of_the_database() {
    let registry = Registry::builtin();
    let ids = registry.all_ids();
    assert_eq!(ids.len(), chrono_tz::TZ_VARIANTS.len());
    assert_eq!(registry.len(), chrono_tz::TZ_VARIANTS.len());
    for (index, zone) in chrono_tz::TZ_VARIANTS.iter().enumerate() {
        assert_eq!(ids[index], zone.name());
        assert_eq!(registry.id_at(index), zone.name());
    }
    assert_eq!(ids[0], "Africa/Abidjan");
    assert_eq!(ids[ids.len() - 1], "Zulu");
}

#[test]
fn builtin_registry_is_the_same_at_every_call() {
    assert_eq!(Registry::builtin().all_ids(), Registry::builtin().all_ids());
}

#[test]
fn every_listed_identifier_is_valid() {
    let registry = Registry::builtin();
    for id in registry.all_ids() {
        assert!(registry.is_valid(&id), "{id}");
    }
}

#[test]
fn registry_from_ids_keeps_ids_and_order() {
    let registry = small_registry();
    assert_eq!(registry.len(), 2);
    assert_eq!(registry.id_at(0), "Asia/Tokyo");
    assert_eq!(registry.id_at(1), "Europe/London");
    assert_eq!(
        registry.all_ids(),
        vec!["Asia/Tokyo".to_string(), "Europe/London".to_string()]
    );
}

#[test]
fn registry_from_ids_is_valid_for_its_ids_only() {
    let registry = small_registry();
    assert!(registry.is_valid("Asia/Tokyo"));
    assert!(registry.is_valid("Europe/London"));
    assert!(!registry.is_valid("America/New_York"));
    assert!(!registry.is_valid("Asia/Toky"));
    assert!(!registry.is_valid("Asia/Tokyoo"));
}

#[test]
fn empty_registry_knows_nothing() {
    let registry = Registry::from_ids(Vec::new());
    assert_eq!(registry.len(), 0);
    assert!(registry.all_ids().is_empty());
    assert!(!registry.is_valid("UTC"));
    assert!(!registry.is_valid(""));
}

#[test]
fn registry_may_list_an_identifier_twice() {
    let registry = Registry::from_ids(vec!["UTC".to_string(), "UTC".to_string()]);
    assert_eq!(registry.len(), 2);
    assert!(registry.is_valid("UTC"));
    assert_eq!(registry.all_ids(), vec!["UTC".to_string(), "UTC".to_string()]);
}

#[test]
fn registry_leaves_reserved_identifiers_out() {
    let registry = Registry::from_ids(vec![
        "show".to_string(),
        "Asia/Tokyo".to_string(),
        "check_for_updates".to_string(),
        "hide".to_string(),
        "Europe/London".to_string(),
        "quit".to_string(),
    ]);
    assert_eq!(
        registry.all_ids(),
        vec!["Asia/Tokyo".to_string(), "Europe/London".to_string()]
    );
    assert_eq!(registry.len(), 2);
    for reserved in ["check_for_updates", "show", "hide", "quit"] {
        assert!(!registry.is_valid(reserved), "{reserved}");
    }
}

#[test]
fn registry_keeps_identifiers_that_only_resemble_reserved_ones() {
    let registry = Registry::from_ids(vec!["Show".to_string(), "quit ".to_string()]);
    assert_eq!(registry.all_ids(), vec!["Show".to_string(), "quit ".to_string()]);
}

#[test]
fn registry_of_reserved_identifiers_only_is_empty() {
    let registry = Registry::from_ids(vec!["quit".to_string(), "show".to_string()]);
    assert_eq!(registry.len(), 0);
    registry.lists_zones_only();
}
