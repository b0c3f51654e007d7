use tray_clock::config::{
    config_from_field, config_or_default, encode_config, initial_content, parse_config, JsonField,
    EMPTY_DOCUMENT, NOT_AN_OBJECT, NOT_A_STRING, NO_APP_HANDLE, SET_SUCCESS, TIME_ZONE_KEY,
};
use tray_clock::{
    clear_config_cache, get_config, get_config_content, get_config_content_by_app,
    get_config_from_file, load_config, set_config_content, Config, ConfigStore, StorageRead,
    StoreError,
};

fn london() -> Config {
    Config { time_zone: Some("Europe/London".to_string()) }
}

fn unset() -> Config {
    Config { time_zone: None }
}

#[test]
fn constants_hold_the_texts_of_the_file_format() {
    assert_eq!(TIME_ZONE_KEY, "timeZone");
    assert_eq!(EMPTY_DOCUMENT, "{}");
    assert_eq!(SET_SUCCESS, "set config success");
    assert_eq!(NO_APP_HANDLE, "app handle not found");
}

#[test]
fn parse_config_reads_the_selected_zone() {
    assert_eq!(parse_config("{\"timeZone\":\"Europe/London\"}"), Ok(london()));
    assert_eq!(parse_config("  { \"timeZone\" : \"Asia/Tokyo\" }\n"), Ok(Config {
        time_zone: Some("Asia/Tokyo".to_string())
    }));
}

#[test]
fn parse_config_reads_an_empty_object_as_unset() {
    assert_eq!(parse_config("{}"), Ok(unset()));
}

#[test]
fn parse_config_reads_null_as_unset() {
    assert_eq!(parse_config("{\"timeZone\":null}"), Ok(unset()));
}

#[test]
fn parse_config_keeps_an_empty_zone_as_it_is() {
    assert_eq!(parse_config("{\"timeZone\":\"\"}"), Ok(Config { time_zone: Some(String::new()) }));
}

#[test]
fn parse_config_ignores_other_members() {
    assert_eq!(
        parse_config("{\"theme\":\"dark\",\"timeZone\":\"Europe/London\",\"size\":3}"),
        Ok(london())
    );
    assert_eq!(parse_config("{\"timezone\":\"Europe/London\"}"), Ok(unset()));
    assert_eq!(parse_config("{\"time_zone\":\"Europe/London\"}"), Ok(unset()));
}

#[test]
fn parse_config_undoes_json_escapes() {
    assert_eq!(
        parse_config("{\"timeZone\":\"a\\\"b\\\\c\\u0041\"}"),
        Ok(Config { time_zone: Some("a\"b\\cA".to_string()) })
    );
}

#[test]
fn parse_config_rejects_a_zone_that_is_no_string() {
    for text in [
        "{\"timeZone\":5}",
        "{\"timeZone\":true}",
        "{\"timeZone\":[\"Europe/London\"]}",
        "{\"timeZone\":{\"name\":\"Europe/London\"}}",
    ] {
        assert_eq!(
            parse_config(text),
            Err(StoreError::StorageParse(NOT_A_STRING.to_string())),
            "{text}"
        );
    }
}

#[test]
fn parse_config_rejects_a_document_that_is_no_object() {
    for text in ["[]", "[\"Europe/London\"]", "null", "\"Europe/London\"", "42", "true"] {
        assert_eq!(
            parse_config(text),
            Err(StoreError::StorageParse(NOT_AN_OBJECT.to_string())),
            "{text}"
        );
    }
}

#[test]
fn parse_config_rejects_malformed_json() {
    for text in ["{", "{\"timeZone\":", "{timeZone:\"UTC\"}", "not json", "{} trailing", " "] {
        assert!(matches!(parse_config(text), Err(StoreError::StorageParse(_))), "{text}");
    }
}

#[test]
fn parse_config_reports_the_parsers_message() {
    let expected = serde_json::from_str::<serde_json::Value>("{").unwrap_err().to_string();
    assert_eq!(parse_config("{"), Err(StoreError::StorageParse(expected)));
}

#[test]
fn config_from_field_decodes_each_field() {
    assert_eq!(config_from_field(Ok(JsonField::Absent)), Ok(unset()));
    assert_eq!(config_from_field(Ok(JsonField::Null)), Ok(unset()));
    assert_eq!(config_from_field(Ok(JsonField::Text("Europe/London".to_string()))), Ok(london()));
    assert_eq!(
        config_from_field(Ok(JsonField::NotObject)),
        Err(StoreError::StorageParse("the configuration is not a JSON object".to_string()))
    );
    assert_eq!(
        config_from_field(Ok(JsonField::Other)),
        Err(StoreError::StorageParse("timeZone is not a string".to_string()))
    );
    assert_eq!(
        config_from_field(Err("EOF while parsing".to_string())),
        Err(StoreError::StorageParse("EOF while parsing".to_string()))
    );
}

#[test]
fn encode_config_writes_the_zone_under_its_key() {
    assert_eq!(encode_config(&london()), "{\"timeZone\":\"Europe/London\"}");
}

#[test]
fn encode_config_writes_null_for_no_zone() {
    assert_eq!(encode_config(&unset()), "{\"timeZone\":null}");
}

#[test]
fn encode_config_escapes_what_json_escapes() {
    let config = Config { time_zone: Some("a\"b\\c\n".to_string()) };
    assert_eq!(encode_config(&config), "{\"timeZone\":\"a\\\"b\\\\c\\n\"}");
}

#[test]
fn encoded_config_parses_back_to_itself() {
    for config in [
        unset(),
        london(),
        Config { time_zone: Some(String::new()) },
        Config { time_zone: Some("a\"b\\c\n\t✅".to_string()) },
    ] {
        assert_eq!(parse_config(&encode_config(&config)), Ok(config.clone()));
    }
}

#[test]
fn config_copy_equals_its_source() {
    assert_eq!(london().copy(), london());
    assert_eq!(unset().copy(), unset());
    assert_eq!(Config::unset(), unset());
}

#[test]
fn content_of_missing_storage_is_the_empty_object() {
    assert_eq!(get_config_content_by_app(StorageRead::Missing), Ok("{}".to_string()));
}

#[test]
fn content_of_empty_storage_is_the_empty_object() {
    assert_eq!(get_config_content_by_app(StorageRead::Content(String::new())), Ok("{}".to_string()));
}

#[test]
fn content_of_storage_is_its_text() {
    assert_eq!(
        get_config_content_by_app(StorageRead::Content("{\"timeZone\":\"UTC\"}".to_string())),
        Ok("{\"timeZone\":\"UTC\"}".to_string())
    );
    assert_eq!(
        get_config_content_by_app(StorageRead::Content("not json".to_string())),
        Ok("not json".to_string())
    );
}

#[test]
fn content_of_a_failed_read_is_its_failure() {
    assert_eq!(
        get_config_content_by_app(StorageRead::Failed("permission denied".to_string())),
        Err("permission denied".to_string())
    );
}

#[test]
fn content_without_storage_access_is_an_error() {
    assert_eq!(get_config_content(None), Err("app handle not found".to_string()));
    assert_eq!(get_config_content(Some(StorageRead::Missing)), Ok("{}".to_string()));
    assert_eq!(
        get_config_content(Some(StorageRead::Content("{\"a\":1}".to_string()))),
        Ok("{\"a\":1}".to_string())
    );
    assert_eq!(
        get_config_content(Some(StorageRead::Failed("gone".to_string()))),
        Err("gone".to_string())
    );
}

#[test]
fn initial_content_is_asked_for_empty_storage_only() {
    assert_eq!(initial_content(&StorageRead::Missing), Some("{}".to_string()));
    assert_eq!(initial_content(&StorageRead::Content(String::new())), Some("{}".to_string()));
    assert_eq!(initial_content(&StorageRead::Content("{}".to_string())), None);
    assert_eq!(initial_content(&StorageRead::Content(" ".to_string())), None);
    assert_eq!(initial_content(&StorageRead::Failed("gone".to_string())), None);
}

#[test]
fn load_from_missing_storage_is_unset() {
    assert_eq!(load_config(StorageRead::Missing), Ok(unset()));
    assert_eq!(load_config(StorageRead::Content(String::new())), Ok(unset()));
}

#[test]
fn load_from_storage_parses_its_text() {
    assert_eq!(
        load_config(StorageRead::Content("{\"timeZone\":\"Europe/London\"}".to_string())),
        Ok(london())
    );
}

#[test]
fn load_reports_a_failed_read_as_io_error() {
    assert_eq!(
        load_config(StorageRead::Failed("permission denied".to_string())),
        Err(StoreError::StorageIo("permission denied".to_string()))
    );
}

#[test]
fn load_reports_malformed_content_as_parse_error() {
    assert!(matches!(
        load_config(StorageRead::Content("{\"timeZone\":".to_string())),
        Err(StoreError::StorageParse(_))
    ));
}

#[test]
fn new_store_has_an_empty_cache() {
    assert_eq!(ConfigStore::new().cached(), None);
}

#[test]
fn get_config_loads_and_fills_the_cache() {
    let mut store = ConfigStore::new();
    let read = StorageRead::Content("{\"timeZone\":\"Europe/London\"}".to_string());
    assert_eq!(get_config(&mut store, read), Ok(london()));
    assert_eq!(store.cached(), Some(london()));
}

#[test]
fn get_config_answers_from_the_cache_whatever_the_storage_holds() {
    let mut store = ConfigStore::new();
    let read = StorageRead::Content("{\"timeZone\":\"Europe/London\"}".to_string());
    assert_eq!(get_config(&mut store, read), Ok(london()));
    for later in [
        StorageRead::Missing,
        StorageRead::Content("{\"timeZone\":\"Asia/Tokyo\"}".to_string()),
        StorageRead::Content("not json".to_string()),
        StorageRead::Failed("gone".to_string()),
    ] {
        assert_eq!(get_config(&mut store, later), Ok(london()));
        assert_eq!(store.cached(), Some(london()));
    }
}

#[test]
fn get_config_from_file_answers_from_the_cache_first() {
    let mut store = ConfigStore::new();
    assert!(set_config_content(&mut store, london(), Ok(())).is_ok());
    assert_eq!(
        get_config_from_file(&mut store, StorageRead::Failed("gone".to_string())),
        Ok(london())
    );
    assert_eq!(
        get_config_from_file(
            &mut store,
            StorageRead::Content("{\"timeZone\":\"Asia/Tokyo\"}".to_string())
        ),
        Ok(london())
    );
    assert_eq!(get_config_from_file(&mut store, StorageRead::Missing), Ok(london()));
    assert_eq!(store.cached(), Some(london()));
}

#[test]
fn get_config_from_file_loads_where_the_cache_is_empty() {
    let mut store = ConfigStore::new();
    assert_eq!(
        get_config_from_file(&mut store, StorageRead::Failed("gone".to_string())),
        Err(StoreError::StorageIo("gone".to_string()))
    );
    assert_eq!(store.cached(), None);
    assert_eq!(
        get_config_from_file(
            &mut store,
            StorageRead::Content("{\"timeZone\":\"Asia/Tokyo\"}".to_string())
        ),
        Ok(Config { time_zone: Some("Asia/Tokyo".to_string()) })
    );
    assert_eq!(store.cached(), Some(Config { time_zone: Some("Asia/Tokyo".to_string()) }));
}

#[test]
fn get_config_and_get_config_from_file_agree() {
    for read in [
        StorageRead::Missing,
        StorageRead::Content("{\"timeZone\":\"Asia/Tokyo\"}".to_string()),
        StorageRead::Content("[".to_string()),
        StorageRead::Failed("gone".to_string()),
    ] {
        for cached in [None, Some(unset()), Some(london())] {
            let mut left = ConfigStore::new();
            let mut right = ConfigStore::new();
            if let Some(config) = &cached {
                assert!(set_config_content(&mut left, config.clone(), Ok(())).is_ok());
                assert!(set_config_content(&mut right, config.clone(), Ok(())).is_ok());
            }
            assert_eq!(
                get_config(&mut left, read.clone()),
                get_config_from_file(&mut right, read.clone())
            );
            assert_eq!(left.cached(), right.cached());
        }
    }
}

#[test]
fn get_config_on_empty_storage_is_unset_and_cached() {
    let mut store = ConfigStore::new();
    assert_eq!(get_config(&mut store, StorageRead::Missing), Ok(unset()));
    assert_eq!(store.cached(), Some(unset()));
}

#[test]
fn failed_load_leaves_the_cache_empty() {
    let mut store = ConfigStore::new();
    assert_eq!(
        get_config(&mut store, StorageRead::Failed("gone".to_string())),
        Err(StoreError::StorageIo("gone".to_string()))
    );
    assert_eq!(store.cached(), None);
    assert!(matches!(
        get_config(&mut store, StorageRead::Content("[".to_string())),
        Err(StoreError::StorageParse(_))
    ));
    assert_eq!(store.cached(), None);
    assert_eq!(get_config(&mut store, StorageRead::Missing), Ok(unset()));
}

#[test]
fn set_then_get_returns_what_was_set() {
    for config in [unset(), london(), Config { time_zone: Some(String::new()) }] {
        let mut store = ConfigStore::new();
        assert_eq!(
            set_config_content(&mut store, config.clone(), Ok(())),
            Ok("set config success".to_string())
        );
        assert_eq!(get_config(&mut store, StorageRead::Missing), Ok(config.clone()));
        assert_eq!(
            get_config(&mut store, StorageRead::Failed("gone".to_string())),
            Ok(config.clone())
        );
    }
}

#[test]
fn set_replaces_a_cached_config() {
    let mut store = ConfigStore::new();
    assert_eq!(get_config(&mut store, StorageRead::Missing), Ok(unset()));
    assert!(set_config_content(&mut store, london(), Ok(())).is_ok());
    assert_eq!(store.cached(), Some(london()));
    assert!(set_config_content(&mut store, unset(), Ok(())).is_ok());
    assert_eq!(store.cached(), Some(unset()));
}

#[test]
fn failed_set_keeps_the_cached_config() {
    let mut store = ConfigStore::new();
    assert!(set_config_content(&mut store, london(), Ok(())).is_ok());
    let tokyo = Config { time_zone: Some("Asia/Tokyo".to_string()) };
    assert_eq!(
        set_config_content(&mut store, tokyo, Err("disk full".to_string())),
        Err(StoreError::StorageIo("disk full".to_string()))
    );
    assert_eq!(store.cached(), Some(london()));
    assert_eq!(get_config(&mut store, StorageRead::Missing), Ok(london()));
}

#[test]
fn failed_set_keeps_an_empty_cache_empty() {
    let mut store = ConfigStore::new();
    assert!(set_config_content(&mut store, london(), Err("disk full".to_string())).is_err());
    assert_eq!(store.cached(), None);
}

#[test]
fn cleared_cache_reads_the_storage_again() {
    let mut store = ConfigStore::new();
    assert!(set_config_content(&mut store, london(), Ok(())).is_ok());
    clear_config_cache(&mut store);
    assert_eq!(store.cached(), None);
    let edited = StorageRead::Content("{\"timeZone\":\"Asia/Tokyo\"}".to_string());
    assert_eq!(
        get_config(&mut store, edited),
        Ok(Config { time_zone: Some("Asia/Tokyo".to_string()) })
    );
}

#[test]
fn clearing_an_empty_cache_changes_nothing() {
    let mut store = ConfigStore::new();
    clear_config_cache(&mut store);
    assert_eq!(store.cached(), None);
}

#[test]
fn config_or_default_falls_back_to_unset() {
    assert_eq!(config_or_default(Ok(london())), london());
    assert_eq!(config_or_default(Ok(unset())), unset());
    assert_eq!(config_or_default(Err(StoreError::StorageIo("gone".to_string()))), unset());
    assert_eq!(config_or_default(Err(StoreError::StorageParse("bad".to_string()))), unset());
}
