//! The stored preference: what the configuration file holds, how it is read
//! and written, and the cache that stands before it.
//!
//! The library never touches the file. The caller reads it and hands over what
//! came back as a [`StorageRead`]; the caller writes the text that
//! [`encode_config`] gives and hands over whether that worked.

use vstd::prelude::*;
use vstd::string::StringExecFns;
use crate::text::{copy_opt, opt_text};

verus! {

/// The member of the configuration document that holds the selected zone.
pub const TIME_ZONE_KEY: &'static str = "timeZone";

/// The document that a new configuration file is created with.
pub const EMPTY_DOCUMENT: &'static str = "{}";

/// What a successful write is answered with.
pub const SET_SUCCESS: &'static str = "set config success";

/// The failure reported where the storage could not even be asked.
pub const NO_APP_HANDLE: &'static str = "app handle not found";

/// The parse failure for a document that is valid JSON but no object.
pub const NOT_AN_OBJECT: &'static str = "the configuration is not a JSON object";

/// The parse failure for a selected zone that is neither a string nor null.
pub const NOT_A_STRING: &'static str = "timeZone is not a string";

/// The one preference that is stored: the selected time zone, if any.
#[derive(Clone, Debug, PartialEq, Eq)]
pub struct Config {
    pub time_zone: Option<String>,
}

impl View for Config {
    type V = Option<Seq<char>>;

    open spec fn view(&self) -> Option<Seq<char>> {
        opt_text(self.time_zone)
    }
}

/// Why the configuration could not be read or written.
#[derive(Clone, Debug, PartialEq, Eq)]
pub enum StoreError {
    /// The storage could not be read or written; the text is the caller's.
    StorageIo(String),
    /// The stored document is not a configuration; the text says why.
    StorageParse(String),
}

/// A store error as a mathematical value.
pub enum StoreErrorView {
    StorageIo(Seq<char>),
    StorageParse(Seq<char>),
}

impl View for StoreError {
    type V = StoreErrorView;

    open spec fn view(&self) -> StoreErrorView {
        match *self {
            StoreError::StorageIo(message) => StoreErrorView::StorageIo(message@),
            StoreError::StorageParse(message) => StoreErrorView::StorageParse(message@),
        }
    }
}

/// What the caller found when it read the configuration file.
#[derive(Clone, Debug, PartialEq, Eq)]
pub enum StorageRead {
    /// There is no file.
    Missing,
    /// The file holds this text.
    Content(String),
    /// Reading failed; the text says how.
    Failed(String),
}

/// A storage read as a mathematical value.
pub enum StorageReadView {
    Missing,
    Content(Seq<char>),
    Failed(Seq<char>),
}

impl View for StorageRead {
    type V = StorageReadView;

    open spec fn view(&self) -> StorageReadView {
        match *self {
            StorageRead::Missing => StorageReadView::Missing,
            StorageRead::Content(text) => StorageReadView::Content(text@),
            StorageRead::Failed(message) => StorageReadView::Failed(message@),
        }
    }
}

/// What a JSON document holds under one key, as far as this library reads it.
#[derive(Clone, Debug, PartialEq, Eq)]
pub enum JsonField {
    /// The document is not an object.
    NotObject,
    /// The object has no member of that key.
    Absent,
    /// The member is `null`.
    Null,
    /// The member is this string.
    Text(String),
    /// The member is a number, a boolean, an array or an object.
    Other,
}

/// A JSON field as a mathematical value.
pub enum JsonFieldView {
    NotObject,
    Absent,
    Null,
    Text(Seq<char>),
    Other,
}

impl View for JsonField {
    type V = JsonFieldView;

    open spec fn view(&self) -> JsonFieldView {
        match *self {
            JsonField::NotObject => JsonFieldView::NotObject,
            JsonField::Absent => JsonFieldView::Absent,
            JsonField::Null => JsonFieldView::Null,
            JsonField::Text(text) => JsonFieldView::Text(text@),
            JsonField::Other => JsonFieldView::Other,
        }
    }
}

/// A field or a failure text as mathematical values.
pub open spec fn field_view(field: Result<JsonField, String>) -> Result<JsonFieldView, Seq<char>> {
    match field {
        Ok(found) => Ok(found@),
        Err(message) => Err(message@),
    }
}

/// A configuration or a store error as mathematical values.
pub open spec fn outcome_view(outcome: Result<Config, StoreError>) -> Result<
    Option<Seq<char>>,
    StoreErrorView,
> {
    match outcome {
        Ok(config) => Ok(config@),
        Err(error) => Err(error@),
    }
}

/// A text or a failure text as mathematical values.
pub open spec fn text_view(outcome: Result<String, String>) -> Result<Seq<char>, Seq<char>> {
    match outcome {
        Ok(text) => Ok(text@),
        Err(message) => Err(message@),
    }
}

/// The characters of an optional string slice.
pub open spec fn opt_str_text(value: Option<&str>) -> Option<Seq<char>> {
    match value {
        Some(s) => Some(s@),
        None => None,
    }
}

/// What the JSON parser finds in `text` under `key`: the field, or the
/// parser's message where `text` is not JSON.
pub uninterp spec fn json_field(text: Seq<char>, key: Seq<char>) -> Result<JsonFieldView, Seq<char>>;

/// The JSON text of an object with the one member `key`, whose value is the
/// given string, or `null` for `None`.
pub uninterp spec fn json_object_text(key: Seq<char>, value: Option<Seq<char>>) -> Seq<char>;

/// Parses `text` with `serde_json::from_str` into a `serde_json::Value` and
/// reports what the document holds under `key`. A parse failure comes back as
/// the text of the `serde_json::Error`. The contract gives the outcome a name
/// and claims nothing else: in particular not which texts are JSON.
#[verifier::external_body]
fn read_field(text: &str, key: &str) -> (field: Result<JsonField, String>)
    ensures
        field_view(field) == json_field(text@, key@),
{
    match serde_json::from_str::<serde_json::Value>(text) {
        Err(error) => Err(error.to_string()),
        Ok(serde_json::Value::Object(members)) => Ok(
            match members.get(key) {
                None => JsonField::Absent,
                Some(serde_json::Value::Null) => JsonField::Null,
                Some(serde_json::Value::String(found)) => JsonField::Text(found.clone()),
                Some(_) => JsonField::Other,
            },
        ),
        Ok(_) => Ok(JsonField::NotObject),
    }
}

/// Builds a `serde_json::Value::Object` with the one member `key`, a string or
/// `null`, and prints it through the value's `Display`, which is serde_json's
/// compact form. The contract gives the text a name and claims nothing else.
#[verifier::external_body]
fn write_field(key: &str, value: Option<&str>) -> (text: String)
    ensures
        text@ == json_object_text(key@, opt_str_text(value)),
{
    let mut members = serde_json::Map::new();
    members.insert(key.to_string(), serde_json::Value::from(value));
    serde_json::Value::Object(members).to_string()
}

/// The configuration that a field of the document stands for, or the parse
/// error where it stands for none.
pub open spec fn decode_field(field: Result<JsonFieldView, Seq<char>>) -> Result<
    Option<Seq<char>>,
    StoreErrorView,
> {
    match field {
        Err(message) => Err(StoreErrorView::StorageParse(message)),
        Ok(JsonFieldView::NotObject) => Err(StoreErrorView::StorageParse(NOT_AN_OBJECT@)),
        Ok(JsonFieldView::Absent) => Ok(None),
        Ok(JsonFieldView::Null) => Ok(None),
        Ok(JsonFieldView::Text(zone)) => Ok(Some(zone)),
        Ok(JsonFieldView::Other) => Err(StoreErrorView::StorageParse(NOT_A_STRING@)),
    }
}

/// The configuration that a document's text stands for.
pub open spec fn parsed(content: Seq<char>) -> Result<Option<Seq<char>>, StoreErrorView> {
    decode_field(json_field(content, TIME_ZONE_KEY@))
}

/// The text that a configuration is stored as.
pub open spec fn config_text(config: Option<Seq<char>>) -> Seq<char> {
    json_object_text(TIME_ZONE_KEY@, config)
}

/// Turns what the parser found under the zone key into a configuration. An
/// absent member and `null` both mean that no zone is selected.
pub fn config_from_field(field: Result<JsonField, String>) -> (outcome: Result<Config, StoreError>)
    ensures
        outcome_view(outcome) == decode_field(field_view(field)),
{
    match field {
        Err(message) => Err(StoreError::StorageParse(message)),
        Ok(JsonField::NotObject) => Err(StoreError::StorageParse(String::from_str(NOT_AN_OBJECT))),
        Ok(JsonField::Absent) => Ok(Config { time_zone: None }),
        Ok(JsonField::Null) => Ok(Config { time_zone: None }),
        Ok(JsonField::Text(zone)) => Ok(Config { time_zone: Some(zone) }),
        Ok(JsonField::Other) => Err(StoreError::StorageParse(String::from_str(NOT_A_STRING))),
    }
}

/// Parses the text of a configuration document.
pub fn parse_config(content: &str) -> (outcome: Result<Config, StoreError>)
    ensures
        outcome_view(outcome) == parsed(content@),
{
    config_from_field(read_field(content, TIME_ZONE_KEY))
}

/// The text to store for a configuration.
pub fn encode_config(config: &Config) -> (text: String)
    ensures
        text@ == config_text(config@),
{
    match &config.time_zone {
        Some(zone) => write_field(TIME_ZONE_KEY, Some(zone.as_str())),
        None => write_field(TIME_ZONE_KEY, None),
    }
}

impl Config {
    /// The configuration of a first run: no zone selected.
    pub fn unset() -> (config: Config)
        ensures
            config@ is None,
    {
        Config { time_zone: None }
    }

    /// A copy of this configuration.
    pub fn copy(&self) -> (config: Config)
        ensures
            config@ == self@,
    {
        Config { time_zone: copy_opt(&self.time_zone) }
    }
}

/// Whether there is nothing stored to parse: no file, or a file without text.
pub open spec fn storage_is_empty(read: StorageReadView) -> bool {
    read == StorageReadView::Missing || read == StorageReadView::Content(Seq::<char>::empty())
}

/// The document that a read stands for: an empty storage reads as the empty
/// object, a failed read as its failure.
pub open spec fn content_of(read: StorageReadView) -> Result<Seq<char>, Seq<char>> {
    match read {
        StorageReadView::Missing => Ok(EMPTY_DOCUMENT@),
        StorageReadView::Content(text) => if text.len() == 0 {
            Ok(EMPTY_DOCUMENT@)
        } else {
            Ok(text)
        },
        StorageReadView::Failed(message) => Err(message),
    }
}

/// The configuration that a read stands for: none selected for an empty
/// storage, else what the stored text parses to.
pub open spec fn loaded(read: StorageReadView) -> Result<Option<Seq<char>>, StoreErrorView> {
    match read {
        StorageReadView::Missing => Ok(None),
        StorageReadView::Content(text) => if text.len() == 0 {
            Ok(None)
        } else {
            parsed(text)
        },
        StorageReadView::Failed(message) => Err(StoreErrorView::StorageIo(message)),
    }
}

/// What `get_config` and `get_config_from_file` return for a cache and a
/// read: the cached value where there is one, whatever the storage holds.
pub open spec fn get_result(cache: Option<Option<Seq<char>>>, read: StorageReadView) -> Result<
    Option<Seq<char>>,
    StoreErrorView,
> {
    match cache {
        Some(config) => Ok(config),
        None => loaded(read),
    }
}

/// The cache after `get_config` or `get_config_from_file`: filled by a
/// successful load, else unchanged.
pub open spec fn cache_after_get(cache: Option<Option<Seq<char>>>, read: StorageReadView) -> Option<
    Option<Seq<char>>,
> {
    match cache {
        Some(config) => cache,
        None => match loaded(read) {
            Ok(config) => Some(config),
            Err(_) => None,
        },
    }
}

/// The outcome of a write as a mathematical value.
pub open spec fn written_view(written: Result<(), String>) -> Result<(), Seq<char>> {
    match written {
        Ok(_) => Ok(()),
        Err(message) => Err(message@),
    }
}

/// What `set_config_content` returns for the outcome of the write.
pub open spec fn set_result(written: Result<(), Seq<char>>) -> Result<Seq<char>, StoreErrorView> {
    match written {
        Ok(_) => Ok(SET_SUCCESS@),
        Err(message) => Err(StoreErrorView::StorageIo(message)),
    }
}

/// The cache after `set_config_content`: the new configuration once it is
/// written, the old cache where the write failed.
pub open spec fn cache_after_set(
    cache: Option<Option<Seq<char>>>,
    config: Option<Seq<char>>,
    written: Result<(), Seq<char>>,
) -> Option<Option<Seq<char>>> {
    match written {
        Ok(_) => Some(config),
        Err(_) => cache,
    }
}

/// A text or a store error as mathematical values.
pub open spec fn answer_view(outcome: Result<String, StoreError>) -> Result<
    Seq<char>,
    StoreErrorView,
> {
    match outcome {
        Ok(text) => Ok(text@),
        Err(error) => Err(error@),
    }
}

/// The text that an empty storage has to be created with, or `None` where the
/// storage holds something already or could not be read.
pub fn initial_content(read: &StorageRead) -> (content: Option<String>)
    ensures
        opt_text(content) == (if storage_is_empty(read@) {
            Some(EMPTY_DOCUMENT@)
        } else {
            None
        }),
{
    match read {
        StorageRead::Missing => Some(String::from_str(EMPTY_DOCUMENT)),
        StorageRead::Content(text) => {
            if text.as_str().is_empty() {
                assert(text@ =~= Seq::<char>::empty());
                Some(String::from_str(EMPTY_DOCUMENT))
            } else {
                None
            }
        },
        StorageRead::Failed(_) => None,
    }
}

/// The text of the configuration document, given what the caller read.
pub fn get_config_content_by_app(read: StorageRead) -> (content: Result<String, String>)
    ensures
        text_view(content) == content_of(read@),
{
    match read {
        StorageRead::Missing => Ok(String::from_str(EMPTY_DOCUMENT)),
        StorageRead::Content(text) => {
            if text.as_str().is_empty() {
                Ok(String::from_str(EMPTY_DOCUMENT))
            } else {
                Ok(text)
            }
        },
        StorageRead::Failed(message) => Err(message),
    }
}

/// The text of the configuration document for a caller that may not have been
/// able to reach the storage at all: `None` stands for that.
pub fn get_config_content(read: Option<StorageRead>) -> (content: Result<String, String>)
    ensures
        text_view(content) == (match read {
            Some(found) => content_of(found@),
            None => Err(NO_APP_HANDLE@),
        }),
{
    match read {
        Some(found) => get_config_content_by_app(found),
        None => Err(String::from_str(NO_APP_HANDLE)),
    }
}

/// The configuration that a read of the storage stands for. No cache has a
/// part in this: it is the step that fills one.
pub fn load_config(read: StorageRead) -> (outcome: Result<Config, StoreError>)
    ensures
        outcome_view(outcome) == loaded(read@),
{
    match read {
        StorageRead::Missing => Ok(Config::unset()),
        StorageRead::Content(text) => {
            if text.as_str().is_empty() {
                Ok(Config::unset())
            } else {
                parse_config(text.as_str())
            }
        },
        StorageRead::Failed(message) => Err(StoreError::StorageIo(message)),
    }
}

/// The cache before the configuration file. It holds the last configuration
/// that was loaded or written, until it is cleared.
pub struct ConfigStore {
    cache: Option<Config>,
}

impl View for ConfigStore {
    type V = Option<Option<Seq<char>>>;

    closed spec fn view(&self) -> Option<Option<Seq<char>>> {
        match self.cache {
            Some(config) => Some(config@),
            None => None,
        }
    }
}

/// An optional configuration as a mathematical value.
pub open spec fn cached_view(cached: Option<Config>) -> Option<Option<Seq<char>>> {
    match cached {
        Some(config) => Some(config@),
        None => None,
    }
}

impl ConfigStore {
    /// A store with an empty cache.
    pub fn new() -> (store: ConfigStore)
        ensures
            store@ is None,
    {
        ConfigStore { cache: None }
    }

    /// The cached configuration, if there is one. Where this is `Some`, no
    /// read of the storage is needed.
    pub fn cached(&self) -> (cached: Option<Config>)
        ensures
            cached_view(cached) == self@,
    {
        match &self.cache {
            Some(config) => Some(config.copy()),
            None => None,
        }
    }
}

/// The configuration as the store and the file give it: the cached one where
/// there is one, whatever `read` holds; else the one that `read` holds, which
/// then fills the cache. A failed load leaves the cache empty.
pub fn get_config_from_file(store: &mut ConfigStore, read: StorageRead) -> (outcome: Result<
    Config,
    StoreError,
>)
    ensures
        outcome_view(outcome) == get_result(old(store)@, read@),
        final(store)@ == cache_after_get(old(store)@, read@),
{
    match &store.cache {
        Some(config) => {
            return Ok(config.copy());
        },
        None => {},
    }
    let outcome = load_config(read);
    match &outcome {
        Ok(config) => {
            store.cache = Some(config.copy());
        },
        Err(_) => {},
    }
    outcome
}

/// The current configuration. This is the getter that the ticker and the
/// tray use; it answers as `get_config_from_file` does, from the cache first.
pub fn get_config(store: &mut ConfigStore, read: StorageRead) -> (outcome: Result<
    Config,
    StoreError,
>)
    ensures
        outcome_view(outcome) == get_result(old(store)@, read@),
        final(store)@ == cache_after_get(old(store)@, read@),
{
    get_config_from_file(store, read)
}

/// Records the outcome of writing `content` to the storage. Once the write
/// has worked the cache holds `content`; where it failed the cache is left as
/// it was and the failure is returned.
pub fn set_config_content(store: &mut ConfigStore, content: Config, written: Result<(), String>) -> (
    outcome: Result<String, StoreError>)
    ensures
        answer_view(outcome) == set_result(written_view(written)),
        final(store)@ == cache_after_set(old(store)@, content@, written_view(written)),
{
    match written {
        Ok(_) => {
            store.cache = Some(content);
            Ok(String::from_str(SET_SUCCESS))
        },
        Err(message) => Err(StoreError::StorageIo(message)),
    }
}

/// Empties the cache, so that the next `get_config` reads the storage again.
pub fn clear_config_cache(store: &mut ConfigStore)
    ensures
        final(store)@ is None,
{
    store.cache = None;
}

/// The configuration to go on with after a failed load: none selected.
pub fn config_or_default(outcome: Result<Config, StoreError>) -> (config: Config)
    ensures
        config@ == (match outcome {
            Ok(loaded) => loaded@,
            Err(_) => None,
        }),
{
    match outcome {
        Ok(loaded) => loaded,
        Err(_) => Config::unset(),
    }
}

/// A configuration that has been set is the one that is got: after a write
/// that worked, `get_config` returns the written configuration, whatever the
/// cache held before and whatever a read of the storage would bring.
pub proof fn set_then_get_round_trip(
    cache: Option<Option<Seq<char>>>,
    config: Option<Seq<char>>,
    read: StorageReadView,
)
    ensures
        get_result(cache_after_set(cache, config, Ok(())), read) == Ok::<
            Option<Seq<char>>,
            StoreErrorView,
        >(config),
        cache_after_get(cache_after_set(cache, config, Ok(())), read) == Some(config),
{
}

/// A write that failed changes nothing: the cache is as before, and where it
/// held a configuration, `get_config` still returns that one.
pub proof fn failed_set_keeps_cache(
    cache: Option<Option<Seq<char>>>,
    config: Option<Seq<char>>,
    message: Seq<char>,
    read: StorageReadView,
)
    ensures
        set_result(Err(message)) is Err,
        cache_after_set(cache, config, Err(message)) == cache,
        cache matches Some(before) ==> get_result(
            cache_after_set(cache, config, Err(message)),
            read,
        ) == Ok::<Option<Seq<char>>, StoreErrorView>(before),
{
}

/// With an empty cache `get_config` goes by the storage alone, and a cache
/// that a load has filled answers the next call without it.
pub proof fn cleared_cache_reloads(read: StorageReadView, later: StorageReadView)
    ensures
        get_result(None, read) == loaded(read),
        loaded(read) is Ok ==> get_result(cache_after_get(None, read), later) == loaded(read),
{
}

} // verus!
