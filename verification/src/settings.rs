//! The settings of the program: which store to use.

use vstd::prelude::*;
use vstd::string::*;
use crate::text::{find_char, free_of, lemma_first_at_bounds};

verus! {

#[verifier::external_type_specification]
#[verifier::external_body]
pub struct ExConfig(config::Config);

#[verifier::external_type_specification]
#[verifier::external_body]
pub struct ExConfigError(config::ConfigError);

/// The settings that a configuration gives as text: each key that
/// `Config::get_str` answers, with its answer.
pub uninterp spec fn config_strings(config: config::Config) -> Map<Seq<char>, Seq<char>>;

/// Calls `Config::get_str`, which looks the key up in what the
/// configuration has loaded and reads the value as text; where it finds
/// none, or one that is no text, it gives an error. A key with a subscript
/// is left out: on a subscript below zero the lookup may not return.
#[verifier::external_body]
fn config_get_str(config: &config::Config, key: &str) -> (value: Result<
    String,
    config::ConfigError,
>)
    requires
        free_of(key@, '['),
    ensures
        match value {
            Ok(text) => config_strings(*config).contains_key(key@) && config_strings(*config)[key@]
                == text@,
            Err(_) => !config_strings(*config).contains_key(key@),
        },
{
    config.get_str(key)
}

/// Writes a `ConfigError` with its `Display`.
#[verifier::external_body]
fn config_error_text(error: &config::ConfigError) -> (text: String) {
    error.to_string()
}

/// Why the settings could not be used.
#[derive(Debug, PartialEq)]
pub enum SettingsError {
    /// The setting `key` is missing or is no text; `cause` is what the
    /// configuration said of it.
    Unreadable { key: String, cause: String },
    /// The setting `storage` names no kind of store.
    InvalidStorage(String),
}

impl SettingsError {
    /// What the failure says of itself.
    pub fn message(&self) -> (text: String)
        ensures
            text@ == match self {
                SettingsError::Unreadable { cause, .. } => cause@,
                SettingsError::InvalidStorage(other) => other@
                    + " is not a valid configuration for storage"@,
            },
    {
        match self {
            SettingsError::Unreadable { cause, .. } => cause.clone(),
            SettingsError::InvalidStorage(other) => other.clone().concat(
                " is not a valid configuration for storage",
            ),
        }
    }
}

/// The kind of store to use.
#[derive(Debug, PartialEq)]
pub enum StorageConfiguration {
    /// A database, reached by `database_url`.
    Database { database_url: String },
    /// A store in memory.
    InMemory,
}

/// The settings of the program.
#[derive(Debug, PartialEq)]
pub struct Configuration {
    pub storage: StorageConfiguration,
}

/// A setting as it was read: its text, or why it could not be read.
pub open spec fn setting_of(strings: Map<Seq<char>, Seq<char>>, key: Seq<char>) -> Option<
    Seq<char>,
> {
    if strings.contains_key(key) {
        Some(strings[key])
    } else {
        None
    }
}

/// Whether `outcome` is the store that three settings ask for, each given
/// as its text or as `None` where it could not be read.
///
/// The setting `storage` chooses: `inmemory` the store in memory, `database`
/// a database, reached by `database_url` or, where that is missing, by
/// `fallback_url`. Any other value is refused, and so are settings that lack
/// `storage`, or a database without either address.
pub open spec fn is_storage_choice(
    storage: Option<Seq<char>>,
    database_url: Option<Seq<char>>,
    fallback_url: Option<Seq<char>>,
    outcome: Result<StorageConfiguration, SettingsError>,
) -> bool {
    match storage {
        None => outcome matches Err(SettingsError::Unreadable { key, .. }) && key@ == "storage"@,
        Some(kind) => if kind == "database"@ {
            match (database_url, fallback_url) {
                (Some(url), _) => outcome matches Ok(StorageConfiguration::Database { database_url })
                    && database_url@ == url,
                (None, Some(url)) => outcome matches Ok(
                    StorageConfiguration::Database { database_url },
                ) && database_url@ == url,
                (None, None) => outcome matches Err(SettingsError::Unreadable { key, .. }) && key@
                    == "database.url"@,
            }
        } else if kind == "inmemory"@ {
            outcome matches Ok(StorageConfiguration::InMemory)
        } else {
            outcome matches Err(SettingsError::InvalidStorage(other)) && other@ == kind
        },
    }
}

/// The text of a setting that was read with success.
pub open spec fn text_of(read: Result<String, String>) -> Option<Seq<char>> {
    match read {
        Ok(text) => Some(text@),
        Err(_) => None,
    }
}

/// Reads the setting `key` of `config` as text, or says why it could not
/// be read. Settings are named by words and dots: a key that holds `[` is
/// not looked up.
pub fn read_setting(config: &config::Config, key: &str) -> (read: Result<String, String>)
    ensures
        free_of(key@, '[') ==> text_of(read) == setting_of(config_strings(*config), key@),
        !free_of(key@, '[') ==> (read matches Err(cause) && cause@
            == "A setting is not read by a subscript"@),
{
    let at = find_char(key, '[');
    proof {
        lemma_first_at_bounds(key@, '[');
    }
    if at < key.unicode_len() {
        return Err(String::from_str("A setting is not read by a subscript"));
    }
    match config_get_str(config, key) {
        Ok(text) => Ok(text),
        Err(error) => Err(config_error_text(&error)),
    }
}

impl StorageConfiguration {
    /// The store that three settings ask for, each as it was read: its text,
    /// or why it could not be read. `storage` chooses the kind of store, and
    /// a database is reached by `database_url` or, where that could not be
    /// read, by `fallback_url`. A failure names the setting `storage` or
    /// `database.url` and keeps the reason.
    pub fn from_settings(
        storage: Result<String, String>,
        database_url: Result<String, String>,
        fallback_url: Result<String, String>,
    ) -> (outcome: Result<StorageConfiguration, SettingsError>)
        ensures
            is_storage_choice(text_of(storage), text_of(database_url), text_of(fallback_url), outcome),
            outcome matches Err(SettingsError::Unreadable { key, cause }) ==> cause@ == (if storage
                is Err {
                storage->Err_0@
            } else {
                fallback_url->Err_0@
            }),
    {
        let kind = match storage {
            Ok(kind) => kind,
            Err(cause) => {
                return Err(SettingsError::Unreadable { key: String::from_str("storage"), cause });
            },
        };
        if kind == String::from_str("database") {
            match database_url {
                Ok(database_url) => Ok(StorageConfiguration::Database { database_url }),
                Err(_) => match fallback_url {
                    Ok(database_url) => Ok(StorageConfiguration::Database { database_url }),
                    Err(cause) => Err(
                        SettingsError::Unreadable { key: String::from_str("database.url"), cause },
                    ),
                },
            }
        } else if kind == String::from_str("inmemory") {
            Ok(StorageConfiguration::InMemory)
        } else {
            Err(SettingsError::InvalidStorage(kind))
        }
    }

    /// The store that the configuration `value` asks for: its setting
    /// `storage` chooses the kind, and a database is reached by the setting
    /// `DATABASE_URL` or, where that is missing, `database.url`.
    pub fn try_from(value: config::Config) -> (outcome: Result<StorageConfiguration, SettingsError>)
        ensures
            is_storage_choice(
                setting_of(config_strings(value), "storage"@),
                setting_of(config_strings(value), "DATABASE_URL"@),
                setting_of(config_strings(value), "database.url"@),
                outcome,
            ),
    {
        proof {
            reveal_strlit("storage");
            reveal_strlit("DATABASE_URL");
            reveal_strlit("database.url");
        }
        let storage = read_setting(&value, "storage");
        let database_url = read_setting(&value, "DATABASE_URL");
        let fallback_url = read_setting(&value, "database.url");
        StorageConfiguration::from_settings(storage, database_url, fallback_url)
    }
}

impl Configuration {
    /// The settings that the configuration `value` holds.
    pub fn try_from(value: config::Config) -> (outcome: Result<Configuration, SettingsError>)
        ensures
            match outcome {
                Ok(settings) => is_storage_choice(
                    setting_of(config_strings(value), "storage"@),
                    setting_of(config_strings(value), "DATABASE_URL"@),
                    setting_of(config_strings(value), "database.url"@),
                    Ok(settings.storage),
                ),
                Err(error) => is_storage_choice(
                    setting_of(config_strings(value), "storage"@),
                    setting_of(config_strings(value), "DATABASE_URL"@),
                    setting_of(config_strings(value), "database.url"@),
                    Err(error),
                ),
            },
    {
        match StorageConfiguration::try_from(value) {
            Ok(storage) => Ok(Configuration { storage }),
            Err(error) => Err(error),
        }
    }
}

} // verus!
