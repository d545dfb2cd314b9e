use tasc::settings::{Configuration, SettingsError, StorageConfiguration};

fn settings(items: &[(&str, &str)]) -> config::Config {
    let mut settings = config::Config::default();
    for (key, value) in items {
        settings.set(key, *value).unwrap();
    }
    settings
}

#[test]
fn in_memory_storage() {
    assert_eq!(
        StorageConfiguration::try_from(settings(&[("storage", "inmemory")])),
        Ok(StorageConfiguration::InMemory)
    );
    assert_eq!(
        Configuration::try_from(settings(&[("storage", "inmemory")])),
        Ok(Configuration { storage: StorageConfiguration::InMemory })
    );
}

#[test]
fn database_storage_takes_its_address() {
    assert_eq!(
        StorageConfiguration::try_from(settings(&[
            ("storage", "database"),
            ("DATABASE_URL", "test.db"),
        ])),
        Ok(StorageConfiguration::Database { database_url: "test.db".to_string() })
    );
    assert_eq!(
        StorageConfiguration::try_from(settings(&[
            ("storage", "database"),
            ("database.url", "nested.db"),
        ])),
        Ok(StorageConfiguration::Database { database_url: "nested.db".to_string() })
    );
    assert_eq!(
        Configuration::try_from(settings(&[
            ("storage", "database"),
            ("DATABASE_URL", "first.db"),
            ("database.url", "second.db"),
        ])),
        Ok(Configuration {
            storage: StorageConfiguration::Database { database_url: "first.db".to_string() }
        })
    );
}

#[test]
fn database_without_address_is_refused() {
    let error =
        StorageConfiguration::try_from(settings(&[("storage", "database")])).unwrap_err();
    assert!(matches!(
        &error,
        SettingsError::Unreadable { key, .. } if key == "database.url"
    ));
}

#[test]
fn missing_storage_is_refused() {
    let error = Configuration::try_from(settings(&[])).unwrap_err();
    assert!(matches!(&error, SettingsError::Unreadable { key, .. } if key == "storage"));
    if let SettingsError::Unreadable { cause, .. } = &error {
        assert_eq!(&error.message(), cause);
        assert!(!cause.is_empty());
    }
}

#[test]
fn unknown_storage_is_refused() {
    let error =
        StorageConfiguration::try_from(settings(&[("storage", "papyrus")])).unwrap_err();
    assert_eq!(error, SettingsError::InvalidStorage("papyrus".to_string()));
    assert_eq!(error.message(), "papyrus is not a valid configuration for storage");
    assert_eq!(
        Configuration::try_from(settings(&[("storage", "Database")])),
        Err(SettingsError::InvalidStorage("Database".to_string()))
    );
}

#[test]
fn storage_from_settings_as_they_were_read() {
    let missing = |what: &str| Err(format!("{} is missing", what));
    assert_eq!(
        StorageConfiguration::from_settings(
            Ok("inmemory".to_string()),
            missing("DATABASE_URL"),
            missing("database.url")
        ),
        Ok(StorageConfiguration::InMemory)
    );
    assert_eq!(
        StorageConfiguration::from_settings(
            Ok("database".to_string()),
            Ok("first.db".to_string()),
            Ok("second.db".to_string())
        ),
        Ok(StorageConfiguration::Database { database_url: "first.db".to_string() })
    );
    assert_eq!(
        StorageConfiguration::from_settings(
            Ok("database".to_string()),
            missing("DATABASE_URL"),
            Ok("second.db".to_string())
        ),
        Ok(StorageConfiguration::Database { database_url: "second.db".to_string() })
    );
    assert_eq!(
        StorageConfiguration::from_settings(
            Ok("database".to_string()),
            missing("DATABASE_URL"),
            missing("database.url")
        ),
        Err(SettingsError::Unreadable {
            key: "database.url".to_string(),
            cause: "database.url is missing".to_string(),
        })
    );
    assert_eq!(
        StorageConfiguration::from_settings(
            missing("storage"),
            Ok("first.db".to_string()),
            Ok("second.db".to_string())
        ),
        Err(SettingsError::Unreadable {
            key: "storage".to_string(),
            cause: "storage is missing".to_string(),
        })
    );
    assert_eq!(
        StorageConfiguration::from_settings(
            Ok("".to_string()),
            Ok("first.db".to_string()),
            Ok("second.db".to_string())
        ),
        Err(SettingsError::InvalidStorage(String::new()))
    );
}

#[test]
fn settings_are_read_as_text() {
    let config = settings(&[("storage", "inmemory")]);
    assert_eq!(tasc::settings::read_setting(&config, "storage"), Ok("inmemory".to_string()));
    assert!(tasc::settings::read_setting(&config, "database.url").is_err());
}

#[test]
fn settings_are_not_read_by_subscripts() {
    let mut config = settings(&[("storage", "inmemory")]);
    config.set("items", vec!["a", "b"]).unwrap();
    let refused = Err("A setting is not read by a subscript".to_string());
    assert_eq!(tasc::settings::read_setting(&config, "items[-3]"), refused);
    assert_eq!(tasc::settings::read_setting(&config, "items[0]"), refused);
    assert_eq!(tasc::settings::read_setting(&config, "storage["), refused);
    assert_eq!(tasc::settings::read_setting(&config, "["), refused);
}
