use leeca_core::error::BaseError;
use leeca_core::settings::{BaseSettings, Settings};
use std::io::Write;

/// A throwaway TOML file holding `contents`; the handle keeps the file
/// alive, and the returned string is its path.
fn config_file(contents: &str) -> (tempfile::NamedTempFile, String) {
    let mut file = tempfile::Builder::new()
        .suffix(".toml")
        .tempfile()
        .expect("temporary file");
    file.write_all(contents.as_bytes()).expect("write configuration");
    let path = file.path().to_str().expect("utf-8 path").to_string();
    (file, path)
}

#[test]
fn load_records_location_and_prefix_verbatim() {
    let (_file, path) = config_file("[database]\nurl = \"file-url\"\n");
    let settings = Settings::load(&path, "LEECA_NO_SUCH_PREFIX").expect("load");
    assert_eq!(settings.config.location.as_deref(), Some(path.as_str()));
    assert_eq!(settings.config.env_prefix.as_deref(), Some("LEECA_NO_SUCH_PREFIX"));
}

#[test]
fn load_reads_file_values_into_fields() {
    let (_file, path) =
        config_file("[database]\nurl = \"postgres://db\"\n[logging]\nlog_level = \"info\"\n");
    let settings = Settings::load(&path, "LEECA_NO_SUCH_PREFIX").expect("load");
    assert_eq!(settings.database.url.as_deref(), Some("postgres://db"));
    assert_eq!(settings.logging.log_level.as_deref(), Some("info"));
}

#[test]
fn load_defaults_missing_fields_to_none() {
    let (_file, path) = config_file("");
    let settings = Settings::load(&path, "LEECA_NO_SUCH_PREFIX").expect("load");
    assert_eq!(settings.database.url, None);
    assert_eq!(settings.logging.log_level, None);
}

#[test]
fn environment_overrides_file_value() {
    let (_file, path) = config_file("[database]\nurl = \"A\"\n");
    temp_env::with_var("LEECA_OVR__DATABASE__URL", Some("B"), || {
        let settings = Settings::load(&path, "LEECA_OVR").expect("load");
        assert_eq!(settings.database.url.as_deref(), Some("B"));
    });
}

#[test]
fn environment_supplements_file_value() {
    let (_file, path) = config_file("[database]\nurl = \"A\"\n");
    temp_env::with_var("LEECA_SUP__LOGGING__LOG_LEVEL", Some("debug"), || {
        let settings = Settings::load(&path, "LEECA_SUP").expect("load");
        assert_eq!(settings.database.url.as_deref(), Some("A"));
        assert_eq!(settings.logging.log_level.as_deref(), Some("debug"));
    });
}

#[test]
fn load_from_missing_file_returns_config_error() {
    let result = Settings::load("/no/such/directory/leeca-settings.toml", "LEECA_MISS");
    assert!(matches!(result, Err(BaseError::ConfigError(_))));
}

#[test]
fn load_from_malformed_file_returns_config_error() {
    let (_file, path) = config_file("not ::: toml [ at all");
    let result = Settings::load(&path, "LEECA_BADFILE");
    assert!(matches!(result, Err(BaseError::ConfigError(_))));
}

#[test]
fn structurally_mismatched_field_returns_deserialize_error() {
    let (_file, path) = config_file("[database]\nurl = { nested = \"x\" }\n");
    let result = Settings::load(&path, "LEECA_BADTYPE");
    assert!(matches!(result, Err(BaseError::DeserializeError(_))));
}

#[test]
fn scalar_file_value_is_read_as_its_string_rendering() {
    let (_file, path) = config_file("[logging]\nlog_level = 3\n");
    let settings = Settings::load(&path, "LEECA_COERCE").expect("load");
    assert_eq!(settings.logging.log_level.as_deref(), Some("3"));
}
