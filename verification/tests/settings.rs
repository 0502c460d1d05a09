use back_office::settings::config::{parse_bool, parse_u16};
use back_office::settings::directory::SettingsDirectory;
use back_office::settings::environment::Environment;
use back_office::settings::file_filter::{SettingsFileFilter, TomlSettingsFileFilter};
use back_office::settings::loader::{SettingsEntries, SettingsLoader, SettingsOverwrite};
use back_office::settings::reader::StaticDirectoryReader;

fn entries(pairs: &[(&str, &str)]) -> SettingsEntries {
    pairs
        .iter()
        .map(|(k, v)| (k.to_string(), v.to_string()))
        .collect()
}

fn base_entries() -> SettingsEntries {
    entries(&[
        ("database.username", "postgres"),
        ("database.password", "SECRET-REDACTED"),
        ("database.port", "5432"),
        ("database.host", "127.0.0.1"),
        ("database.db_name", "back_office"),
        ("database.require_ssl", "false"),
        ("application.port", "8000"),
        ("application.host", "127.0.0.1"),
        ("application.base_url", "http://127.0.0.1"),
        ("application.environment", "testing"),
        ("application.version", "1.0.0"),
        ("application.name", "tests-back-office"),
    ])
}

#[test]
fn uses_project_root_config_directory_by_default() {
    let loader = SettingsLoader::default();
    assert!(loader.directory().as_str().contains("config"));
}

#[test]
fn allows_overriding_the_config_directory() {
    let mut loader = SettingsLoader::default();

    assert!(loader
        .change_directory("tests/fixtures/config")
        .directory()
        .as_str()
        .contains("tests/fixtures/config"));
}

#[test]
fn deserializes_configuration_files_correctly() {
    let reader = StaticDirectoryReader::new(vec![(
        "tests/fixtures/config".to_string(),
        vec!["tests/fixtures/config/base.config.toml".to_string()],
    )]);
    let mut loader = SettingsLoader::new(
        SettingsDirectory::new("config".to_string()),
        SettingsOverwrite::Enabled,
        Environment::Development,
        reader,
        TomlSettingsFileFilter::new(),
    );
    let loader = loader.change_directory("tests/fixtures/config").disable_overwrites().load_files();
    assert_eq!(loader.files, vec!["tests/fixtures/config/base.config.toml".to_string()]);

    let config = loader.deserialize(&vec![base_entries()]).unwrap();

    assert_eq!(config.application.environment, "testing");
    assert_eq!(config.application.name, "tests-back-office");
}

#[test]
fn merges_with_the_environment_overwrites() {
    let reader = StaticDirectoryReader::new(vec![
        (
            "tests/fixtures/config".to_string(),
            vec!["tests/fixtures/config/base.config.toml".to_string()],
        ),
        (
            "tests/fixtures/config/development".to_string(),
            vec!["tests/fixtures/config/development/dev.config.toml".to_string()],
        ),
    ]);
    let mut loader = SettingsLoader::new(
        SettingsDirectory::new("tests/fixtures/config".to_string()),
        SettingsOverwrite::Enabled,
        Environment::Development,
        reader,
        TomlSettingsFileFilter::new(),
    );
    let loader = loader.load_files();
    assert_eq!(
        loader.files,
        vec![
            "tests/fixtures/config/base.config.toml".to_string(),
            "tests/fixtures/config/development/dev.config.toml".to_string(),
        ]
    );

    let overwrite = entries(&[("application.name", "dev-overwritten-tests")]);
    let config = loader.deserialize(&vec![base_entries(), overwrite]).unwrap();

    assert_eq!(config.application.name, "dev-overwritten-tests");
    assert_eq!(config.application.environment, "testing");
    assert_eq!(config.application.version, "1.0.0");
}

#[test]
fn deserialize_fails_when_a_key_is_missing() {
    let loader = SettingsLoader::default();
    let incomplete = entries(&[("application.name", "tests-back-office")]);

    let outcome = loader.deserialize(&vec![incomplete]);
    assert_eq!(
        outcome.unwrap_err(),
        "Failed to deserialize the configuration"
    );
}

#[test]
fn keeps_only_configuration_files() {
    let filter = TomlSettingsFileFilter::new();
    let kept = filter.filter_config_files(vec![
        "config/base.config.toml".to_string(),
        "config/readme.md".to_string(),
        "config/prod.config.toml".to_string(),
        "some.config.toml/other.txt".to_string(),
    ]);

    assert_eq!(
        kept,
        vec![
            "config/base.config.toml".to_string(),
            "config/prod.config.toml".to_string(),
        ]
    );
}

#[test]
fn environment_names_parse_in_any_ascii_case() {
    assert_eq!(
        Environment::parse("LOCAL".to_string()).unwrap(),
        Environment::Development
    );
    assert_eq!(
        Environment::parse("development".to_string()).unwrap(),
        Environment::Development
    );
    assert_eq!(
        Environment::parse("Testing".to_string()).unwrap(),
        Environment::Development
    );
    assert_eq!(
        Environment::parse("Production".to_string()).unwrap(),
        Environment::Production
    );
    assert_eq!(
        Environment::parse("staging".to_string()).unwrap_err(),
        "staging is not a supported environment"
    );
    assert_eq!(Environment::Production.as_str(), "production");
}

#[test]
fn ports_parse_as_sixteen_bit_numbers() {
    assert_eq!(parse_u16("5432"), Some(5432));
    assert_eq!(parse_u16("0"), Some(0));
    assert_eq!(parse_u16("65535"), Some(65535));
    assert_eq!(parse_u16("65536"), None);
    assert_eq!(parse_u16(""), None);
    assert_eq!(parse_u16("54x2"), None);
    assert_eq!(parse_u16("-1"), None);
}

#[test]
fn tls_switches_parse_as_truth_values() {
    assert_eq!(parse_bool("true"), Some(true));
    assert_eq!(parse_bool("false"), Some(false));
    assert_eq!(parse_bool("yes"), None);
}
