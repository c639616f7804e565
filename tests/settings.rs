use debmagic::cli::{Cli, Commands};
use debmagic::settings::{Config, ConfigLoadError, Setting};

#[test]
fn it_loads_a_simple_config() -> Result<(), ConfigLoadError> {
    let cfg = Config::new(
        &vec!["dry_run = true\n".to_string()],
        &Cli {
            config: None,
            command: Commands::Version {},
        },
    )?;
    assert!(cfg.dry_run);

    Ok(())
}

fn no_cli() -> Cli {
    Cli { config: None, command: Commands::Version {} }
}

#[test]
fn missing_keys_take_defaults() {
    let cfg = Config::new(&vec![], &no_cli()).unwrap();
    assert!(!cfg.dry_run);
    assert_eq!(cfg.temp_build_dir, "/tmp/debmagic");
    assert_eq!(cfg.driver.docker.base_image, None);
    assert!(!cfg.driver.docker.persistent);
}

#[test]
fn later_files_override_earlier_ones() {
    let cfg = Config::new(
        &vec![
            "dry_run = true\ntemp_build_dir = \"/var/tmp/a\"\n".to_string(),
            "temp_build_dir = \"/var/tmp/b\"\n[driver.docker]\nbase_image = \"ubuntu:24.04\"\npersistent = true\n"
                .to_string(),
        ],
        &no_cli(),
    )
    .unwrap();
    assert!(cfg.dry_run);
    assert_eq!(cfg.temp_build_dir, "/var/tmp/b");
    assert_eq!(cfg.driver.docker.base_image, Some("ubuntu:24.04".to_string()));
    assert!(cfg.driver.docker.persistent);
}

#[test]
fn a_value_of_the_wrong_kind_is_refused() {
    let r = Config::new(&vec!["dry_run = [1, 2]\n".to_string()], &no_cli());
    assert_eq!(r.unwrap_err(), ConfigLoadError::InvalidValue { key: "dry_run".to_string() });
}

#[test]
fn unparsable_toml_is_refused() {
    let r = Config::new(&vec!["dry_run = = =\n".to_string()], &no_cli());
    assert!(matches!(r, Err(ConfigLoadError::Unreadable(_))));
}

#[test]
fn from_settings_reports_the_first_invalid_key() {
    let r = Config::from_settings(
        Setting::Value(true),
        Setting::Missing,
        Setting::Invalid,
        Setting::Invalid,
    );
    assert_eq!(
        r.unwrap_err(),
        ConfigLoadError::InvalidValue { key: "driver.docker.base_image".to_string() }
    );
    let c = Config::from_settings(
        Setting::Missing,
        Setting::Value("/x".to_string()),
        Setting::Missing,
        Setting::Value(true),
    )
    .unwrap();
    assert_eq!(c.temp_build_dir, "/x");
    assert!(c.driver.docker.persistent);
    assert!(!c.dry_run);
}

#[test]
fn build_overrides_replace_only_what_is_given() {
    let mut c = Config::new_default();
    c.apply_build_overrides(Some("ubuntu:24.04".to_string()), None);
    assert_eq!(c.driver.docker.base_image, Some("ubuntu:24.04".to_string()));
    assert!(!c.driver.docker.persistent);
    c.apply_build_overrides(None, Some(true));
    assert_eq!(c.driver.docker.base_image, Some("ubuntu:24.04".to_string()));
    assert!(c.driver.docker.persistent);
}

#[test]
fn default_settings() {
    let c = Config::default();
    assert!(!c.dry_run);
    assert_eq!(c.temp_build_dir, "/tmp/debmagic");
}

#[test]
fn attach_wait_settings() {
    let c = Config::new(&vec![], &no_cli()).unwrap();
    assert_eq!(c.attach_wait.poll_interval_ms, 500);
    assert_eq!(c.attach_wait.max_polls, None);
    let c = Config::new(
        &vec!["attach_poll_interval_ms = 50\nattach_max_wait_polls = 3\n".to_string()],
        &no_cli(),
    )
    .unwrap();
    assert_eq!(c.attach_wait.poll_interval_ms, 50);
    assert_eq!(c.attach_wait.max_polls, Some(3));
    let r = Config::new(&vec!["attach_poll_interval_ms = -1\n".to_string()], &no_cli());
    assert_eq!(
        r.unwrap_err(),
        ConfigLoadError::InvalidValue { key: "attach_poll_interval_ms".to_string() }
    );
}

#[test]
fn quoted_dotted_key_and_table_resolve_in_document_order() {
    let text = "\"driver.docker.base_image\" = \"y\"\n[driver.docker]\nbase_image = \"x\"\n";
    let first = Config::new(&vec![text.to_string()], &no_cli()).unwrap();
    for _ in 0..20 {
        let again = Config::new(&vec![text.to_string()], &no_cli()).unwrap();
        assert_eq!(again.driver.docker.base_image, first.driver.docker.base_image);
    }
}
