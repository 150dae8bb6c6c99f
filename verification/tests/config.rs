use maraetai::config::{
    config_path, control_socket_path, pidfile_path, runtime_dir, Config, ConfigFile, Credentials,
    Error, KeyringReply, Written, DEFAULT_IDLE_TIMEOUT_SECS,
};
use maraetai::time::Duration;

/// The text of a configuration file.
fn written(config: &Config) -> String {
    assert!(config.writable());
    config.save().unwrap()
}

fn read(text: &str) -> Result<Config, Error> {
    Config::load("config.toml", ConfigFile::Text(text.to_string()))
}

#[test]
fn round_trips_through_toml() {
    let cfg = Config {
        server_url: "https://music.example.com".into(),
        username: "alice".into(),
        idle_timeout_secs: Some(600),
        output_device: Some("USB DAC".into()),
    };
    let loaded = read(&written(&cfg)).unwrap();
    assert_eq!(cfg, loaded);
}

#[test]
fn missing_file_is_a_distinct_error() {
    assert!(matches!(
        Config::load("does-not-exist.toml", ConfigFile::Absent),
        Err(Error::ConfigMissing(_))
    ));
}

#[test]
fn never_serializes_a_password_field() {
    let cfg = Config {
        server_url: "https://music.example.com".into(),
        username: "alice".into(),
        idle_timeout_secs: None,
        output_device: None,
    };
    let raw = written(&cfg);
    assert!(!raw.contains("password"));
}

#[test]
fn idle_timeout_falls_back_to_default_when_unset() {
    let cfg = Config {
        server_url: "https://music.example.com".into(),
        username: "alice".into(),
        idle_timeout_secs: None,
        output_device: None,
    };
    assert_eq!(cfg.idle_timeout(), Duration::from_secs(DEFAULT_IDLE_TIMEOUT_SECS));
}

#[test]
fn idle_timeout_uses_configured_value() {
    let cfg = Config {
        server_url: "https://music.example.com".into(),
        username: "alice".into(),
        idle_timeout_secs: Some(60),
        output_device: None,
    };
    assert_eq!(cfg.idle_timeout(), Duration::from_secs(60));
}

#[test]
fn absent_idle_timeout_field_deserializes_as_none() {
    let cfg = read("server_url = \"https://music.example.com\"\nusername = \"alice\"\n").unwrap();
    assert_eq!(cfg.idle_timeout_secs, None);
}

#[test]
fn an_unset_setting_is_not_written() {
    let cfg = Config {
        server_url: "https://music.example.com".into(),
        username: "alice".into(),
        idle_timeout_secs: None,
        output_device: None,
    };
    assert_eq!(
        cfg.settings(),
        Some(vec![
            ("server_url".to_string(), Written::Text("https://music.example.com".to_string())),
            ("username".to_string(), Written::Text("alice".to_string())),
        ])
    );
    assert_eq!(
        written(&cfg),
        "server_url = \"https://music.example.com\"\nusername = \"alice\"\n"
    );
    assert_eq!(read(&written(&cfg)).unwrap(), cfg);
}

#[test]
fn any_text_reads_back() {
    let strange = [
        "",
        "two\nlines\r\n",
        "\n\n starts late",
        "a \"quoted\" name",
        "'\"'\"\"'''\"\"\"",
        "back\\slash \\n",
        "\t\u{0}\u{7f}\u{8}",
        "caf\u{e9} \u{1f3b5} \u{feff}",
        "ends in \"\"",
        "ends in ''\\",
    ];
    for text in strange {
        let cfg = Config {
            server_url: text.to_string(),
            username: "alice".into(),
            idle_timeout_secs: Some(0),
            output_device: Some(text.to_string()),
        };
        assert_eq!(read(&written(&cfg)), Ok(cfg), "{text:?}");
    }
}

#[test]
fn long_runs_of_quotation_marks_cannot_be_written() {
    let named = |username: String| Config {
        server_url: String::new(),
        username,
        idle_timeout_secs: None,
        output_device: None,
    };
    let longest = named("\"".repeat(255) + &"'".repeat(255));
    assert_eq!(read(&written(&longest)), Ok(longest));
    assert!(!named("x".to_string() + &"'".repeat(256)).writable());
    assert!(!named("\"".repeat(256)).writable());
}

#[test]
fn a_timeout_past_the_integers_of_toml_cannot_be_written() {
    let cfg = Config {
        server_url: String::new(),
        username: String::new(),
        idle_timeout_secs: Some(u64::MAX),
        output_device: None,
    };
    assert_eq!(cfg.save(), None);
}

#[test]
fn a_file_that_cannot_be_read_says_why() {
    assert_eq!(
        Config::load("config.toml", ConfigFile::Unreadable("permission denied".to_string())),
        Err(Error::ConfigRead {
            path: "config.toml".to_string(),
            reason: "permission denied".to_string(),
        })
    );
}

#[test]
fn a_file_of_the_wrong_shape_is_refused() {
    let refused: Result<Config, Error> = Err(Error::ConfigParse { path: "config.toml".to_string() });
    assert_eq!(read("server_url ="), refused, "no TOML");
    assert_eq!(read("server_url = \"x\""), refused, "no user");
    assert_eq!(read("server_url = 7\nusername = \"alice\""), refused, "no text");
    assert_eq!(
        read("server_url = \"x\"\nusername = \"alice\"\nidle_timeout_secs = -1"),
        refused,
        "no count"
    );
    assert_eq!(
        read("server_url = \"x\"\nusername = \"alice\"\noutput_device = 1"),
        refused,
        "no device name"
    );
}

#[test]
fn a_setting_that_nothing_reads_is_ignored() {
    let cfg = read("server_url = \"x\"\nusername = \"alice\"\ntheme = \"dark\"\n").unwrap();
    assert_eq!(cfg.username, "alice");
}

#[test]
fn credentials_take_the_password_of_the_keyring() {
    let cfg = || Config {
        server_url: "https://music.example.com".into(),
        username: "alice".into(),
        idle_timeout_secs: None,
        output_device: None,
    };
    let found = Credentials::load(cfg(), KeyringReply::Found("hunter2".to_string()));
    assert!(found.is_ok_and(|c| c.username == "alice" && c.password == "hunter2"));
    let none = Credentials::load(cfg(), KeyringReply::NoEntry);
    assert!(none.is_err_and(|e| e == Error::PasswordMissing { username: "alice".to_string() }));
    let failed = Credentials::load(cfg(), KeyringReply::Failed("locked".to_string()));
    assert!(failed.is_err_and(|e| e == Error::Keyring("locked".to_string())));
}

#[test]
fn logging_in_again_keeps_the_settings_of_the_daemon() {
    let existing = Config {
        server_url: "https://old.example.com".into(),
        username: "bob".into(),
        idle_timeout_secs: Some(60),
        output_device: Some("USB DAC".into()),
    };
    let saved = Credentials::save("https://new.example.com".into(), "alice".into(), Some(existing));
    assert_eq!(saved.server_url, "https://new.example.com");
    assert_eq!(saved.username, "alice");
    assert_eq!(saved.idle_timeout_secs, Some(60));
    assert_eq!(saved.output_device.as_deref(), Some("USB DAC"));
    let first = Credentials::save("https://new.example.com".into(), "alice".into(), None);
    assert_eq!(first.idle_timeout_secs, None);
    assert_eq!(first.output_device, None);
}

#[test]
fn paths_stand_in_their_directories() {
    assert_eq!(
        config_path(Some("/home/alice/.config/maraetai")),
        Ok("/home/alice/.config/maraetai/config.toml".to_string())
    );
    assert_eq!(config_path(None), Err(Error::NoConfigDir));
    assert_eq!(runtime_dir(Some("/run/user/1000"), "/tmp", 1000), "/run/user/1000/maraetai");
    assert_eq!(
        pidfile_path(Some("/run/user/1000"), "/tmp", 1000),
        "/run/user/1000/maraetai/daemon.pid"
    );
    assert_eq!(
        control_socket_path(Some("/run/user/1000/"), "/tmp", 1000),
        "/run/user/1000/maraetai/control.sock"
    );
}

#[test]
fn without_a_runtime_directory_each_user_has_one_of_their_own() {
    assert_eq!(runtime_dir(None, "/tmp", 1000), "/tmp/maraetai-1000");
    assert_eq!(runtime_dir(Some(""), "/tmp", 0), "/tmp/maraetai-0");
    assert_eq!(pidfile_path(None, "/var/tmp/", 1001), "/var/tmp/maraetai-1001/daemon.pid");
}
