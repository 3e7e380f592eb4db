use pigeons::config::{
    config_path_for_home, config_path_for_user, effective_telemetry, installing_user,
    installing_user_telemetry_choice, publish_steps, publish_telemetry_choice_to, Config,
    ConfigError, ConfigOwner, ConfigParseError, FileRead, Layers, PathBelow, PathError, StoreStep,
};
use std::path::{Path, PathBuf};

type Read = FileRead<&'static str>;

fn file(text: &str) -> Read {
    FileRead::Contents(text.as_bytes().to_vec())
}

fn absent() -> Read {
    FileRead::Missing
}

fn joined<D: AsRef<Path>>(path: &PathBelow<D>) -> PathBuf {
    let mut whole = path.dir.as_ref().to_path_buf();
    for component in &path.components {
        whole.push(component);
    }
    whole
}

#[test]
fn empty_config() {
    let config = Config::from_toml(b"").unwrap();
    assert!(!config.telemetry_enabled());
}

#[test]
fn declining_telemetry_still_counts_as_configured() {
    let unasked = Config::from_toml(b"").unwrap();
    assert!(!unasked.telemetry_configured());

    let declined = Config::from_toml(b"telemetry_enabled = false").unwrap();
    assert!(declined.telemetry_configured());
    assert!(!declined.telemetry_enabled());
}

#[test]
fn user_config_wins_over_the_machine_wide_one() {
    let user = file("telemetry_enabled = false");
    let system = file("telemetry_enabled = true");

    let config =
        Config::load_with_fallback(Config::load_from(user), Config::load_from(system)).unwrap();

    assert!(!config.telemetry_enabled());
}

#[test]
fn machine_wide_config_fills_in_an_unanswered_user_config() {
    let system = file("telemetry_enabled = true");

    let config =
        Config::load_with_fallback(Config::load_from(absent()), Config::load_from(system)).unwrap();

    assert!(config.telemetry_enabled());
}

#[test]
fn telemetry_stays_off_when_neither_layer_exists() {
    let config =
        Config::load_with_fallback(Config::load_from(absent()), Config::load_from(absent()))
            .unwrap();

    assert!(!config.telemetry_configured());
    assert!(!config.telemetry_enabled());
}

#[test]
fn publishing_a_choice_writes_the_machine_wide_config() {
    for enabled in [true, false] {
        let text = publish_telemetry_choice_to(Some(enabled), absent()).unwrap().unwrap();
        let effective = effective_telemetry(file(&text));

        assert_eq!(effective, enabled);
        assert_eq!(Config::load_from(file(&text)).unwrap().telemetry_enabled(), enabled);
    }
}

#[test]
fn publishing_nothing_keeps_the_existing_machine_wide_answer() {
    let system = "telemetry_enabled = true";

    assert_eq!(publish_telemetry_choice_to(None, file(system)).unwrap(), None);
    let effective = effective_telemetry(file(system));

    assert!(effective);
}

#[test]
fn publishing_nothing_onto_a_bare_machine_leaves_the_service_opted_out() {
    let written = publish_telemetry_choice_to(None, absent()).unwrap();
    let effective = effective_telemetry(absent());

    assert!(!effective);
    assert!(written.is_none(), "nothing to record, nothing to write");
}

#[test]
fn machine_wide_config_is_world_readable() {
    assert!(publish_telemetry_choice_to(Some(true), absent()).unwrap().is_some());

    let steps = Config::store_steps(true, true);
    let written = steps.iter().position(|s| *s == StoreStep::Write).unwrap();
    let mode = steps.iter().position(|s| *s == StoreStep::SetFileMode(0o644)).unwrap();
    assert!(written < mode);
    let dir_mode = steps.iter().position(|s| *s == StoreStep::SetDirMode(0o755)).unwrap();
    assert!(written < dir_mode);
}

#[test]
fn config_path_for_user_lands_in_that_users_home() {
    // A process may run under an account that the machine has no record of; the
    // account to look up is then that of the administrator.
    let (me, home) = match whoami::username() {
        Ok(me) => (me, homedir::my_home().unwrap().unwrap()),
        Err(_) => (String::from("root"), homedir::home("root").unwrap().unwrap()),
    };

    let path = config_path_for_user(&me, "linux").expect("current user has a home directory");
    let path = joined(&path);

    assert!(path.starts_with(&home), "{path:?} is not under {home:?}");
    assert!(path.ends_with("pigeons/config.toml"), "{path:?}");
}

#[test]
fn config_path_in_a_home_matches_the_platform_layout() {
    for os in ["macos", "windows", "linux", "freebsd"] {
        let path = Config::config_path_in(Path::new("/home/pigeon"), os);

        let expected = match os {
            "macos" => "/home/pigeon/Library/Application Support/pigeons/config.toml",
            "windows" => "/home/pigeon/AppData/Roaming/pigeons/config.toml",
            _ => "/home/pigeon/.config/pigeons/config.toml",
        };
        assert_eq!(joined(&path), Path::new(expected));
    }
}

#[test]
fn stored_telemetry_choice_round_trips() {
    for enabled in [true, false] {
        let mut config = Config::default();
        config.set_telemetry_enabled(enabled);
        let text = config.to_toml().unwrap();

        let loaded = Config::load_from(file(&text)).unwrap();
        assert!(loaded.telemetry_configured());
        assert_eq!(loaded.telemetry_enabled(), enabled);
    }
}

#[test]
fn load_from_missing_file_yields_defaults() {
    let config = Config::load_from(absent()).unwrap();

    assert!(!config.telemetry_enabled());
}

#[test]
fn load_from_reads_settings_off_disk() {
    let config = Config::load_from(file("telemetry_enabled = true")).unwrap();

    assert!(
        config.telemetry_enabled(),
        "settings on disk must take precedence over the defaults"
    );
}

#[test]
fn written_configs_are_exact() {
    let mut config = Config::default();
    assert_eq!(config.to_toml().unwrap(), "");
    config.set_telemetry_enabled(true);
    assert_eq!(config.to_toml().unwrap(), "telemetry_enabled = true\n");
    config.set_telemetry_enabled(false);
    assert_eq!(config.to_toml().unwrap(), "telemetry_enabled = false\n");
}

#[test]
fn an_unset_choice_is_read_back_unset() {
    let text = Config::default().to_toml().unwrap();
    assert_eq!(Config::from_toml(text.as_bytes()).unwrap(), Config::default());
}

#[test]
fn other_keys_are_ignored() {
    let text = "# a comment\nport = 22\nlast = 1979-05-27T07:32:00Z\ntelemetry_enabled = true\n\n[table]\ntelemetry_enabled = false\n";
    assert_eq!(
        Config::from_toml(text.as_bytes()).unwrap(),
        Config { telemetry_enabled: Some(true) }
    );
    assert_eq!(
        Config::from_toml(b"[table]\ntelemetry_enabled = true\n").unwrap(),
        Config { telemetry_enabled: None }
    );
    assert_eq!(
        Config::from_toml(b"\"telemetry_enabled\" = true").unwrap(),
        Config { telemetry_enabled: Some(true) }
    );
}

#[test]
fn what_is_no_document_is_an_error() {
    for bytes in [
        &b"telemetry_enabled"[..],
        b"telemetry_enabled = yes",
        b"telemetry_enabled = true\ntelemetry_enabled = true",
        b"\xff\xfe",
    ] {
        assert!(matches!(
            Config::from_toml(bytes),
            Err(ConfigParseError::NotADocument(_))
        ));
    }
}

#[test]
fn a_choice_that_is_no_boolean_is_an_error() {
    for text in ["telemetry_enabled = 1", "telemetry_enabled = \"true\"", "telemetry_enabled = []"] {
        assert!(matches!(
            Config::from_toml(text.as_bytes()),
            Err(ConfigParseError::NotABoolean)
        ));
    }
}

#[test]
fn entries_become_configs() {
    assert_eq!(Config::from_entry(None).unwrap(), Config { telemetry_enabled: None });
    assert_eq!(
        Config::from_entry(Some(Some(true))).unwrap(),
        Config { telemetry_enabled: Some(true) }
    );
    assert!(matches!(Config::from_entry(Some(None)), Err(ConfigParseError::NotABoolean)));
}

#[test]
fn reading_and_parsing_errors_are_told_apart() {
    let unreadable: Read = FileRead::Unreadable("denied");
    assert!(matches!(Config::load_from(unreadable), Err(ConfigError::Reading("denied"))));
    assert!(matches!(
        Config::load_from(file("telemetry_enabled = 1")),
        Err(ConfigError::Parsing(ConfigParseError::NotABoolean))
    ));
    assert!(matches!(
        Config::load_from(file("=")),
        Err(ConfigError::Parsing(ConfigParseError::NotADocument(_)))
    ));
}

#[test]
fn an_error_in_either_layer_is_an_error() {
    let good = || Config::load_from(file("telemetry_enabled = true"));
    let user_bad = || Config::load_from(FileRead::Unreadable("user"));
    let system_bad = || Config::load_from(FileRead::Unreadable("system"));
    assert!(matches!(
        Config::load_with_fallback(user_bad(), system_bad()),
        Err(ConfigError::Reading("user"))
    ));
    assert!(matches!(
        Config::load_with_fallback(good(), system_bad()),
        Err(ConfigError::Reading("system"))
    ));
    assert!(matches!(
        Config::load(good(), Some(system_bad())),
        Err(ConfigError::Reading("system"))
    ));
    assert!(Config::load(good(), None).unwrap().telemetry_enabled());
    assert!(!Config::load_or_default(Config::load(user_bad(), Some(good()))).telemetry_configured());
    assert!(Config::load_or_default(good()).telemetry_enabled());
}

#[test]
fn layers_combine_key_by_key() {
    let choices = [None, Some(true), Some(false)];
    for a in choices {
        for b in choices {
            let mut config = Config { telemetry_enabled: a };
            config.fill_unset_from(Config { telemetry_enabled: b });
            assert_eq!(config.telemetry_enabled, a.or(b));
            for c in choices {
                let mut left = config.clone();
                left.fill_unset_from(Config { telemetry_enabled: c });
                let mut below = Config { telemetry_enabled: b };
                below.fill_unset_from(Config { telemetry_enabled: c });
                let mut right = Config { telemetry_enabled: a };
                right.fill_unset_from(below);
                assert_eq!(left, right);
            }
        }
    }
}

#[test]
fn a_published_choice_replaces_what_was_there() {
    for before in [absent(), FileRead::Unreadable("denied"), file("=")] {
        let text = publish_telemetry_choice_to(Some(true), before).unwrap().unwrap();
        assert_eq!(text, "telemetry_enabled = true\n");
    }
    let text = publish_telemetry_choice_to(Some(false), file("telemetry_enabled = true"));
    assert!(!effective_telemetry(file(&text.unwrap().unwrap())));
}

#[test]
fn a_config_that_does_not_load_keeps_metrics_off() {
    assert!(!effective_telemetry(absent()));
    assert!(!effective_telemetry(FileRead::Unreadable("denied")));
    assert!(!effective_telemetry(file("telemetry_enabled = 1")));
    assert!(!effective_telemetry(file("telemetry_enabled = tru")));
}

#[test]
fn the_running_users_config_is_below_the_config_dir() {
    assert_eq!(
        joined(&Config::config_path_below(Some("/home/pigeon/.config")).unwrap()),
        Path::new("/home/pigeon/.config/pigeons/config.toml")
    );
    assert_eq!(
        Config::config_path_below(None::<PathBuf>),
        Err(PathError::NoConfigDir)
    );
    let found = Config::config_path();
    assert_eq!(found.is_ok(), dirs::config_dir().is_some());
    if let Ok(path) = found {
        assert_eq!(Some(path.dir.clone()), dirs::config_dir());
        assert!(joined(&path).ends_with("pigeons/config.toml"));
    }
}

#[test]
fn the_machine_wide_config_depends_on_the_platform() {
    for os in ["linux", "macos"] {
        let path = Config::system_config_path(os).unwrap();
        assert_eq!(joined(&path), Path::new("/etc/pigeons/config.toml"));
    }
    let windows = Config::system_config_path("windows").unwrap();
    assert_eq!(windows.dir, "C:\\ProgramData\\pigeons");
    assert_eq!(windows.components, vec!["config.toml"]);
    assert_eq!(
        Config::system_config_path("freebsd"),
        Err(PathError::NoMachineWideLocation(String::from("freebsd")))
    );
}

#[test]
fn a_home_that_cannot_be_resolved_has_no_config() {
    assert!(config_path_for_home(Err::<Option<PathBuf>, &str>("no database"), "linux").is_none());
    assert!(config_path_for_home(Ok::<Option<PathBuf>, &str>(None), "linux").is_none());
    let path = config_path_for_home(Ok::<Option<&str>, &str>(Some("/root")), "linux").unwrap();
    assert_eq!(joined(&path), Path::new("/root/.config/pigeons/config.toml"));
    assert!(config_path_for_user("no-such-account-here", "linux").is_none());
}

#[test]
fn the_installing_user_is_the_one_before_sudo() {
    assert_eq!(
        installing_user(Some(String::from("pigeon"))),
        ConfigOwner::Named(String::from("pigeon"))
    );
    assert_eq!(installing_user(None), ConfigOwner::Running);
}

#[test]
fn the_installing_users_choice_is_what_loads() {
    let load = |text: &str| Some(Config::load_from(file(text)));
    assert_eq!(installing_user_telemetry_choice(load("telemetry_enabled = true")), Some(true));
    assert_eq!(installing_user_telemetry_choice(load("telemetry_enabled = false")), Some(false));
    assert_eq!(installing_user_telemetry_choice(load("")), None);
    assert_eq!(installing_user_telemetry_choice(load("=")), None);
    assert_eq!(installing_user_telemetry_choice(None::<Result<Config, ()>>), None);
}

#[test]
fn a_published_choice_is_readable_by_everyone() {
    for unix in [true, false] {
        assert!(publish_steps(None, unix).is_empty());
        for choice in [Some(true), Some(false)] {
            assert_eq!(publish_steps(choice, unix), Config::store_steps(true, unix));
        }
    }
    assert!(publish_steps(Some(true), true).contains(&StoreStep::SetFileMode(0o644)));
}

#[test]
fn the_layers_of_a_run_are_those_that_have_a_path() {
    let user = || Ok::<&str, PathError>("/home/pigeon");
    let system = || Ok::<u8, PathError>(7);
    let nowhere = || PathError::NoMachineWideLocation(String::from("freebsd"));
    assert_eq!(
        Config::layers(user(), system()),
        Ok(Layers { user: "/home/pigeon", system: Some(7) })
    );
    assert_eq!(
        Config::layers(user(), Err::<u8, PathError>(nowhere())),
        Ok(Layers { user: "/home/pigeon", system: None })
    );
    let none = || Err::<&str, PathError>(PathError::NoConfigDir);
    assert_eq!(Config::layers(none(), system()), Err(PathError::NoConfigDir));
    assert_eq!(
        Config::layers(none(), Err::<u8, PathError>(nowhere())),
        Err(PathError::NoConfigDir)
    );
}

#[test]
fn a_refused_document_keeps_what_the_reader_said_of_it() {
    match Config::from_toml(b"telemetry_enabled = yes") {
        Err(ConfigParseError::NotADocument(e)) => {
            let said = toml::from_str::<toml::Table>("telemetry_enabled = yes").unwrap_err();
            assert_eq!(e.to_string(), said.to_string());
        }
        other => panic!("{other:?}"),
    }
}

#[test]
fn storing_a_users_config_leaves_modes_alone() {
    let plain = vec![StoreStep::CreateParents, StoreStep::Write];
    assert_eq!(Config::store_steps(false, true), plain);
    assert_eq!(Config::store_steps(false, false), plain);
    assert_eq!(Config::store_steps(true, false), plain);
    assert_eq!(
        Config::store_steps(true, true),
        vec![
            StoreStep::CreateParents,
            StoreStep::Write,
            StoreStep::SetDirMode(0o755),
            StoreStep::SetFileMode(0o644),
        ]
    );
}
