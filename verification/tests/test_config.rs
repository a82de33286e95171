use asfy_vol::config::{
    config_dir_under, default_files_layout, get_config_dir, pick_icon, volume_icons, Config,
    ConfigError, IconThreshold, SetupEvent, SetupState, ICON_VOLUME_HIGH, ICON_VOLUME_LOW,
    ICON_VOLUME_MEDIUM, LEVEL_0_15_BITS, LEVEL_0_425_BITS,
};

/// Runs a fresh setup (no configuration file yet) through all its steps,
/// finding no stylesheet, and returns the configuration it ends with.
fn run_fresh_setup(start: SetupState) -> Config {
    let s = match start {
        SetupState::CheckDefaultFile { dir, file } => {
            assert!(file.ends_with("config.toml"));
            assert!(file.starts_with(dir.as_str()));
            SetupState::CheckDefaultFile { dir, file }.advance(SetupEvent::Exists(false))
        }
        _ => panic!("a setup without a file must first ask whether the default file exists"),
    };
    let s = match s {
        SetupState::WriteDefaults { config, path, style } => {
            assert!(path.ends_with("config.toml"));
            assert!(style.ends_with("style.css"));
            assert!(config.get_file_path().is_none());
            SetupState::WriteDefaults { config, path, style }.advance(SetupEvent::Written)
        }
        _ => panic!("a missing default file must be written"),
    };
    let s = match s {
        SetupState::CheckDefaultStyle { config, style } => {
            SetupState::CheckDefaultStyle { config, style }.advance(SetupEvent::IsFile(false))
        }
        _ => panic!("the stylesheet must be checked"),
    };
    match s {
        SetupState::Done(Ok(config)) => config,
        _ => panic!("setup must end with a configuration"),
    }
}

/// Setup for a new user (no configuration in the configuration directory).
#[test]
fn test_setup_config() {
    let start = match Config::setup(None) {
        SetupState::Done(Err(ConfigError::NoConfigDir)) => {
            Config::setup_in(Ok("/tmp/home/.config/asfy/asfy-vol".to_string()))
        }
        s => s,
    };
    let config = run_fresh_setup(start);
    let default_config = Config::default();

    assert_eq!(config.use_percent, default_config.use_percent);
    assert_eq!(config.thresholds, default_config.thresholds);
    assert_eq!(config.get_file_path(), default_config.get_file_path());
}

#[test]
fn test_specific_config() {
    let custom_file = "./tests/custom_config.toml".to_string();
    let s = Config::setup(Some(custom_file.clone()));
    let path = match s {
        SetupState::ReadConfig { path } => path,
        _ => panic!("a given file must be read first"),
    };
    assert_eq!(path, custom_file);
    // The custom file changes `use_percent` and keeps the default thresholds.
    let parsed = Config::from_parsed(true, volume_icons(), "\u{eee8}".to_string(), None);
    let s = SetupState::ReadConfig { path }.advance(SetupEvent::Parsed(Ok(parsed)));
    let s = match s {
        SetupState::CheckLoadedStyle { config, style } => {
            assert_eq!(style, "./tests/style.css");
            SetupState::CheckLoadedStyle { config, style }.advance(SetupEvent::IsFile(false))
        }
        _ => panic!("the stylesheet beside the file must be checked"),
    };
    let config = match s {
        SetupState::Done(Ok(config)) => config,
        _ => panic!("setup must end with the configuration read"),
    };
    let default_config = Config::default();

    assert_ne!(config.use_percent, default_config.use_percent);
    assert_eq!(config.thresholds, default_config.thresholds);
    assert_ne!(config.get_file_path(), default_config.get_file_path());
    assert_eq!(config.get_file_path(), Some(custom_file));
}

#[test]
fn default_config_values() {
    let c = Config::default();
    assert!(!c.use_percent);
    assert_eq!(c.get_file_path(), None);
    assert_eq!(c.style_path(), None);
    assert_eq!(c.muted_text, "\u{eee8}");
    assert_eq!(c.thresholds.len(), 3);
    assert_eq!(c.thresholds[0].icon, '\u{f026}');
    assert_eq!(c.thresholds[1].icon, '\u{f027}');
    assert_eq!(c.thresholds[2].icon, '\u{f028}');
    assert_eq!(f64::from_bits(c.thresholds[0].level_bits), 0.15);
    assert_eq!(f64::from_bits(c.thresholds[1].level_bits), 0.425);
    assert_eq!(f64::from_bits(c.thresholds[2].level_bits), 0.425);
    assert_eq!(f64::from_bits(LEVEL_0_15_BITS), 0.15);
    assert_eq!(f64::from_bits(LEVEL_0_425_BITS), 0.425);
}

#[test]
fn configs_compare_by_fields() {
    assert_eq!(Config::default(), Config::default());
    let other = Config::from_parsed(true, volume_icons(), "\u{eee8}".to_string(), None);
    assert_ne!(Config::default(), other);
    assert!(Config::default().shows_percent() == false);
    assert_eq!(Config::default().muted_label(), "\u{eee8}");
}

#[test]
fn threshold_equality_follows_float_equality() {
    let nan = IconThreshold { icon: 'a', level_bits: f64::NAN.to_bits() };
    assert!(nan != nan);
    let pos = IconThreshold { icon: 'a', level_bits: 0.0f64.to_bits() };
    let neg = IconThreshold { icon: 'a', level_bits: (-0.0f64).to_bits() };
    assert!(pos == neg);
    let other_icon = IconThreshold { icon: 'b', level_bits: 0.0f64.to_bits() };
    assert!(pos != other_icon);
    let half = IconThreshold { icon: 'a', level_bits: 0.5f64.to_bits() };
    assert!(half != pos);
}

#[test]
fn icon_is_first_threshold_reached() {
    let ts = volume_icons();
    assert_eq!(pick_icon(&ts, &vec![true, true, true]), ICON_VOLUME_LOW);
    assert_eq!(pick_icon(&ts, &vec![false, true, true]), ICON_VOLUME_MEDIUM);
    assert_eq!(pick_icon(&ts, &vec![false, false, true]), ICON_VOLUME_HIGH);
    // A later threshold can be reached while an earlier one is not.
    assert_eq!(pick_icon(&ts, &vec![false, true, false]), ICON_VOLUME_MEDIUM);
}

#[test]
fn icon_past_all_thresholds_is_last() {
    let ts = volume_icons();
    assert_eq!(pick_icon(&ts, &vec![false, false, false]), ICON_VOLUME_HIGH);
    let two = vec![
        IconThreshold { icon: 'x', level_bits: 0.5f64.to_bits() },
        IconThreshold { icon: 'y', level_bits: 0.5f64.to_bits() },
    ];
    assert_eq!(pick_icon(&two, &vec![false, false]), 'y');
    // Thresholds without an answer are not reached.
    assert_eq!(pick_icon(&ts, &vec![false]), ICON_VOLUME_HIGH);
    assert_eq!(pick_icon(&ts, &vec![false, true]), ICON_VOLUME_MEDIUM);
}

#[test]
fn icon_moves_later_as_volume_rises() {
    let ts = volume_icons();
    let quiet = vec![true, true, true];
    let mid = vec![false, true, true];
    let loud = vec![false, false, true];
    let louder = vec![false, false, false];
    assert_eq!(pick_icon(&ts, &quiet), ICON_VOLUME_LOW);
    assert_eq!(pick_icon(&ts, &mid), ICON_VOLUME_MEDIUM);
    assert_eq!(pick_icon(&ts, &loud), ICON_VOLUME_HIGH);
    assert_eq!(pick_icon(&ts, &louder), ICON_VOLUME_HIGH);
}

#[test]
fn icon_without_thresholds_is_space() {
    assert_eq!(pick_icon(&Vec::new(), &Vec::new()), ' ');
    let c = Config::from_parsed(false, Vec::new(), String::new(), None);
    assert_eq!(c.map_vol_icon(&Vec::new()), " ");
}

#[test]
fn map_vol_icon_gives_string() {
    let c = Config::default();
    assert_eq!(c.map_vol_icon(&vec![true, true, true]), "\u{f026}");
    assert_eq!(c.map_vol_icon(&vec![false, true, true]), "\u{f027}");
    assert_eq!(c.map_vol_icon(&vec![false, false, false]), "\u{f028}");
}

#[test]
fn config_dir_is_under_user_config_dir() {
    match config_dir_under(Some("/home/alice/.config".to_string())) {
        Ok(d) => assert_eq!(d, "/home/alice/.config/asfy/asfy-vol"),
        Err(_) => panic!("a base directory gives a configuration directory"),
    }
    match config_dir_under(Some("/home/alice/.config/".to_string())) {
        Ok(d) => assert_eq!(d, "/home/alice/.config/asfy/asfy-vol"),
        Err(_) => panic!("a base directory gives a configuration directory"),
    }
    match config_dir_under(Some("rel".to_string())) {
        Ok(d) => assert_eq!(d, "rel/asfy/asfy-vol"),
        Err(_) => panic!("a base directory gives a configuration directory"),
    }
    assert!(matches!(config_dir_under(None), Err(ConfigError::NoConfigDir)));
}

#[test]
fn config_dir_from_environment() {
    match get_config_dir() {
        Ok(d) => assert!(d.ends_with("/asfy/asfy-vol")),
        Err(e) => assert!(matches!(e, ConfigError::NoConfigDir)),
    }
}

#[test]
fn default_files_go_beside_the_config_file() {
    match default_files_layout("/x/y/config.toml") {
        Some((dir, style)) => {
            assert_eq!(dir, "/x/y");
            assert_eq!(style, "/x/y/style.css");
        }
        None => panic!("the file has a parent"),
    }
    match default_files_layout("config.toml") {
        Some((dir, style)) => {
            assert_eq!(dir, "");
            assert_eq!(style, "style.css");
        }
        None => panic!("a relative file has the empty parent"),
    }
    assert!(default_files_layout("/").is_none());
}

#[test]
fn existing_default_file_is_read() {
    let s = Config::setup_in(Ok("/cfg/asfy/asfy-vol".to_string()));
    let s = match s {
        SetupState::CheckDefaultFile { dir, file } => {
            assert_eq!(dir, "/cfg/asfy/asfy-vol");
            assert_eq!(file, "/cfg/asfy/asfy-vol/config.toml");
            SetupState::CheckDefaultFile { dir, file }.advance(SetupEvent::Exists(true))
        }
        _ => panic!("first the default file is looked for"),
    };
    let s = match s {
        SetupState::ReadConfig { path } => {
            assert_eq!(path, "/cfg/asfy/asfy-vol/config.toml");
            let parsed = Config::from_parsed(true, volume_icons(), "muted".to_string(), None);
            SetupState::ReadConfig { path }.advance(SetupEvent::Parsed(Ok(parsed)))
        }
        _ => panic!("an existing default file is read"),
    };
    // The file names no stylesheet and one exists beside it: it is used.
    let s = match s {
        SetupState::CheckLoadedStyle { config, style } => {
            assert_eq!(style, "/cfg/asfy/asfy-vol/style.css");
            SetupState::CheckLoadedStyle { config, style }.advance(SetupEvent::IsFile(true))
        }
        _ => panic!("the stylesheet beside the file is checked"),
    };
    match s {
        SetupState::Done(Ok(c)) => {
            assert!(c.use_percent);
            assert_eq!(c.muted_text, "muted");
            assert_eq!(c.style_path(), Some("/cfg/asfy/asfy-vol/style.css".to_string()));
            assert_eq!(c.get_file_path(), Some("/cfg/asfy/asfy-vol/config.toml".to_string()));
        }
        _ => panic!("setup ends with the configuration read"),
    }
}

#[test]
fn configured_style_is_kept() {
    let parsed = Config::from_parsed(
        false,
        volume_icons(),
        String::new(),
        Some("/elsewhere/style.css".to_string()),
    );
    let s = SetupState::ReadConfig { path: "/a/b.toml".to_string() }
        .advance(SetupEvent::Parsed(Ok(parsed)));
    match s {
        SetupState::Done(Ok(c)) => {
            assert_eq!(c.style_path(), Some("/elsewhere/style.css".to_string()));
            assert_eq!(c.get_file_path(), Some("/a/b.toml".to_string()));
        }
        _ => panic!("a configured stylesheet needs no check beside the file"),
    }
}

#[test]
fn no_style_when_none_beside_file() {
    let parsed = Config::from_parsed(false, volume_icons(), String::new(), None);
    let s = SetupState::ReadConfig { path: "/a/b.toml".to_string() }
        .advance(SetupEvent::Parsed(Ok(parsed)));
    let s = match s {
        SetupState::CheckLoadedStyle { config, style } => {
            assert_eq!(style, "/a/style.css");
            SetupState::CheckLoadedStyle { config, style }.advance(SetupEvent::IsFile(false))
        }
        _ => panic!("the stylesheet beside the file is checked"),
    };
    match s {
        SetupState::Done(Ok(c)) => {
            assert_eq!(c.style_path(), None);
            assert_eq!(c.get_file_path(), Some("/a/b.toml".to_string()));
        }
        _ => panic!("setup ends with the configuration read"),
    }
}

#[test]
fn fresh_setup_finds_style() {
    let s = Config::setup_in(Ok("/cfg".to_string()))
        .advance(SetupEvent::Exists(false))
        .advance(SetupEvent::Written)
        .advance(SetupEvent::IsFile(true));
    match s {
        SetupState::Done(Ok(c)) => {
            assert_eq!(c.style_path(), Some("/cfg/style.css".to_string()));
            assert_eq!(c.get_file_path(), None);
            assert_eq!(c.thresholds, volume_icons());
        }
        _ => panic!("setup ends with the default configuration"),
    }
}

#[test]
fn parse_error_ends_setup() {
    let s = SetupState::ReadConfig { path: "/a/b.toml".to_string() }
        .advance(SetupEvent::Parsed(Err(ConfigError::Parse("bad".to_string()))));
    match s {
        SetupState::Done(Err(ConfigError::Parse(m))) => assert_eq!(m, "bad"),
        _ => panic!("a parse error ends setup with it"),
    }
}

#[test]
fn missing_config_dir_ends_setup() {
    let s = Config::setup_in(Err(ConfigError::NoConfigDir));
    assert!(matches!(s, SetupState::Done(Err(ConfigError::NoConfigDir))));
}

#[test]
fn unexpected_event_leaves_state() {
    let s = SetupState::ReadConfig { path: "/a/b.toml".to_string() }.advance(SetupEvent::Written);
    match s {
        SetupState::ReadConfig { path } => assert_eq!(path, "/a/b.toml"),
        _ => panic!("an event that answers nothing changes nothing"),
    }
    let done = SetupState::Done(Err(ConfigError::NoConfigDir)).advance(SetupEvent::IsFile(true));
    assert!(matches!(done, SetupState::Done(Err(ConfigError::NoConfigDir))));
}

#[test]
fn setup_takes_at_most_four_steps() {
    let mut s = Config::setup_in(Ok("/cfg".to_string()));
    let mut steps = 0;
    loop {
        let e = match &s {
            SetupState::CheckDefaultFile { .. } => SetupEvent::Exists(true),
            SetupState::ReadConfig { .. } => {
                SetupEvent::Parsed(Ok(Config::from_parsed(false, volume_icons(), String::new(), None)))
            }
            SetupState::CheckLoadedStyle { .. } | SetupState::CheckDefaultStyle { .. } => {
                SetupEvent::IsFile(true)
            }
            SetupState::WriteDefaults { .. } => SetupEvent::Written,
            SetupState::Done(_) => break,
        };
        s = s.advance(e);
        steps += 1;
        assert!(steps <= 4);
    }
    assert_eq!(steps, 3);
}
