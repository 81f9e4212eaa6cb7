use clip_pop::config::{
    sanitize_config, AppConfig, Corner, CustomImages, Theme, DEFAULT_DISPLAY_TIME,
    MAX_DISPLAY_TIME,
};
use clip_pop::error::AppError;
use clip_pop::paths::FilePath;
use clip_pop::store::{
    config_dir, config_path, finish_create, read_config, write_config, LoadStep, StoredConfig,
    APP_FOLDER, CONFIG_DIR_VARIABLE, CONFIG_FILE,
};

fn with_display_time(seconds: u64) -> AppConfig {
    let mut cfg = AppConfig::default();
    cfg.display_time = seconds;
    cfg
}

#[test]
fn sanitize_config_clamps_display_time() {
    let mut cfg = AppConfig::default();
    cfg.display_time = 0;
    let sanitized = sanitize_config(cfg.clone());
    assert_eq!(sanitized.display_time, 3);

    cfg.display_time = 120;
    let sanitized = sanitize_config(cfg.clone());
    assert_eq!(sanitized.display_time, 60);

    cfg.display_time = 10;
    let sanitized = sanitize_config(cfg);
    assert_eq!(sanitized.display_time, 10);
}

#[test]
fn read_config_creates_default_file() {
    let step = read_config(StoredConfig::Absent);
    let created = match step {
        LoadStep::CreateDefault(cfg) => cfg,
        other => panic!("a missing file should be created, got {:?}", other),
    };
    assert_eq!(created.display_time, AppConfig::default().display_time);

    let plan = write_config(Some("/tmp/clip".to_string()), None, &created)
        .expect("write should be planned");
    assert_eq!(plan.file.root, "/tmp/clip");
    assert_eq!(plan.file.names, vec!["config.yaml"]);
    assert_eq!(plan.config.display_time, 3);
    assert_eq!(plan.config, AppConfig::default());

    let cfg = finish_create(created, Ok(())).expect("config should load");
    assert_eq!(cfg.display_time, AppConfig::default().display_time);
    assert_eq!(cfg, AppConfig::default());
}

#[test]
fn write_config_sanitizes_and_persists() {
    let mut cfg = AppConfig::default();
    cfg.display_time = 99;
    cfg.theme = Theme::Custom;
    cfg.corner = Corner::TopLeft;
    cfg.custom_images.copy = Some("/tmp/copy.png".into());

    let plan = write_config(Some("/tmp/clip".to_string()), None, &cfg).expect("write should work");

    assert_eq!(plan.directory, FilePath { root: "/tmp/clip".to_string(), names: vec![] });
    assert_eq!(plan.file.root, "/tmp/clip");
    assert_eq!(plan.file.names, vec!["config.yaml"]);
    let persisted = plan.config;
    assert_eq!(persisted.display_time, 60, "display_time should be clamped");
    assert!(matches!(persisted.theme, Theme::Custom));
    assert!(matches!(persisted.corner, Corner::TopLeft));
    assert_eq!(persisted.custom_images.copy.as_deref(), Some("/tmp/copy.png"));
    assert_eq!(persisted.custom_images.clear, None);
    assert_eq!(cfg.display_time, 99);
}

#[test]
fn defaults_are_dark_three_seconds_bottom_right() {
    let cfg = AppConfig::default();
    assert_eq!(cfg.theme, Theme::Dark);
    assert_eq!(cfg.display_time, 3);
    assert_eq!(cfg.corner, Corner::BottomRight);
    assert_eq!(cfg.custom_images, CustomImages { copy: None, clear: None });
    assert_eq!(Theme::default(), Theme::Dark);
    assert_eq!(Corner::default(), Corner::BottomRight);
    assert_eq!(CustomImages::default(), CustomImages { copy: None, clear: None });
    assert_eq!(DEFAULT_DISPLAY_TIME, 3);
    assert_eq!(MAX_DISPLAY_TIME, 60);
}

#[test]
fn sanitize_keeps_every_display_time_in_range() {
    let mut seconds = 1;
    while seconds <= 60 {
        assert_eq!(sanitize_config(with_display_time(seconds)).display_time, seconds);
        seconds += 1;
    }
}

#[test]
fn sanitize_edges() {
    assert_eq!(sanitize_config(with_display_time(0)).display_time, 3);
    assert_eq!(sanitize_config(with_display_time(1)).display_time, 1);
    assert_eq!(sanitize_config(with_display_time(60)).display_time, 60);
    assert_eq!(sanitize_config(with_display_time(61)).display_time, 60);
    assert_eq!(sanitize_config(with_display_time(120)).display_time, 60);
    assert_eq!(sanitize_config(with_display_time(u64::MAX)).display_time, 60);
}

#[test]
fn sanitize_is_idempotent() {
    for seconds in [0, 1, 3, 59, 60, 61, 99, u64::MAX] {
        let once = sanitize_config(with_display_time(seconds));
        let twice = sanitize_config(once.clone());
        assert_eq!(once, twice);
    }
}

#[test]
fn sanitize_leaves_the_other_fields_alone() {
    let cfg = AppConfig {
        theme: Theme::Light,
        display_time: 0,
        corner: Corner::TopRight,
        custom_images: CustomImages {
            copy: Some("no such file".to_string()),
            clear: Some(String::new()),
        },
    };
    let clean = sanitize_config(cfg.clone());
    assert_eq!(clean.theme, Theme::Light);
    assert_eq!(clean.corner, Corner::TopRight);
    assert_eq!(clean.custom_images, cfg.custom_images);
    assert_eq!(clean.display_time, 3);
}

#[test]
fn clone_copies_every_field() {
    let cfg = AppConfig {
        theme: Theme::Custom,
        display_time: 42,
        corner: Corner::BottomLeft,
        custom_images: CustomImages { copy: Some("a.png".to_string()), clear: None },
    };
    assert_eq!(cfg.clone(), cfg);
}

#[test]
fn config_dir_takes_the_override_as_it_is() {
    let dir = config_dir(Some("/tmp/override".to_string()), Some("/home/u/.config".to_string()))
        .expect("an override names the directory");
    assert_eq!(dir, FilePath { root: "/tmp/override".to_string(), names: vec![] });
}

#[test]
fn config_dir_appends_the_app_folder_to_the_platform_directory() {
    let dir = config_dir(None, Some("/home/u/.config".to_string()))
        .expect("the platform names the directory");
    assert_eq!(dir.root, "/home/u/.config");
    assert_eq!(dir.names, vec!["ClipPopMedroa"]);
}

#[test]
fn config_dir_fails_without_any_directory() {
    assert_eq!(config_dir(None, None), Err(AppError::MissingConfigDir));
    assert_eq!(config_path(None, None), Err(AppError::MissingConfigDir));
    assert_eq!(
        write_config(None, None, &AppConfig::default()),
        Err(AppError::MissingConfigDir)
    );
}

#[test]
fn config_path_is_the_config_file_in_the_directory() {
    let file = config_path(Some("/tmp/override".to_string()), None).expect("override");
    assert_eq!(file.root, "/tmp/override");
    assert_eq!(file.names, vec!["config.yaml"]);

    let file = config_path(None, Some("/home/u/.config".to_string())).expect("platform");
    assert_eq!(file.root, "/home/u/.config");
    assert_eq!(file.names, vec!["ClipPopMedroa", "config.yaml"]);
}

#[test]
fn names_of_the_store() {
    assert_eq!(CONFIG_DIR_VARIABLE, "CLIP_POP_MEDROA_CONFIG_DIR");
    assert_eq!(APP_FOLDER, "ClipPopMedroa");
    assert_eq!(CONFIG_FILE, "config.yaml");
}

#[test]
fn file_path_join_descends_by_one_name() {
    let path = FilePath::at("/base".to_string()).join("a").join("b.txt");
    assert_eq!(path.root, "/base");
    assert_eq!(path.names, vec!["a", "b.txt"]);
    assert_eq!(path.clone(), path);
}

#[test]
fn read_config_sanitizes_what_is_stored() {
    let step = read_config(StoredConfig::Parsed(with_display_time(500)));
    assert_eq!(step, LoadStep::Loaded(with_display_time(60)));
    let step = read_config(StoredConfig::Parsed(with_display_time(0)));
    assert_eq!(step, LoadStep::Loaded(with_display_time(3)));
    let step = read_config(StoredConfig::Parsed(with_display_time(17)));
    assert_eq!(step, LoadStep::Loaded(with_display_time(17)));
}

#[test]
fn read_config_does_not_hide_a_malformed_file() {
    let step = read_config(StoredConfig::Malformed("expected a map at line 1".to_string()));
    match step {
        LoadStep::Failed(error) => {
            assert_eq!(
                error,
                AppError::Parse("failed to parse config: expected a map at line 1".to_string())
            );
            assert_eq!(error.message(), "failed to parse config: expected a map at line 1");
        }
        other => panic!("a malformed file is an error, got {:?}", other),
    }
}

#[test]
fn read_config_reports_an_unreadable_file() {
    let step = read_config(StoredConfig::Unreadable("permission denied".to_string()));
    assert_eq!(step, LoadStep::Failed(AppError::Io("permission denied".to_string())));
}

#[test]
fn finish_create_passes_on_the_error_of_the_save() {
    let outcome = finish_create(AppConfig::default(), Err(AppError::Io("disk full".to_string())));
    assert_eq!(outcome, Err(AppError::Io("disk full".to_string())));
}

#[test]
fn load_after_save_gives_the_sanitized_config() {
    let mut cfg = with_display_time(75);
    cfg.theme = Theme::Light;
    let plan = write_config(Some("/tmp/clip".to_string()), None, &cfg).expect("plan");
    let step = read_config(StoredConfig::Parsed(plan.config));
    assert_eq!(step, LoadStep::Loaded(sanitize_config(cfg)));
}

#[test]
fn error_messages() {
    assert_eq!(AppError::MissingConfigDir.message(), "unable to determine config directory");
    assert_eq!(AppError::LocaleNotFound.message(), "no locale resources found");
    assert_eq!(AppError::Io("broken pipe".to_string()).message(), "broken pipe");
    assert_eq!(AppError::Parse("bad".to_string()).message(), "bad");
    assert_eq!(AppError::ClipboardAccess("no display".to_string()).message(), "no display");
}
