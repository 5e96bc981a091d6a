use xclod::config::{
    config_file_text, config_path, home_or_here, config_path_from, resolve_cache_dir, resolve_cache_dir_from,
    Config, ConfigOverrides, ConvertCfg, ExtractCfg, ProjectPaths, SetError, CONFIG_HEADER,
};

fn sample() -> Config {
    Config::defaults("/home/u")
}

fn dirs() -> Option<ProjectPaths> {
    Some(ProjectPaths {
        config_dir: "/home/u/.config/xclod".to_string(),
        cache_dir: "/home/u/.cache/xclod".to_string(),
    })
}

#[test]
fn defaults_live_under_home() {
    let c = sample();
    assert_eq!(c.cache_dir, None);
    assert_eq!(c.extract.input_dir, "/home/u/xclod/vid");
    assert_eq!(c.extract.output_dir, "/home/u/xclod/jpg");
    assert_eq!(c.extract.fps, 3);
    assert_eq!(c.convert.input_dir, "/home/u/xclod/fbx");
    assert_eq!(c.convert.output_dir, "/home/u/xclod/obj");
    assert_eq!(ExtractCfg::defaults("."), ExtractCfg {
        input_dir: "./xclod/vid".to_string(),
        output_dir: "./xclod/jpg".to_string(),
        fps: 3,
    });
    assert_eq!(ConvertCfg::defaults("."), ConvertCfg {
        input_dir: "./xclod/fbx".to_string(),
        output_dir: "./xclod/obj".to_string(),
    });
}

#[test]
fn config_file_location() {
    assert_eq!(config_path_from(&dirs(), "/home/u"), "/home/u/.config/xclod/config.toml");
    assert_eq!(config_path_from(&None, "/home/u"), "/home/u/.config/xclod/config.toml");
    assert_eq!(config_path_from(&None, "/h"), "/h/.config/xclod/config.toml");
    assert!(config_path("/home/u").ends_with("config.toml"));
}

#[test]
fn cache_dir_prefers_configured() {
    let mut c = sample();
    assert_eq!(resolve_cache_dir_from(&c, &dirs(), "/home/u"), "/home/u/.cache/xclod/bin");
    assert_eq!(resolve_cache_dir_from(&c, &None, "/h"), "/h/.cache/xclod/bin");
    assert!(resolve_cache_dir(&c, "/home/u").ends_with("bin"));
    c.cache_dir = Some("/opt/cache".to_string());
    assert_eq!(resolve_cache_dir_from(&c, &dirs(), "/home/u"), "/opt/cache");
    assert_eq!(resolve_cache_dir(&c, "/home/u"), "/opt/cache");
}

#[test]
fn set_without_settings_fails() {
    let r = xclod::config::set(sample(), ConfigOverrides::default());
    assert_eq!(r, Err(SetError::NothingToSet));
    assert_eq!(
        SetError::NothingToSet.message(),
        "nothing to set — pass at least one setting (see `xclod set --help`)"
    );
}

#[test]
fn set_changes_only_what_is_passed() {
    let o = ConfigOverrides { fps: Some(5), ..Default::default() };
    let (c, lines) = xclod::config::set(sample(), o).unwrap();
    let mut expected = sample();
    expected.extract.fps = 5;
    assert_eq!(c, expected);
    assert_eq!(lines, vec!["extract.fps = 5".to_string()]);
}

#[test]
fn set_reports_every_setting_in_order() {
    let o = ConfigOverrides {
        cache_dir: Some("/c".to_string()),
        extract_input_dir: Some("/v".to_string()),
        extract_output_dir: Some("/j".to_string()),
        fps: Some(12),
        convert_input_dir: Some("/f".to_string()),
        convert_output_dir: Some("/o".to_string()),
    };
    let (c, lines) = xclod::config::set(sample(), o).unwrap();
    assert_eq!(c.cache_dir, Some("/c".to_string()));
    assert_eq!(c.extract, ExtractCfg {
        input_dir: "/v".to_string(),
        output_dir: "/j".to_string(),
        fps: 12,
    });
    assert_eq!(c.convert, ConvertCfg { input_dir: "/f".to_string(), output_dir: "/o".to_string() });
    assert_eq!(lines, vec![
        "cache_dir = /c".to_string(),
        "extract.input_dir = /v".to_string(),
        "extract.output_dir = /j".to_string(),
        "extract.fps = 12".to_string(),
        "convert.input_dir = /f".to_string(),
        "convert.output_dir = /o".to_string(),
    ]);
}

#[test]
fn set_twice_is_set_once() {
    let o = ConfigOverrides { convert_output_dir: Some("/o".to_string()), ..Default::default() };
    let (once, _) = xclod::config::set(sample(), o.clone()).unwrap();
    let (twice, _) = xclod::config::set(once.clone(), o).unwrap();
    assert_eq!(once, twice);
}

#[test]
fn later_set_wins() {
    let first = ConfigOverrides {
        fps: Some(2),
        extract_input_dir: Some("/a".to_string()),
        ..Default::default()
    };
    let second = ConfigOverrides { fps: Some(9), ..Default::default() };
    let (a, _) = xclod::config::set(sample(), first).unwrap();
    let (b, _) = xclod::config::set(a, second).unwrap();
    let merged = ConfigOverrides {
        fps: Some(9),
        extract_input_dir: Some("/a".to_string()),
        ..Default::default()
    };
    let (m, _) = xclod::config::set(sample(), merged).unwrap();
    assert_eq!(b, m);
}

#[test]
fn config_file_has_header_then_body() {
    let text = config_file_text("[extract]\nfps = 3\n");
    assert!(text.starts_with("# xclod configuration file\n#\n"));
    assert!(text.ends_with("extracted\n \n[extract]\nfps = 3\n"));
    assert_eq!(text, format!("{CONFIG_HEADER}[extract]\nfps = 3\n"));
}

#[test]
fn home_falls_back_to_current_directory() {
    assert_eq!(home_or_here(Some("/home/u".to_string())), "/home/u");
    assert_eq!(home_or_here(None), ".");
}
