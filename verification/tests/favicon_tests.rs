use ctclsite::favicon::{favicon_path, favicon_pixels, mkfavicons_plan, parse_color};
use ctclsite::errors::SiteError;
use ctclsite::kvmap::KvMap;
use ctclsite::page::Theme;

fn theme(color: &str) -> Theme {
    Theme { color: color.to_string(), fgcolor: "#ffffff".to_string() }
}

#[test]
fn parse_color_decodes_hash_hex() {
    assert_eq!(parse_color("#202020").unwrap(), [0x20, 0x20, 0x20]);
    assert_eq!(parse_color("ff00aB").unwrap(), [0xff, 0x00, 0xab]);
}

#[test]
fn parse_color_rejects_malformed() {
    match parse_color("#20202") {
        Err(SiteError::ConfigInvalid(_)) => (),
        _ => panic!("short color must be rejected"),
    }
    match parse_color("#2020zz") {
        Err(SiteError::ConfigInvalid(_)) => (),
        _ => panic!("non-hex color must be rejected"),
    }
    match parse_color("#20202020") {
        Err(SiteError::ConfigInvalid(_)) => (),
        _ => panic!("long color must be rejected"),
    }
}

#[test]
fn favicon_path_is_deterministic_in_theme_id() {
    assert_eq!(favicon_path("dark"), "static/favicons/default_dark.ico");
    assert_eq!(favicon_path("light"), "static/favicons/default_light.ico");
}

#[test]
fn favicon_pixels_fill_whole_canvas() {
    let px = favicon_pixels(&[0x20, 0x30, 0x40]);
    assert_eq!(px.len(), 16 * 16 * 3);
    for (i, b) in px.iter().enumerate() {
        assert_eq!(*b, [0x20, 0x30, 0x40][i % 3]);
    }
}

#[test]
fn plan_generates_missing_icons_with_theme_color() {
    let mut themes = KvMap::new();
    themes.push("dark".to_string(), theme("#202020"));
    themes.push("light".to_string(), theme("#fefefe"));
    let existing: Vec<String> = Vec::new();
    let jobs = mkfavicons_plan(&themes, &existing).unwrap();
    assert_eq!(jobs.len(), 2);
    assert_eq!(jobs[0].path, "static/favicons/default_dark.ico");
    assert_eq!(jobs[0].rgb, [0x20, 0x20, 0x20]);
    assert!(jobs[0].pixels.iter().all(|b| *b == 0x20));
    assert_eq!(jobs[1].path, "static/favicons/default_light.ico");
    assert_eq!(jobs[1].rgb, [0xfe, 0xfe, 0xfe]);
}

#[test]
fn plan_skips_existing_icons_and_is_idempotent() {
    let mut themes = KvMap::new();
    themes.push("dark".to_string(), theme("#202020"));
    themes.push("light".to_string(), theme("#fefefe"));
    let partial = vec!["static/favicons/default_dark.ico".to_string()];
    let jobs = mkfavicons_plan(&themes, &partial).unwrap();
    assert_eq!(jobs.len(), 1);
    assert_eq!(jobs[0].path, "static/favicons/default_light.ico");

    let all = vec![
        "static/favicons/default_dark.ico".to_string(),
        "static/favicons/default_light.ico".to_string(),
    ];
    let again = mkfavicons_plan(&themes, &all).unwrap();
    assert!(again.is_empty());
}

#[test]
fn plan_fails_on_malformed_theme_color() {
    let mut themes = KvMap::new();
    themes.push("dark".to_string(), theme("#20"));
    let existing: Vec<String> = Vec::new();
    match mkfavicons_plan(&themes, &existing) {
        Err(SiteError::ConfigInvalid(_)) => (),
        _ => panic!("a malformed color must be a configuration error"),
    }
}
