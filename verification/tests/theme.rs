use calendar_tui::error::Error;
use calendar_tui::paths::join;
use calendar_tui::theme::{
    parse_color, parse_hex_byte, resolve_path, theme_candidates, themes_dir, Base, Calendar, Color, Theme, ThemeColor,
};

fn some(s: &str) -> Option<String> {
    Some(s.to_string())
}

/// The theme of the example files.
fn example_theme() -> Theme {
    Theme {
        base: Some(Base { background: some("#1e1e2eFF"), foreground: some("#cdd6f4FF"), border: some("#45475aFF") }),
        calendar: Some(Calendar {
            header: some("#cba6f7FF"),
            status: some("#a6e3a1FF"),
            today: some("#f9e2afFF"),
            selected: some("#89b4faFF"),
            weekend: some("#f38ba8FF"),
            other_month: some("#6c7086FF"),
        }),
    }
}

fn invalid_color(err: Error) -> (String, String) {
    match err {
        Error::InvalidColor { value, reason } => (value, reason),
        other => panic!("unexpected error {other:?}"),
    }
}

#[test]
fn example_theme_toml_deserializes() {
    let theme = example_theme();
    let colors = theme.resolve().expect("example colors should resolve");
    assert_eq!(colors.background, parse_color("#1e1e2eFF").unwrap());
    assert_eq!(colors.today, parse_color("#f9e2afFF").unwrap());
}

#[test]
fn parse_color_rgb_and_rgba() {
    assert_eq!(parse_color("#ff00ff").unwrap().to_rgb(), Color::from_u32(0x00ff_00ff));
    assert_eq!(parse_color("#ff00ff80").unwrap().to_rgb(), Color::from_u32(0x80ff_00ff));
    assert_eq!(parse_color("#ff00ff").unwrap().a, 0xff);
    assert_eq!(parse_color("#ff00ff80").unwrap().a, 0x80);
}

#[test]
fn parse_color_rejects_bad_length() {
    assert!(parse_color("#fff").is_err());
}

#[test]
fn parse_color_trims_and_strips_hashes() {
    assert_eq!(parse_color("  ##1e1e2e \n").unwrap(), ThemeColor { r: 0x1e, g: 0x1e, b: 0x2e, a: 0xff });
    assert_eq!(parse_color("ABCDEF").unwrap(), ThemeColor { r: 0xab, g: 0xcd, b: 0xef, a: 0xff });
}

#[test]
fn parse_color_reports_the_bad_part() {
    let (value, reason) = invalid_color(parse_color("#12").unwrap_err());
    assert_eq!(value, "#12");
    assert_eq!(reason, "expected #RRGGBB or #RRGGBBAA");
    let (value, reason) = invalid_color(parse_color("#12zz56").unwrap_err());
    assert_eq!(value, "zz");
    assert_eq!(reason, "invalid hex digit");
    let (value, _) = invalid_color(parse_color("#1234567g").unwrap_err());
    assert_eq!(value, "7g");
    // a two-byte character fills a whole pair
    let (value, _) = invalid_color(parse_color("#é3456").unwrap_err());
    assert_eq!(value, "é");
    // the alpha byte is checked too
    let (value, _) = invalid_color(parse_color("#123456-1").unwrap_err());
    assert_eq!(value, "-1");
}

#[test]
fn can_resolve_spots_split_characters() {
    let mut theme = example_theme();
    assert!(theme.can_resolve());
    theme.base = Some(Base { background: some("#a€bc"), foreground: None, border: None });
    assert!(!theme.can_resolve());
}

#[test]
fn parse_hex_byte_takes_two_hex_digits() {
    assert_eq!(parse_hex_byte("ff").unwrap(), 255);
    assert_eq!(parse_hex_byte("0A").unwrap(), 10);
    assert_eq!(parse_hex_byte("80").unwrap(), 128);
    assert!(parse_hex_byte("+f").is_err());
    assert!(parse_hex_byte("00ff").is_err());
    assert!(parse_hex_byte("f").is_err());
    assert!(parse_hex_byte("").is_err());
    assert!(parse_hex_byte("-1").is_err());
    let (value, reason) = invalid_color(parse_hex_byte("g0").unwrap_err());
    assert_eq!(value, "g0");
    assert_eq!(reason, "invalid hex digit");
}

#[test]
fn plus_signs_are_not_hex_digits() {
    let (value, reason) = invalid_color(parse_color("#+f+f+f").unwrap_err());
    assert_eq!(value, "+f");
    assert_eq!(reason, "invalid hex digit");
}

#[test]
fn alpha_is_kept() {
    let clear = parse_color("#1e1e2e00").unwrap();
    let solid = parse_color("#1e1e2eFF").unwrap();
    assert_ne!(clear, solid);
    assert!(clear.is_transparent());
    assert!(!solid.is_transparent());
    assert_eq!(clear.to_rgb(), solid.to_rgb());
}

#[test]
fn default_theme_resolves_to_builtin_colors() {
    let colors = Theme::default().resolve().unwrap();
    assert_eq!(colors, example_theme().resolve().unwrap());
    assert_eq!(colors.weekend, ThemeColor { r: 0xf3, g: 0x8b, b: 0xa8, a: 0xff });
    let empty = Theme { base: None, calendar: None };
    assert_eq!(empty.resolve().unwrap(), colors);
}

#[test]
fn resolve_reports_the_first_bad_color() {
    let mut theme = example_theme();
    theme.calendar = Some(Calendar {
        header: some("#zz0000"),
        status: None,
        today: some("#fff"),
        selected: None,
        weekend: None,
        other_month: None,
    });
    let (value, _) = invalid_color(theme.resolve().unwrap_err());
    assert_eq!(value, "zz");
}

#[test]
fn load_or_default_falls_back_to_builtin_theme() {
    let theme = Theme::load_or_default(Err(Error::NotATty));
    assert_eq!(theme.resolve().unwrap(), Theme::default().resolve().unwrap());
    let mut custom = example_theme();
    custom.base = Some(Base { background: some("#000000"), foreground: None, border: None });
    let kept = Theme::load_or_default(Ok(custom));
    assert_eq!(kept.resolve().unwrap().background, ThemeColor { r: 0, g: 0, b: 0, a: 0xff });
}

#[test]
fn example_config_theme_resolves_to_example_theme_file() {
    let config_path = "/home/user/calendar-tui/examples/config.toml";
    let themes = themes_dir("/home/user/.config/calendar-tui");
    let candidates = theme_candidates(config_path, "theme.toml", &themes);
    assert_eq!(candidates.len(), 3);
    // theme.toml exists next to the config file
    let present = vec![true, false, false];
    let theme_path = resolve_path(&candidates, &present);
    assert_eq!(theme_path, "/home/user/calendar-tui/examples/theme.toml");
}

#[test]
fn theme_path_resolution_order() {
    let themes = themes_dir("/cfg/calendar-tui");
    assert_eq!(themes, "/cfg/calendar-tui/themes");
    let candidates = theme_candidates("/etc/cal/config.toml", "dark.toml", &themes);
    assert_eq!(
        candidates,
        vec![
            "/etc/cal/dark.toml".to_string(),
            "/etc/cal/themes/dark.toml".to_string(),
            "/cfg/calendar-tui/themes/dark.toml".to_string(),
        ]
    );
    assert_eq!(resolve_path(&candidates, &vec![false, true, true]), "/etc/cal/themes/dark.toml");
    assert_eq!(resolve_path(&candidates, &vec![false, false, true]), "/cfg/calendar-tui/themes/dark.toml");
    assert_eq!(resolve_path(&candidates, &vec![false, false, false]), "/cfg/calendar-tui/themes/dark.toml");
    // an absolute theme path is taken as it is
    let absolute = theme_candidates("/etc/cal/config.toml", "/opt/t.toml", &themes);
    assert_eq!(absolute, vec!["/opt/t.toml".to_string()]);
    assert_eq!(resolve_path(&absolute, &vec![false]), "/opt/t.toml");
    assert_eq!(join("/a", "b"), "/a/b");
}
