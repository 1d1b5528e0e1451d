use muse::config::{
    apply_config, backend_setting, image_protocol_setting, migrate_legacy_config,
    parse_command, parse_protocol_type, read_config, show_artwork_setting, spotify_client_id,
    CliCommand, ImageProtocol, TomlValue,
};
use muse::state::{AppState, Tab};
use muse::theme::{
    collect_themes, default_theme, fallback_theme, find_theme, has_theme_files, is_theme_file,
    parse_color, parse_theme, parse_theme_doc, theme_file_name, theme_name_for_file, Color, Theme,
};

fn s(x: &str) -> String {
    x.to_string()
}

fn table(entries: Vec<(&str, TomlValue)>) -> TomlValue {
    TomlValue::Table(entries.into_iter().map(|(k, v)| (s(k), v)).collect())
}

fn text(x: &str) -> TomlValue {
    TomlValue::String(s(x))
}

fn theme_doc(border: TomlValue) -> TomlValue {
    table(vec![(
        "colors",
        table(vec![
            ("border", border),
            ("accent", TomlValue::Integer(213)),
            ("text", text("#c0c0c0")),
            ("text_bright", TomlValue::Integer(255)),
            ("text_dim", TomlValue::Integer(245)),
            ("text_muted", TomlValue::Integer(240)),
            ("time_text", TomlValue::Integer(255)),
            ("error", text("ff0000")),
        ]),
    )])
}

/// The text of a theme file whose border color is written `border`.
fn theme_text(border: &str) -> String {
    format!(
        "[colors]\nborder = {}\naccent = 213\ntext = \"#c0c0c0\"\ntext_bright = 255\n\
         text_dim = 245\ntext_muted = 240\ntime_text = 255\nerror = \"ff0000\"\n",
        border
    )
}

#[test]
fn toml_lookup() {
    let doc = table(vec![("a", TomlValue::Integer(1)), ("b", text("x")), ("c", TomlValue::Boolean(true))]);
    assert_eq!(doc.get("a").and_then(|v| v.as_integer()), Some(1));
    assert_eq!(doc.get("b").and_then(|v| v.as_str()), Some("x"));
    assert_eq!(doc.get("c").and_then(|v| v.as_bool()), Some(true));
    assert!(doc.get("d").is_none());
    assert!(text("x").get("a").is_none());
    assert_eq!(text("x").as_integer(), None);
}

#[test]
fn legacy_config_is_migrated() {
    let out = migrate_legacy_config("backend=spotify\ntheme = ocean\nspotify_client_id=abc\nother=1\nnoequals\n");
    assert_eq!(
        out,
        Some(s("backend = \"spotify\"\ntheme = \"ocean\"\n\n[spotify]\nclient_id = \"abc\"\n"))
    );
}

#[test]
fn legacy_config_keeps_equals_in_values() {
    assert_eq!(migrate_legacy_config("theme=a=b"), Some(s("theme = \"a=b\"\n")));
    assert_eq!(
        migrate_legacy_config("spotify_client_id = x \r\n"),
        Some(s("\n[spotify]\nclient_id = \"x\"\n"))
    );
}

#[test]
fn legacy_config_without_settings() {
    assert_eq!(migrate_legacy_config(""), None);
    assert_eq!(migrate_legacy_config("foo=bar\nbaz\n"), None);
}

#[test]
fn config_applies_settings() {
    let mut state = AppState::default();
    let ocean = theme_of(75);
    state.theme.all = vec![(s("synthwave"), theme_of(1)), (s("ocean"), ocean)];
    let mut current = theme_of(1);
    let doc = table(vec![
        ("theme", text("ocean")),
        ("default_tab", text("library")),
        ("ui_width", TomlValue::Integer(20)),
        ("show_artwork", TomlValue::Boolean(false)),
        ("lyrics_enabled", TomlValue::Boolean(false)),
    ]);
    apply_config(&mut state, &mut current, &doc);
    assert_eq!(state.theme.name, "ocean");
    assert_eq!(state.theme.selected, 1);
    assert_eq!(current, ocean);
    assert_eq!(state.active_tab, Tab::Library);
    assert_eq!(state.ui_width, 40);
    assert!(!state.show_artwork);
    assert!(!state.lyrics_enabled);
}

#[test]
fn config_width_and_unknown_values() {
    let mut state = AppState::default();
    let mut current = fallback_theme();
    let doc = table(vec![("theme", text("nope")), ("default_tab", text("nope")), ("ui_width", text("auto"))]);
    apply_config(&mut state, &mut current, &doc);
    assert_eq!(state.theme.name, "synthwave");
    assert_eq!(current, fallback_theme());
    assert_eq!(state.active_tab, Tab::Queue);
    assert_eq!(state.ui_width, 0);
    let doc = table(vec![("ui_width", TomlValue::Integer(65536 + 90))]);
    apply_config(&mut state, &mut current, &doc);
    assert_eq!(state.ui_width, 90);
    let doc = table(vec![("ui_width", TomlValue::Integer(200))]);
    apply_config(&mut state, &mut current, &doc);
    assert_eq!(state.ui_width, 200);
    assert!(state.show_artwork);
}

#[test]
fn image_protocol_names() {
    assert_eq!(parse_protocol_type("kitty"), Some(ImageProtocol::Kitty));
    assert_eq!(parse_protocol_type("SIXEL"), Some(ImageProtocol::Sixel));
    assert_eq!(parse_protocol_type("iTerm"), Some(ImageProtocol::Iterm2));
    assert_eq!(parse_protocol_type("iterm2"), Some(ImageProtocol::Iterm2));
    assert_eq!(parse_protocol_type("halfblock"), Some(ImageProtocol::Halfblocks));
    assert_eq!(parse_protocol_type("Halfblocks"), Some(ImageProtocol::Halfblocks));
    assert_eq!(parse_protocol_type("ascii"), None);
}

#[test]
fn image_protocol_setting_ignores_auto() {
    assert_eq!(image_protocol_setting(&table(vec![("image_protocol", text("AuTo"))])), None);
    assert_eq!(image_protocol_setting(&table(vec![("image_protocol", text(""))])), None);
    assert_eq!(image_protocol_setting(&table(vec![("image_protocol", TomlValue::Integer(1))])), None);
    assert_eq!(image_protocol_setting(&table(vec![("image_protocol", text("Kitty"))])), Some(s("Kitty")));
    assert_eq!(image_protocol_setting(&table(vec![])), None);
}

#[test]
fn backend_and_client_id() {
    let doc = table(vec![("backend", text("spotify")), ("spotify", table(vec![("client_id", text("abc"))]))]);
    assert_eq!(backend_setting(&doc), Some(s("spotify")));
    assert_eq!(spotify_client_id(&doc), Some(s("abc")));
    let doc = table(vec![("spotify", table(vec![("client_id", text(""))]))]);
    assert_eq!(backend_setting(&doc), None);
    assert_eq!(spotify_client_id(&doc), None);
    assert_eq!(spotify_client_id(&table(vec![("client_id", text("top"))])), None);
}

#[test]
fn artwork_switch_defaults_on() {
    assert!(show_artwork_setting(&table(vec![])));
    assert!(!show_artwork_setting(&table(vec![("show_artwork", TomlValue::Boolean(false))])));
    assert!(show_artwork_setting(&table(vec![("show_artwork", text("no"))])));
}

#[test]
fn command_words() {
    assert_eq!(parse_command("next"), Some(CliCommand::Next));
    assert_eq!(parse_command("prev"), Some(CliCommand::Prev));
    assert_eq!(parse_command("previous"), Some(CliCommand::Prev));
    assert_eq!(parse_command("play"), Some(CliCommand::PlayPause));
    assert_eq!(parse_command("pause"), Some(CliCommand::PlayPause));
    assert_eq!(parse_command("toggle"), Some(CliCommand::PlayPause));
    assert_eq!(parse_command("shuffle"), Some(CliCommand::Shuffle));
    assert_eq!(parse_command("fav"), Some(CliCommand::Favorite));
    assert_eq!(parse_command("favorite"), Some(CliCommand::Favorite));
    assert_eq!(parse_command("Next"), None);
}

fn theme_of(n: u8) -> Theme {
    Theme {
        border: Color::Indexed(n),
        accent: Color::Indexed(n),
        text: Color::Indexed(n),
        text_bright: Color::Indexed(n),
        text_dim: Color::Indexed(n),
        text_muted: Color::Indexed(n),
        time_text: Color::Indexed(n),
        error: Color::Indexed(n),
    }
}

#[test]
fn colors_from_values() {
    assert_eq!(parse_color(&TomlValue::Integer(75)), Some(Color::Indexed(75)));
    assert_eq!(parse_color(&TomlValue::Integer(300)), Some(Color::Indexed(44)));
    assert_eq!(parse_color(&TomlValue::Integer(-1)), Some(Color::Indexed(255)));
    assert_eq!(parse_color(&text("#FF8000")), Some(Color::Rgb(255, 128, 0)));
    assert_eq!(parse_color(&text("  ##ff8000 ")), Some(Color::Rgb(255, 128, 0)));
    assert_eq!(parse_color(&text("+f+f+f")), Some(Color::Rgb(15, 15, 15)));
    assert_eq!(parse_color(&text("ff80")), None);
    assert_eq!(parse_color(&text("zz0000")), None);
    assert_eq!(parse_color(&text("-10000")), None);
    assert_eq!(parse_color(&text("+")), None);
    assert_eq!(parse_color(&TomlValue::Boolean(true)), None);
    assert_eq!(parse_color(&TomlValue::Other), None);
}

#[test]
fn theme_from_document() {
    let t = parse_theme_doc(&theme_doc(TomlValue::Integer(75))).unwrap();
    assert_eq!(t.border, Color::Indexed(75));
    assert_eq!(t.text, Color::Rgb(192, 192, 192));
    assert_eq!(t.error, Color::Rgb(255, 0, 0));
    assert_eq!(parse_theme_doc(&theme_doc(text("nothex"))), None);
    assert_eq!(parse_theme_doc(&table(vec![])), None);
    assert_eq!(parse_theme_doc(&table(vec![("colors", table(vec![("border", TomlValue::Integer(1))]))])), None);
}

#[test]
fn theme_from_file_text() {
    let t = parse_theme(&theme_text("75")).unwrap();
    assert_eq!(t.border, Color::Indexed(75));
    assert_eq!(t.accent, Color::Indexed(213));
    assert_eq!(t.text, Color::Rgb(192, 192, 192));
    assert_eq!(t.error, Color::Rgb(255, 0, 0));
    assert_eq!(parse_theme(&theme_text("\"#102030\"")).unwrap().border, Color::Rgb(16, 32, 48));
    assert_eq!(parse_theme(&theme_text("\"nothex\"")), None);
    assert_eq!(parse_theme(&theme_text("1.5")), None);
    assert_eq!(parse_theme("[colors]\nborder = 1\n"), None);
    assert_eq!(parse_theme("not toml at all ="), None);
    assert_eq!(parse_theme(""), None);
    // A six-byte color string whose first two bytes split a character.
    assert_eq!(parse_theme(&theme_text("\"a\u{20ac}12\"")), None);
}

#[test]
fn default_theme_prefers_embedded_synthwave() {
    assert_eq!(default_theme(&[]), fallback_theme());
    let embedded = vec![(s("ocean"), theme_text("1")), (s("synthwave"), theme_text("2"))];
    assert_eq!(default_theme(&embedded).border, Color::Indexed(2));
    let broken = vec![(s("synthwave"), s("[colors]\n"))];
    assert_eq!(default_theme(&broken), fallback_theme());
    let fb = fallback_theme();
    assert_eq!(fb.border, Color::Indexed(75));
    assert_eq!(fb.accent, Color::Indexed(213));
    assert_eq!(fb.error, Color::Indexed(196));
}

#[test]
fn theme_file_names() {
    assert!(is_theme_file("ocean.toml"));
    assert!(is_theme_file("a.b.toml"));
    assert!(!is_theme_file(".toml"));
    assert!(!is_theme_file("ocean.TOML"));
    assert!(!is_theme_file("ocean.toml.bak"));
    assert!(!is_theme_file("toml"));
    assert_eq!(theme_name_for_file("tokyo-night-moon.toml"), "tokyo night moon");
    assert_eq!(theme_file_name("tokyo night moon"), "tokyo-night-moon.toml");
    assert_eq!(theme_name_for_file(&theme_file_name("deep sea")), "deep sea");
    assert!(has_theme_files(&[s("readme"), s("x.toml")]));
    assert!(!has_theme_files(&[s("readme")]));
}

#[test]
fn theme_list_from_files_or_embedded() {
    let files = vec![
        (s("fire.toml"), Some(theme_text("9"))),
        (s("notes.txt"), Some(theme_text("8"))),
        (s("broken.toml"), Some(s("[colors]\n"))),
        (s("unread.toml"), None),
    ];
    let embedded = vec![(s("synthwave"), theme_text("2"))];
    let list = collect_themes(&files, &embedded);
    assert_eq!(list.len(), 1);
    assert_eq!(list[0].0, "fire");
    assert_eq!(list[0].1.border, Color::Indexed(9));
    let list = collect_themes(&[], &embedded);
    assert_eq!(list.len(), 1);
    assert_eq!(list[0].0, "synthwave");
    assert_eq!(find_theme("synthwave", &list), Some((0, list[0].1)));
    assert_eq!(find_theme("none", &list), None);
}

#[test]
fn config_is_read_and_legacy_file_migrated() {
    let (doc, migrated) = read_config(Some("theme = \"ocean\"\n[spotify]\nclient_id = \"abc\"\n"), true, Some("backend=x"));
    assert!(migrated.is_none());
    let doc = doc.unwrap();
    assert_eq!(doc.get("theme").and_then(|v| v.as_str()), Some("ocean"));
    assert_eq!(spotify_client_id(&doc), Some(s("abc")));

    let (doc, migrated) = read_config(None, false, Some("backend=spotify\nspotify_client_id=xyz\n"));
    assert_eq!(migrated, Some(s("backend = \"spotify\"\n\n[spotify]\nclient_id = \"xyz\"\n")));
    let doc = doc.unwrap();
    assert_eq!(backend_setting(&doc), Some(s("spotify")));
    assert_eq!(spotify_client_id(&doc), Some(s("xyz")));

    // Nothing to migrate: the (absent) config file decides.
    let (doc, migrated) = read_config(None, false, Some("unrelated=1\n"));
    assert!(doc.is_none() && migrated.is_none());
    // Not TOML.
    let (doc, migrated) = read_config(Some("= = ="), true, None);
    assert!(doc.is_none() && migrated.is_none());
    // Floats and arrays are read but no setting comes from them.
    let (doc, _) = read_config(Some("ui_width = 1.5\nlist = [1, 2]\nshow_artwork = false\n"), true, None);
    let doc = doc.unwrap();
    assert!(matches!(doc.get("ui_width"), Some(TomlValue::Other)));
    assert!(matches!(doc.get("list"), Some(TomlValue::Other)));
    assert!(!show_artwork_setting(&doc));
}

#[test]
fn applying_config_twice_changes_nothing_more() {
    let mut state = AppState::default();
    state.theme.all = vec![(s("ocean"), theme_of(3))];
    let mut current = fallback_theme();
    let doc = table(vec![("theme", text("ocean")), ("ui_width", TomlValue::Integer(10)), ("default_tab", text("search"))]);
    apply_config(&mut state, &mut current, &doc);
    let once = (state.theme.name.clone(), state.theme.selected, state.ui_width, state.active_tab, current);
    apply_config(&mut state, &mut current, &doc);
    let twice = (state.theme.name.clone(), state.theme.selected, state.ui_width, state.active_tab, current);
    assert_eq!(once, twice);
    assert_eq!(once.2, 40);
    assert_eq!(once.3, Tab::Search);
}
