//! The configuration file: a model of the parsed TOML document, the
//! settings read from it, the migration of the legacy `KEY=VALUE` file, and
//! the command-line subcommands.

use vstd::prelude::*;
use crate::nav::PAGE_SIZE;
use crate::state::{AppState, AppView, Tab, ThemeView, tab_from_name};
use crate::text::{
    first_index_of, chars_eq, chars_of, find_char, is_ws, lines_of, lines_spec, push_chars, push_char, push_str,
    slice_range, str_eq, trim, trim_chars, ascii_lower_seq, to_ascii_lowercase,
};
use crate::theme::{find_theme, find_theme_spec, Theme};

verus! {

broadcast use vstd::string::group_string_axioms;

/// A parsed TOML value, as far as the settings read it. Floats, arrays and
/// dates are all `Other`: no setting is read from them.
pub enum TomlValue {
    String(String),
    Integer(i64),
    Boolean(bool),
    /// A table's entries (keys are unique).
    Table(Vec<(String, TomlValue)>),
    Other,
}

#[verifier::external_type_specification]
#[verifier::external_body]
pub struct ExTomlValue(toml::Value);

/// What the `toml` crate's parser gives for a text, as a `TomlValue`:
/// `None` when the text is not a TOML document.
pub uninterp spec fn toml_document(text: Seq<char>) -> Option<TomlValue>;

/// One `toml::Value` as a `TomlValue`, variant for variant: strings,
/// integers, booleans and tables keep their contents (a table's values are
/// converted in turn); floats, dates and arrays become `Other`. It is the
/// conversion step of `parse_toml` and makes no claim of its own.
#[verifier::external_body]
fn toml_value_model(v: toml::Value) -> TomlValue {
    match v {
        toml::Value::String(s) => TomlValue::String(s),
        toml::Value::Integer(n) => TomlValue::Integer(n),
        toml::Value::Boolean(b) => TomlValue::Boolean(b),
        toml::Value::Table(t) => TomlValue::Table(t.into_iter().map(|(k, x)| (k, toml_value_model(x))).collect()),
        toml::Value::Float(_) => TomlValue::Other,
        toml::Value::Datetime(_) => TomlValue::Other,
        toml::Value::Array(_) => TomlValue::Other,
    }
}

/// `str::parse::<toml::Value>` (the `toml` crate's `from_str`), converted to
/// a `TomlValue`. Claims only that the result is a function of the text,
/// named `toml_document`; the TOML grammar is not restated here.
#[verifier::external_body]
pub(crate) fn parse_toml(text: &str) -> (r: Option<TomlValue>)
    ensures
        r == toml_document(text@),
{
    match text.parse::<toml::Value>() {
        Ok(v) => Some(toml_value_model(v)),
        Err(_) => None,
    }
}

/// The value under the first entry named `key`.
pub open spec fn lookup(entries: Seq<(String, TomlValue)>, key: Seq<char>) -> Option<TomlValue>
    decreases entries.len(),
{
    if entries.len() == 0 {
        None
    } else if entries[0].0@ == key {
        Some(entries[0].1)
    } else {
        lookup(entries.drop_first(), key)
    }
}

/// `Value::get` with a string key: a table's entry, nothing for other values.
pub open spec fn toml_get(v: TomlValue, key: Seq<char>) -> Option<TomlValue> {
    match v {
        TomlValue::Table(entries) => lookup(entries@, key),
        _ => None,
    }
}

/// `Value::as_str` of an optional value.
pub open spec fn as_text(v: Option<TomlValue>) -> Option<Seq<char>> {
    match v {
        Some(TomlValue::String(s)) => Some(s@),
        _ => None,
    }
}

/// `Value::as_bool` of an optional value.
pub open spec fn as_flag(v: Option<TomlValue>) -> Option<bool> {
    match v {
        Some(TomlValue::Boolean(b)) => Some(b),
        _ => None,
    }
}

/// `Value::as_integer` of an optional value.
pub open spec fn as_int(v: Option<TomlValue>) -> Option<i64> {
    match v {
        Some(TomlValue::Integer(n)) => Some(n),
        _ => None,
    }
}

impl TomlValue {
    /// The value under `key` when this is a table.
    pub fn get(&self, key: &str) -> (r: Option<&TomlValue>)
        ensures
            match r {
                Some(v) => toml_get(*self, key@) == Some(*v),
                None => toml_get(*self, key@) is None,
            },
    {
        match self {
            TomlValue::Table(entries) => {
                assert(entries@.skip(0) =~= entries@);
                for i in 0..entries.len()
                    invariant
                        toml_get(*self, key@) == lookup(entries@, key@),
                        lookup(entries@, key@) == lookup(entries@.skip(i as int), key@),
                {
                    let ghost rest = entries@.skip(i as int);
                    assert(rest[0] == entries@[i as int]);
                    assert(rest.drop_first() =~= entries@.skip(i + 1));
                    if str_eq(entries[i].0.as_str(), key) {
                        assert(lookup(rest, key@) == Some(rest[0].1));
                        assert(rest[0].1 == entries@[i as int].1);
                        return Some(&entries[i].1);
                    }
                }
                assert(entries@.skip(entries@.len() as int).len() == 0);
                None
            },
            _ => None,
        }
    }

    pub fn as_str(&self) -> (r: Option<&str>)
        ensures
            match r {
                Some(s) => as_text(Some(*self)) == Some(s@),
                None => as_text(Some(*self)) is None,
            },
    {
        match self {
            TomlValue::String(s) => Some(s.as_str()),
            _ => None,
        }
    }

    pub fn as_bool(&self) -> (r: Option<bool>)
        ensures
            r == as_flag(Some(*self)),
    {
        match self {
            TomlValue::Boolean(b) => Some(*b),
            _ => None,
        }
    }

    pub fn as_integer(&self) -> (r: Option<i64>)
        ensures
            r == as_int(Some(*self)),
    {
        match self {
            TomlValue::Integer(n) => Some(*n),
            _ => None,
        }
    }
}

fn get_str<'a>(doc: &'a TomlValue, key: &str) -> (r: Option<&'a str>)
    ensures
        match r {
            Some(s) => as_text(toml_get(*doc, key@)) == Some(s@),
            None => as_text(toml_get(*doc, key@)) is None,
        },
{
    match doc.get(key) {
        Some(v) => v.as_str(),
        None => None,
    }
}

fn get_bool(doc: &TomlValue, key: &str) -> (r: Option<bool>)
    ensures
        r == as_flag(toml_get(*doc, key@)),
{
    match doc.get(key) {
        Some(v) => v.as_bool(),
        None => None,
    }
}

// ---------------------------------------------------------------------------
// Settings applied at startup
// ---------------------------------------------------------------------------

/// The UI width setting: `"auto"` means the full terminal width (0); an
/// integer is truncated to 16 bits and raised to at least 40.
pub open spec fn ui_width_setting(v: Option<TomlValue>, current: u16) -> u16 {
    if as_text(v) == Some("auto"@) {
        0
    } else {
        match as_int(v) {
            Some(w) => if (w as u16) < 40 { 40 } else { w as u16 },
            None => current,
        }
    }
}

/// The theme setting: when a loaded theme has the configured name, it
/// becomes the active theme and the picker's selection.
pub open spec fn theme_setting_spec(s: AppView, theme: Theme, doc: TomlValue) -> (AppView, Theme) {
    match as_text(toml_get(doc, "theme"@)) {
        Some(name) => match find_theme_spec(name, s.theme.all) {
            Some((idx, t)) => (
                AppView { theme: ThemeView { name: name, selected: idx, ..s.theme }, ..s },
                t,
            ),
            None => (s, theme),
        },
        None => (s, theme),
    }
}

/// The other settings: default tab, UI width, artwork and lyrics switches.
pub open spec fn view_settings_spec(s: AppView, doc: TomlValue) -> AppView {
    let tab = match as_text(toml_get(doc, "default_tab"@)) {
        Some(n) => match tab_from_name(n) {
            Some(t) => t,
            None => s.active_tab,
        },
        None => s.active_tab,
    };
    let show = match as_flag(toml_get(doc, "show_artwork"@)) {
        Some(b) => b,
        None => s.show_artwork,
    };
    let lyrics = match as_flag(toml_get(doc, "lyrics_enabled"@)) {
        Some(b) => b,
        None => s.lyrics_enabled,
    };
    AppView {
        active_tab: tab,
        ui_width: ui_width_setting(toml_get(doc, "ui_width"@), s.ui_width),
        show_artwork: show,
        lyrics_enabled: lyrics,
        ..s
    }
}

/// What the configuration changes in the state and the active theme.
pub open spec fn config_spec(s: AppView, theme: Theme, doc: TomlValue) -> (AppView, Theme) {
    let (s1, t1) = theme_setting_spec(s, theme, doc);
    (view_settings_spec(s1, doc), t1)
}

fn apply_theme_setting(state: &mut AppState, theme: &mut Theme, doc: &TomlValue)
    ensures
        (final(state)@, *final(theme)) == theme_setting_spec(old(state)@, *old(theme), *doc),
{
    if let Some(name) = get_str(doc, "theme") {
        if let Some((idx, t)) = find_theme(name, state.theme.all.as_slice()) {
            state.theme.name = name.to_owned();
            state.theme.selected = idx;
            *theme = t;
        }
    }
}

fn ui_width_from(v: Option<&TomlValue>, current: u16) -> (r: u16)
    ensures
        r == ui_width_setting(
            match v {
                Some(x) => Some(*x),
                None => None,
            },
            current,
        ),
{
    match v {
        Some(val) => {
            let is_auto = match val.as_str() {
                Some(s) => str_eq(s, "auto"),
                None => false,
            };
            if is_auto {
                0
            } else if let Some(w) = val.as_integer() {
                let w16 = w as u16;
                if w16 < 40 {
                    40
                } else {
                    w16
                }
            } else {
                current
            }
        },
        None => current,
    }
}

fn apply_view_settings(state: &mut AppState, doc: &TomlValue)
    ensures
        final(state)@ == view_settings_spec(old(state)@, *doc),
{
    if let Some(tab) = get_str(doc, "default_tab") {
        if let Some(t) = Tab::from_name(tab) {
            state.active_tab = t;
        }
    }
    let w = ui_width_from(doc.get("ui_width"), state.ui_width);
    state.ui_width = w;
    if let Some(show) = get_bool(doc, "show_artwork") {
        state.show_artwork = show;
    }
    if let Some(enabled) = get_bool(doc, "lyrics_enabled") {
        state.lyrics_enabled = enabled;
    }
}

/// Applies the settings of the configuration document: theme (when a
/// theme of that name is loaded), default tab, UI width, artwork and
/// lyrics switches.
pub fn apply_config(state: &mut AppState, theme: &mut Theme, doc: &TomlValue)
    ensures
        (final(state)@, *final(theme)) == config_spec(old(state)@, *old(theme), *doc),
{
    apply_theme_setting(state, theme, doc);
    apply_view_settings(state, doc);
}

/// Whether artwork is wanted: the `show_artwork` switch, on by default.
pub fn show_artwork_setting(doc: &TomlValue) -> (r: bool)
    ensures
        r == match as_flag(toml_get(*doc, "show_artwork"@)) {
            Some(b) => b,
            None => true,
        },
{
    match get_bool(doc, "show_artwork") {
        Some(b) => b,
        None => true,
    }
}

/// ASCII case-insensitive equality (`str::eq_ignore_ascii_case`).
pub open spec fn eq_ignore_ascii_case(a: Seq<char>, b: Seq<char>) -> bool {
    ascii_lower_seq(a) == ascii_lower_seq(b)
}

/// The configured image protocol, unless it is missing, empty or `auto`
/// (in any letter case).
pub fn image_protocol_setting(doc: &TomlValue) -> (r: Option<String>)
    ensures
        match as_text(toml_get(*doc, "image_protocol"@)) {
            Some(v) => if v.len() == 0 || eq_ignore_ascii_case(v, "auto"@) {
                r is None
            } else {
                r matches Some(x) && x@ == v
            },
            None => r is None,
        },
{
    let value = match get_str(doc, "image_protocol") {
        Some(v) => v,
        None => return None,
    };
    let lower = to_ascii_lowercase(chars_of(value).as_slice());
    let auto_lower = to_ascii_lowercase(chars_of("auto").as_slice());
    if chars_eq(lower.as_slice(), auto_lower.as_slice()) || value.is_empty() {
        None
    } else {
        Some(value.to_owned())
    }
}

/// The terminal image protocols that can be chosen by name.
#[derive(Debug, Clone, Copy, PartialEq, Eq, Structural)]
pub enum ImageProtocol {
    Kitty,
    Sixel,
    Iterm2,
    Halfblocks,
}

/// The protocol a configured name selects, ignoring ASCII letter case.
pub open spec fn protocol_spec(name: Seq<char>) -> Option<ImageProtocol> {
    let n = ascii_lower_seq(name);
    if n == "kitty"@ {
        Some(ImageProtocol::Kitty)
    } else if n == "sixel"@ {
        Some(ImageProtocol::Sixel)
    } else if n == "iterm2"@ || n == "iterm"@ {
        Some(ImageProtocol::Iterm2)
    } else if n == "halfblocks"@ || n == "halfblock"@ {
        Some(ImageProtocol::Halfblocks)
    } else {
        None
    }
}

/// Maps a configured protocol name to a protocol; `None` for unknown names.
pub fn parse_protocol_type(name: &str) -> (r: Option<ImageProtocol>)
    ensures
        r == protocol_spec(name@),
{
    let n = to_ascii_lowercase(chars_of(name).as_slice());
    let s = crate::text::string_from_chars(n.as_slice());
    let t = s.as_str();
    if str_eq(t, "kitty") {
        Some(ImageProtocol::Kitty)
    } else if str_eq(t, "sixel") {
        Some(ImageProtocol::Sixel)
    } else if str_eq(t, "iterm2") || str_eq(t, "iterm") {
        Some(ImageProtocol::Iterm2)
    } else if str_eq(t, "halfblocks") || str_eq(t, "halfblock") {
        Some(ImageProtocol::Halfblocks)
    } else {
        None
    }
}

/// The configured backend name.
pub fn backend_setting(doc: &TomlValue) -> (r: Option<String>)
    ensures
        match as_text(toml_get(*doc, "backend"@)) {
            Some(v) => r matches Some(x) && x@ == v,
            None => r is None,
        },
{
    match get_str(doc, "backend") {
        Some(s) => Some(s.to_owned()),
        None => None,
    }
}

/// The Spotify client id from the `[spotify]` table, when set and not empty.
pub fn spotify_client_id(doc: &TomlValue) -> (r: Option<String>)
    ensures
        match toml_get(*doc, "spotify"@) {
            Some(t) => match as_text(toml_get(t, "client_id"@)) {
                Some(v) => if v.len() > 0 {
                    r matches Some(x) && x@ == v
                } else {
                    r is None
                },
                None => r is None,
            },
            None => r is None,
        },
{
    let table = match doc.get("spotify") {
        Some(t) => t,
        None => return None,
    };
    match get_str(table, "client_id") {
        Some(s) => if s.is_empty() {
            None
        } else {
            Some(s.to_owned())
        },
        None => None,
    }
}

// ---------------------------------------------------------------------------
// Migration of the legacy `KEY=VALUE` configuration file
// ---------------------------------------------------------------------------

/// A legacy line split at its first `=`, key and value trimmed; lines
/// without `=` carry no setting.
pub open spec fn legacy_pair(line: Seq<char>) -> Option<(Seq<char>, Seq<char>)> {
    match first_index_of(line, '=') {
        Some(i) => Some((trim(line.take(i)), trim(line.skip(i + 1)))),
        None => None,
    }
}

/// A TOML assignment of a quoted string: `name = "value"`.
pub open spec fn quoted_setting(name: Seq<char>, val: Seq<char>) -> Seq<char> {
    name + seq![' ', '=', ' ', '"'] + val + seq!['"']
}

/// The top-level TOML lines migrated from the legacy lines: `backend` and
/// `theme`, in order.
pub open spec fn migrated_top(ls: Seq<Seq<char>>) -> Seq<Seq<char>>
    decreases ls.len(),
{
    if ls.len() == 0 {
        seq![]
    } else {
        let prev = migrated_top(ls.drop_last());
        match legacy_pair(ls.last()) {
            Some((k, v)) => if k == "backend"@ || k == "theme"@ {
                prev.push(quoted_setting(k, v))
            } else {
                prev
            },
            None => prev,
        }
    }
}

/// The `[spotify]` lines migrated from the legacy `spotify_client_id`.
pub open spec fn migrated_spotify(ls: Seq<Seq<char>>) -> Seq<Seq<char>>
    decreases ls.len(),
{
    if ls.len() == 0 {
        seq![]
    } else {
        let prev = migrated_spotify(ls.drop_last());
        match legacy_pair(ls.last()) {
            Some((k, v)) => if k == "spotify_client_id"@ {
                prev.push(quoted_setting("client_id"@, v))
            } else {
                prev
            },
            None => prev,
        }
    }
}

/// All migrated lines: the top-level ones, then, when there are any, a
/// blank line, the `[spotify]` header and the Spotify lines.
pub open spec fn migrated_lines(ls: Seq<Seq<char>>) -> Seq<Seq<char>> {
    let top = migrated_top(ls);
    let sp = migrated_spotify(ls);
    if sp.len() > 0 {
        top + seq![Seq::<char>::empty(), "[spotify]"@] + sp
    } else {
        top
    }
}

/// Lines joined with `\n` between them.
pub open spec fn join_lines(xs: Seq<Seq<char>>) -> Seq<char>
    decreases xs.len(),
{
    if xs.len() == 0 {
        seq![]
    } else if xs.len() == 1 {
        xs[0]
    } else {
        join_lines(xs.drop_last()) + seq!['\n'] + xs.last()
    }
}

/// The migrated TOML text, ended by a newline; nothing when no setting was
/// recognised.
pub open spec fn migrate_spec(contents: Seq<char>) -> Option<Seq<char>> {
    let all = migrated_lines(lines_spec(contents));
    if all.len() == 0 {
        None
    } else {
        Some(join_lines(all) + seq!['\n'])
    }
}

pub open spec fn char_lines(v: Seq<Vec<char>>) -> Seq<Seq<char>> {
    v.map_values(|x: Vec<char>| x@)
}

fn quoted_line(name: &[char], val: &[char]) -> (r: Vec<char>)
    ensures
        r@ == quoted_setting(name@, val@),
{
    let mut r: Vec<char> = Vec::new();
    for i in 0..name.len()
        invariant
            r@ == name@.take(i as int),
    {
        r.push(name[i]);
        assert(name@.take(i as int).push(name@[i as int]) =~= name@.take(i + 1));
    }
    assert(name@.take(name@.len() as int) =~= name@);
    r.push(' ');
    r.push('=');
    r.push(' ');
    r.push('"');
    let ghost head = r@;
    for i in 0..val.len()
        invariant
            r@ == head + val@.take(i as int),
    {
        r.push(val[i]);
        assert(val@.take(i as int).push(val@[i as int]) =~= val@.take(i + 1));
    }
    assert(val@.take(val@.len() as int) =~= val@);
    r.push('"');
    assert(r@ =~= quoted_setting(name@, val@));
    r
}

fn push_line(v: &mut Vec<Vec<char>>, line: Vec<char>)
    ensures
        char_lines(final(v)@) == char_lines(old(v)@).push(line@),
{
    let ghost l = line@;
    v.push(line);
    assert(char_lines(v@) =~= char_lines(old(v)@).push(l));
}

fn join_with_newlines(xs: &Vec<Vec<char>>) -> (r: String)
    ensures
        r@ == join_lines(char_lines(xs@)) + seq!['\n'],
{
    let mut out = String::new();
    for i in 0..xs.len()
        invariant
            out@ == join_lines(char_lines(xs@.take(i as int))),
    {
        let ghost before = xs@.take(i as int);
        let ghost after = xs@.take(i + 1);
        assert(after.drop_last() =~= before);
        assert(char_lines(after).drop_last() =~= char_lines(before));
        if i > 0 {
            push_char(&mut out, '\n');
        }
        push_chars(&mut out, xs[i].as_slice());
        proof {
            if i == 0 {
                assert(out@ =~= char_lines(after)[0]);
            } else {
                assert(out@ =~= join_lines(char_lines(before)) + seq!['\n'] + char_lines(after).last());
            }
        }
    }
    assert(xs@.take(xs@.len() as int) =~= xs@);
    push_char(&mut out, '\n');
    out
}

/// Converts a legacy `KEY=VALUE` configuration to TOML: `backend` and
/// `theme` become top-level strings, `spotify_client_id` becomes
/// `client_id` in a `[spotify]` table; `None` when nothing was recognised.
pub fn migrate_legacy_config(contents: &str) -> (r: Option<String>)
    ensures
        match migrate_spec(contents@) {
            Some(t) => r matches Some(x) && x@ == t,
            None => r is None,
        },
{
    let chars = chars_of(contents);
    let ls = lines_of(chars.as_slice());
    let ghost lsv = lines_spec(contents@);
    assert(char_lines(ls@) =~= lsv);
    let backend_key = chars_of("backend");
    let theme_key = chars_of("theme");
    let client_key = chars_of("spotify_client_id");
    let client_name = chars_of("client_id");
    let mut top: Vec<Vec<char>> = Vec::new();
    let mut sp: Vec<Vec<char>> = Vec::new();
    for i in 0..ls.len()
        invariant
            lsv == lines_spec(contents@),
            ls@.len() == lsv.len(),
            forall|j: int| 0 <= j < ls@.len() ==> #[trigger] ls@[j]@ == lsv[j],
            backend_key@ == "backend"@,
            theme_key@ == "theme"@,
            client_key@ == "spotify_client_id"@,
            client_name@ == "client_id"@,
            char_lines(top@) == migrated_top(lsv.take(i as int)),
            char_lines(sp@) == migrated_spotify(lsv.take(i as int)),
    {
        let ghost pre = lsv.take(i as int);
        let ghost cur = lsv.take(i + 1);
        assert(cur.drop_last() =~= pre);
        assert(cur.last() == ls@[i as int]@);
        let line = &ls[i];
        match find_char(line.as_slice(), '=') {
            Some(j) => {
                assert(j < line@.len());
                let k = trim_chars(slice_range(line.as_slice(), 0, j).as_slice());
                let v = trim_chars(slice_range(line.as_slice(), j + 1, line.len()).as_slice());
                assert(line@.subrange(0, j as int) =~= line@.take(j as int));
                assert(line@.subrange(j + 1, line@.len() as int) =~= line@.skip(j + 1));
                if chars_eq(k.as_slice(), backend_key.as_slice()) || chars_eq(
                    k.as_slice(),
                    theme_key.as_slice(),
                ) {
                    proof {
                        reveal_strlit("backend");
                        reveal_strlit("theme");
                        reveal_strlit("spotify_client_id");
                        assert("spotify_client_id"@.len() == 17);
                        assert(k@ == "backend"@ || k@ == "theme"@);
                        assert(k@.len() == 7 || k@.len() == 5);
                    }
                    let q = quoted_line(k.as_slice(), v.as_slice());
                    push_line(&mut top, q);
                } else if chars_eq(k.as_slice(), client_key.as_slice()) {
                    let q = quoted_line(client_name.as_slice(), v.as_slice());
                    push_line(&mut sp, q);
                }
            },
            None => {},
        }
    }
    assert(lsv.take(ls@.len() as int) =~= lsv);
    if sp.len() > 0 {
        push_line(&mut top, Vec::new());
        push_line(&mut top, chars_of("[spotify]"));
        for i in 0..sp.len()
            invariant
                char_lines(top@) == migrated_top(lsv) + seq![Seq::<char>::empty(), "[spotify]"@]
                    + char_lines(sp@).take(i as int),
        {
            let line = sp[i].clone();
            push_line(&mut top, line);
            assert(char_lines(sp@).take(i as int).push(sp@[i as int]@) =~= char_lines(sp@).take(i + 1));
        }
        assert(char_lines(sp@).take(sp@.len() as int) =~= char_lines(sp@));
    }
    assert(char_lines(top@) == migrated_lines(lsv));
    if top.len() == 0 {
        None
    } else {
        Some(join_with_newlines(&top))
    }
}

/// What reading the configuration gives, from the text of `config.toml`
/// (`current`, when it could be read), whether that file exists, and the
/// text of the legacy `config` file (when it could be read): the parsed
/// document, and the migrated text that replaces the legacy file. The
/// legacy file is migrated only while `config.toml` does not exist.
pub open spec fn read_config_spec(current: Option<Seq<char>>, exists: bool, legacy: Option<Seq<char>>) -> (
    Option<TomlValue>,
    Option<Seq<char>>,
) {
    match legacy {
        Some(l) if !exists && migrate_spec(l) is Some => {
            let m = migrate_spec(l).unwrap();
            (toml_document(m), Some(m))
        },
        _ => (
            match current {
                Some(c) => toml_document(c),
                None => None,
            },
            None,
        ),
    }
}

/// Reads the configuration: the parsed document (`None` when there is no
/// readable TOML), and the migrated text to write to `config.toml` in place
/// of the legacy file, when that file was migrated.
pub fn read_config(current: Option<&str>, exists: bool, legacy: Option<&str>) -> (r: (
    Option<TomlValue>,
    Option<String>,
))
    ensures
        r.0 == read_config_spec(opt_view(current), exists, opt_view(legacy)).0,
        match read_config_spec(opt_view(current), exists, opt_view(legacy)).1 {
            Some(m) => r.1 matches Some(x) && x@ == m,
            None => r.1 is None,
        },
{
    if !exists {
        if let Some(l) = legacy {
            if let Some(m) = migrate_legacy_config(l) {
                let doc = parse_toml(m.as_str());
                return (doc, Some(m));
            }
        }
    }
    match current {
        Some(c) => (parse_toml(c), None),
        None => (None, None),
    }
}

/// The text of an optional string.
pub open spec fn opt_view(o: Option<&str>) -> Option<Seq<char>> {
    match o {
        Some(s) => Some(s@),
        None => None,
    }
}

// ---------------------------------------------------------------------------
// Command-line subcommands
// ---------------------------------------------------------------------------

/// A subcommand given on the command line.
#[derive(Debug, Clone, Copy, PartialEq, Eq, Structural)]
pub enum CliCommand {
    Next,
    Prev,
    PlayPause,
    Shuffle,
    Favorite,
}

/// The subcommand a word names, with its aliases.
pub open spec fn command_spec(cmd: Seq<char>) -> Option<CliCommand> {
    if cmd == "next"@ {
        Some(CliCommand::Next)
    } else if cmd == "prev"@ || cmd == "previous"@ {
        Some(CliCommand::Prev)
    } else if cmd == "play"@ || cmd == "pause"@ || cmd == "toggle"@ {
        Some(CliCommand::PlayPause)
    } else if cmd == "shuffle"@ {
        Some(CliCommand::Shuffle)
    } else if cmd == "favorite"@ || cmd == "fav"@ {
        Some(CliCommand::Favorite)
    } else {
        None
    }
}

/// Reads a subcommand; `None` for an unknown word (the caller prints the
/// usage and exits with status 1).
pub fn parse_command(cmd: &str) -> (r: Option<CliCommand>)
    ensures
        r == command_spec(cmd@),
{
    if str_eq(cmd, "next") {
        Some(CliCommand::Next)
    } else if str_eq(cmd, "prev") || str_eq(cmd, "previous") {
        Some(CliCommand::Prev)
    } else if str_eq(cmd, "play") || str_eq(cmd, "pause") || str_eq(cmd, "toggle") {
        Some(CliCommand::PlayPause)
    } else if str_eq(cmd, "shuffle") {
        Some(CliCommand::Shuffle)
    } else if str_eq(cmd, "favorite") || str_eq(cmd, "fav") {
        Some(CliCommand::Favorite)
    } else {
        None
    }
}

/// Applying the configuration twice changes nothing more than applying
/// it once.
pub proof fn lemma_config_idempotent(s: AppView, theme: Theme, doc: TomlValue)
    ensures
        ({
            let (s1, t1) = config_spec(s, theme, doc);
            config_spec(s1, t1, doc) == (s1, t1)
        }),
{
    let (s1, t1) = config_spec(s, theme, doc);
    assert(s1.theme.all == s.theme.all);
    match as_text(toml_get(doc, "theme"@)) {
        Some(name) => match find_theme_spec(name, s.theme.all) {
            Some((idx, t)) => {
                assert(s1.theme.name == name && s1.theme.selected == idx && t1 == t);
            },
            None => {},
        },
        None => {},
    }
    let v = toml_get(doc, "ui_width"@);
    assert(ui_width_setting(v, ui_width_setting(v, s.ui_width)) == ui_width_setting(v, s.ui_width));
}

} // verus!
