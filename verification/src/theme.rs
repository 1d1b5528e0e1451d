//! Color themes: the library's own color model, theme lookup, and the
//! interpretation of a theme file's `[colors]` table.

use vstd::prelude::*;
use vstd::utf8::{encode_utf8, is_char_boundary};
use crate::config::{parse_toml, toml_document, toml_get, TomlValue};
use crate::text::{chars_of, push_char, push_str, str_eq, string_from_chars, trim, trim_chars};

verus! {

/// A terminal color as theme files can express it.
#[derive(Debug, Clone, Copy, PartialEq, Eq, Structural)]
pub enum Color {
    /// An entry of the 256-color palette.
    Indexed(u8),
    /// A 24-bit color.
    Rgb(u8, u8, u8),
}

#[derive(Debug, Clone, Copy, PartialEq, Eq, Structural)]
pub struct Theme {
    pub border: Color,
    pub accent: Color,
    pub text: Color,
    pub text_bright: Color,
    pub text_dim: Color,
    pub text_muted: Color,
    pub time_text: Color,
    pub error: Color,
}

/// Position of the first theme named `name`.
pub open spec fn theme_index(name: Seq<char>, themes: Seq<(String, Theme)>) -> Option<int> {
    if exists|i: int| 0 <= i < themes.len() && themes[i].0@ == name {
        Some(
            choose|i: int|
                0 <= i < themes.len() && themes[i].0@ == name && forall|j: int|
                    0 <= j < i ==> themes[j].0@ != name,
        )
    } else {
        None
    }
}

/// The first theme with the given name, with its position.
pub open spec fn find_theme_spec(name: Seq<char>, themes: Seq<(String, Theme)>) -> Option<(usize, Theme)> {
    match theme_index(name, themes) {
        Some(i) => Some((i as usize, themes[i].1)),
        None => None,
    }
}

pub fn find_theme(name: &str, themes: &[(String, Theme)]) -> (r: Option<(usize, Theme)>)
    ensures
        r == find_theme_spec(name@, themes@),
        r matches Some((i, t)) ==> i < themes@.len() && themes@[i as int].0@ == name@
            && themes@[i as int].1 == t,
{
    for i in 0..themes.len()
        invariant
            forall|j: int| 0 <= j < i ==> themes@[j].0@ != name@,
    {
        if str_eq(themes[i].0.as_str(), name) {
            proof {
                let w = choose|k: int|
                    0 <= k < themes@.len() && themes@[k].0@ == name@ && forall|j: int|
                        0 <= j < k ==> themes@[j].0@ != name@;
                assert(0 <= i < themes@.len() && themes@[i as int].0@ == name@);
                if w < i {
                } else if w > i {
                }
            }
            return Some((i, themes[i].1));
        }
    }
    None
}

// ---------------------------------------------------------------------------
// Reading colors and themes from parsed theme files
// ---------------------------------------------------------------------------

/// Leading `#` characters removed (`trim_start_matches('#')`).
pub open spec fn strip_hashes(s: Seq<char>) -> Seq<char>
    decreases s.len(),
{
    if s.len() > 0 && s[0] == '#' {
        strip_hashes(s.drop_first())
    } else {
        s
    }
}

/// The text of a color string that is read as hex digits.
pub open spec fn color_text(s: Seq<char>) -> Seq<char> {
    strip_hashes(trim(s))
}

/// The value of an ASCII hex digit byte.
pub open spec fn hex_digit(b: u8) -> Option<u8> {
    if 48 <= b <= 57 {
        Some((b - 48) as u8)
    } else if 97 <= b <= 102 {
        Some((b - 87) as u8)
    } else if 65 <= b <= 70 {
        Some((b - 55) as u8)
    } else {
        None
    }
}

/// `u8::from_str_radix` in base 16 on a two-byte text: two hex digits, or
/// `+` and one hex digit.
pub open spec fn hex_pair(b0: u8, b1: u8) -> Option<u8> {
    if b0 == 43 {
        hex_digit(b1)
    } else {
        match (hex_digit(b0), hex_digit(b1)) {
            (Some(h), Some(l)) => Some((16 * h + l) as u8),
            _ => None,
        }
    }
}

/// A `RRGGBB` color from the six bytes of its text.
pub open spec fn rgb_from_bytes(bs: Seq<u8>) -> Option<Color> {
    if bs.len() == 6 {
        match (hex_pair(bs[0], bs[1]), hex_pair(bs[2], bs[3]), hex_pair(bs[4], bs[5])) {
            (Some(r), Some(g), Some(b)) => Some(Color::Rgb(r, g, b)),
            _ => None,
        }
    } else {
        None
    }
}

/// The color a theme value denotes: an integer is a palette index
/// (truncated to 8 bits), a string `#RRGGBB` (surrounding whitespace and
/// any leading `#` ignored) a 24-bit color.
pub open spec fn parse_color_spec(v: TomlValue) -> Option<Color> {
    match v {
        TomlValue::Integer(n) => Some(Color::Indexed(n as u8)),
        TomlValue::String(s) => rgb_from_bytes(encode_utf8(color_text(s@))),
        _ => None,
    }
}

/// A color string of six bytes is read in two-byte slices; those slices
/// must fall between characters. The second boundary is only reached when
/// the first slice held a number.
pub open spec fn color_value_ok(v: TomlValue) -> bool {
    match v {
        TomlValue::String(s) => {
            let bs = encode_utf8(color_text(s@));
            bs.len() == 6 ==> is_char_boundary(bs, 2) && (hex_pair(bs[0], bs[1]) is Some
                ==> is_char_boundary(bs, 4))
        },
        _ => true,
    }
}

fn hex_digit_exec(b: u8) -> (r: Option<u8>)
    ensures
        r == hex_digit(b),
{
    if 48 <= b && b <= 57 {
        Some(b - 48)
    } else if 97 <= b && b <= 102 {
        Some(b - 87)
    } else if 65 <= b && b <= 70 {
        Some(b - 55)
    } else {
        None
    }
}

fn hex_pair_exec(b0: u8, b1: u8) -> (r: Option<u8>)
    ensures
        r == hex_pair(b0, b1),
{
    if b0 == 43 {
        hex_digit_exec(b1)
    } else {
        match (hex_digit_exec(b0), hex_digit_exec(b1)) {
            (Some(h), Some(l)) => Some(16 * h + l),
            _ => None,
        }
    }
}

fn color_text_exec(s: &str) -> (r: String)
    ensures
        r@ == color_text(s@),
{
    let t = trim_chars(chars_of(s).as_slice());
    let mut i: usize = 0;
    assert(t@.skip(0) =~= t@);
    while i < t.len() && t[i] == '#'
        invariant
            i <= t@.len(),
            strip_hashes(t@) == strip_hashes(t@.skip(i as int)),
        decreases t@.len() - i,
    {
        assert(t@.skip(i as int).drop_first() =~= t@.skip(i + 1));
        i = i + 1;
    }
    let rest = crate::text::slice_range(t.as_slice(), i, t.len());
    assert(t@.skip(i as int) =~= t@.subrange(i as int, t@.len() as int));
    assert(strip_hashes(t@.skip(i as int)) == t@.skip(i as int));
    string_from_chars(rest.as_slice())
}

/// Reads a color from a theme value.
pub fn parse_color(val: &TomlValue) -> (r: Option<Color>)
    requires
        color_value_ok(*val),
    ensures
        r == parse_color_spec(*val),
{
    match val {
        TomlValue::Integer(n) => Some(Color::Indexed(*n as u8)),
        TomlValue::String(s) => {
            let text = color_text_exec(s.as_str());
            let bs = text.as_str().as_bytes();
            if bs.len() == 6 {
                let r = match hex_pair_exec(bs[0], bs[1]) {
                    Some(x) => x,
                    None => return None,
                };
                let g = match hex_pair_exec(bs[2], bs[3]) {
                    Some(x) => x,
                    None => return None,
                };
                let b = match hex_pair_exec(bs[4], bs[5]) {
                    Some(x) => x,
                    None => return None,
                };
                Some(Color::Rgb(r, g, b))
            } else {
                None
            }
        },
        _ => None,
    }
}

/// Whether reading a color value slices its text cleanly (see
/// `color_value_ok`); values that do not would stop the program.
pub fn color_value_readable(v: &TomlValue) -> (r: bool)
    ensures
        r == color_value_ok(*v),
{
    match v {
        TomlValue::String(s) => {
            let text = color_text_exec(s.as_str());
            let t = text.as_str();
            let bs = t.as_bytes();
            if bs.len() == 6 {
                if !t.is_char_boundary(2) {
                    return false;
                }
                match hex_pair_exec(bs[0], bs[1]) {
                    Some(_) => t.is_char_boundary(4),
                    None => true,
                }
            } else {
                true
            }
        },
        _ => true,
    }
}

/// The color under `key` of a `[colors]` table, if present and readable.
pub open spec fn color_entry(colors: TomlValue, key: Seq<char>) -> Option<Color> {
    match toml_get(colors, key) {
        Some(v) => parse_color_spec(v),
        None => None,
    }
}

/// Reading the entry under `key` does not stop at a badly sliced string.
pub open spec fn entry_ok(colors: TomlValue, key: Seq<char>) -> bool {
    match toml_get(colors, key) {
        Some(v) => color_value_ok(v),
        None => true,
    }
}

/// The theme a parsed theme file describes: all eight colors of its
/// `[colors]` table must be present and readable.
pub open spec fn parse_theme_spec(doc: TomlValue) -> Option<Theme> {
    match toml_get(doc, "colors"@) {
        Some(c) => match (
            color_entry(c, "border"@),
            color_entry(c, "accent"@),
            color_entry(c, "text"@),
            color_entry(c, "text_bright"@),
            color_entry(c, "text_dim"@),
            color_entry(c, "text_muted"@),
            color_entry(c, "time_text"@),
            color_entry(c, "error"@),
        ) {
            (Some(a), Some(b), Some(c2), Some(d), Some(e), Some(f), Some(g), Some(h)) => Some(
                Theme {
                    border: a,
                    accent: b,
                    text: c2,
                    text_bright: d,
                    text_dim: e,
                    text_muted: f,
                    time_text: g,
                    error: h,
                },
            ),
            _ => None,
        },
        None => None,
    }
}

/// The colors are read in order and reading stops at the first one that
/// is missing or unreadable; each string read must slice cleanly.
pub open spec fn theme_doc_ok(doc: TomlValue) -> bool {
    match toml_get(doc, "colors"@) {
        Some(c) => {
            &&& entry_ok(c, "border"@)
            &&& color_entry(c, "border"@) is Some ==> {
                &&& entry_ok(c, "accent"@)
                &&& color_entry(c, "accent"@) is Some ==> {
                    &&& entry_ok(c, "text"@)
                    &&& color_entry(c, "text"@) is Some ==> {
                        &&& entry_ok(c, "text_bright"@)
                        &&& color_entry(c, "text_bright"@) is Some ==> {
                            &&& entry_ok(c, "text_dim"@)
                            &&& color_entry(c, "text_dim"@) is Some ==> {
                                &&& entry_ok(c, "text_muted"@)
                                &&& color_entry(c, "text_muted"@) is Some ==> {
                                    &&& entry_ok(c, "time_text"@)
                                    &&& color_entry(c, "time_text"@) is Some ==> entry_ok(
                                        c,
                                        "error"@,
                                    )
                                }
                            }
                        }
                    }
                }
            }
        },
        None => true,
    }
}

fn color_at(colors: &TomlValue, key: &str) -> (r: Option<Color>)
    requires
        entry_ok(*colors, key@),
    ensures
        r == color_entry(*colors, key@),
{
    match colors.get(key) {
        Some(v) => parse_color(v),
        None => None,
    }
}

fn entry_readable(colors: &TomlValue, key: &str) -> (r: bool)
    ensures
        r == entry_ok(*colors, key@),
{
    match colors.get(key) {
        Some(v) => color_value_readable(v),
        None => true,
    }
}

/// Whether a theme file can be read without stopping the program (see
/// `theme_doc_ok`).
pub fn theme_doc_readable(doc: &TomlValue) -> (r: bool)
    ensures
        r == theme_doc_ok(*doc),
{
    let c = match doc.get("colors") {
        Some(c) => c,
        None => return true,
    };
    if !entry_readable(c, "border") {
        return false;
    }
    if color_at(c, "border").is_none() {
        return true;
    }
    if !entry_readable(c, "accent") {
        return false;
    }
    if color_at(c, "accent").is_none() {
        return true;
    }
    if !entry_readable(c, "text") {
        return false;
    }
    if color_at(c, "text").is_none() {
        return true;
    }
    if !entry_readable(c, "text_bright") {
        return false;
    }
    if color_at(c, "text_bright").is_none() {
        return true;
    }
    if !entry_readable(c, "text_dim") {
        return false;
    }
    if color_at(c, "text_dim").is_none() {
        return true;
    }
    if !entry_readable(c, "text_muted") {
        return false;
    }
    if color_at(c, "text_muted").is_none() {
        return true;
    }
    if !entry_readable(c, "time_text") {
        return false;
    }
    if color_at(c, "time_text").is_none() {
        return true;
    }
    entry_readable(c, "error")
}

/// Reads a theme from a parsed theme file.
pub fn parse_theme_doc(doc: &TomlValue) -> (r: Option<Theme>)
    requires
        theme_doc_ok(*doc),
    ensures
        r == parse_theme_spec(*doc),
{
    let colors = match doc.get("colors") {
        Some(c) => c,
        None => return None,
    };
    let border = match color_at(colors, "border") {
        Some(x) => x,
        None => return None,
    };
    let accent = match color_at(colors, "accent") {
        Some(x) => x,
        None => return None,
    };
    let text = match color_at(colors, "text") {
        Some(x) => x,
        None => return None,
    };
    let text_bright = match color_at(colors, "text_bright") {
        Some(x) => x,
        None => return None,
    };
    let text_dim = match color_at(colors, "text_dim") {
        Some(x) => x,
        None => return None,
    };
    let text_muted = match color_at(colors, "text_muted") {
        Some(x) => x,
        None => return None,
    };
    let time_text = match color_at(colors, "time_text") {
        Some(x) => x,
        None => return None,
    };
    let error = match color_at(colors, "error") {
        Some(x) => x,
        None => return None,
    };
    Some(Theme { border, accent, text, text_bright, text_dim, text_muted, time_text, error })
}

/// The theme a theme file's text describes: `None` when the text is not a
/// TOML document or does not describe a theme, and also when reading one of
/// its colors would slice a string inside a character (see `theme_doc_ok`).
pub open spec fn theme_from_text(text: Seq<char>) -> Option<Theme> {
    match toml_document(text) {
        Some(doc) => if theme_doc_ok(doc) {
            parse_theme_spec(doc)
        } else {
            None
        },
        None => None,
    }
}

/// Reads a theme from the text of a theme file.
pub fn parse_theme(contents: &str) -> (r: Option<Theme>)
    ensures
        r == theme_from_text(contents@),
{
    match parse_toml(contents) {
        Some(doc) => {
            if theme_doc_readable(&doc) {
                parse_theme_doc(&doc)
            } else {
                None
            }
        },
        None => None,
    }
}

// ---------------------------------------------------------------------------
// The built-in default, theme files and the list of loaded themes
// ---------------------------------------------------------------------------

/// The palette used when no embedded theme can be read.
pub open spec fn fallback_theme_spec() -> Theme {
    Theme {
        border: Color::Indexed(75),
        accent: Color::Indexed(213),
        text: Color::Indexed(252),
        text_bright: Color::Indexed(255),
        text_dim: Color::Indexed(245),
        text_muted: Color::Indexed(240),
        time_text: Color::Indexed(255),
        error: Color::Indexed(196),
    }
}

pub fn fallback_theme() -> (r: Theme)
    ensures
        r == fallback_theme_spec(),
{
    Theme {
        border: Color::Indexed(75),
        accent: Color::Indexed(213),
        text: Color::Indexed(252),
        text_bright: Color::Indexed(255),
        text_dim: Color::Indexed(245),
        text_muted: Color::Indexed(240),
        time_text: Color::Indexed(255),
        error: Color::Indexed(196),
    }
}

/// The default theme: the first embedded theme named `synthwave` that
/// reads, otherwise the fallback palette.
pub open spec fn default_theme_spec(embedded: Seq<(String, String)>) -> Theme
    decreases embedded.len(),
{
    if embedded.len() == 0 {
        fallback_theme_spec()
    } else if embedded[0].0@ == "synthwave"@ && theme_from_text(embedded[0].1@) is Some {
        theme_from_text(embedded[0].1@).unwrap()
    } else {
        default_theme_spec(embedded.drop_first())
    }
}

/// The default theme from the embedded theme files (name, text).
pub fn default_theme(embedded: &[(String, String)]) -> (r: Theme)
    ensures
        r == default_theme_spec(embedded@),
{
    assert(embedded@.skip(0) =~= embedded@);
    for i in 0..embedded.len()
        invariant
            default_theme_spec(embedded@) == default_theme_spec(embedded@.skip(i as int)),
    {
        let ghost rest = embedded@.skip(i as int);
        assert(rest[0] == embedded@[i as int]);
        assert(rest.drop_first() =~= embedded@.skip(i + 1));
        if str_eq(embedded[i].0.as_str(), "synthwave") {
            if let Some(t) = parse_theme(embedded[i].1.as_str()) {
                return t;
            }
        }
    }
    assert(embedded@.skip(embedded@.len() as int).len() == 0);
    fallback_theme()
}

/// Position of the last occurrence of `c`.
pub open spec fn last_index_of(s: Seq<char>, c: char) -> Option<int>
    decreases s.len(),
{
    if s.len() == 0 {
        None
    } else if s.last() == c {
        Some(s.len() - 1)
    } else {
        last_index_of(s.drop_last(), c)
    }
}

/// A file name split into stem and extension, as `Path::file_stem` and
/// `Path::extension` do: at the last dot, unless that dot starts the name
/// (a hidden file) or the name is `..`.
pub open spec fn split_extension(name: Seq<char>) -> (Seq<char>, Option<Seq<char>>) {
    if name == seq!['.', '.'] {
        (name, None)
    } else {
        match last_index_of(name, '.') {
            Some(i) => if i == 0 {
                (name, None)
            } else {
                (name.take(i), Some(name.skip(i + 1)))
            },
            None => (name, None),
        }
    }
}

/// Theme files are the files with the extension `toml`.
pub open spec fn is_theme_file_spec(name: Seq<char>) -> bool {
    split_extension(name).1 == Some(seq!['t', 'o', 'm', 'l'])
}

/// Every occurrence of one character replaced by another.
pub open spec fn replace_char(s: Seq<char>, from: char, to: char) -> Seq<char> {
    s.map_values(|c: char| if c == from { to } else { c })
}

/// The theme name of a theme file: its stem, dashes read as spaces.
pub open spec fn theme_name_spec(file_name: Seq<char>) -> Seq<char> {
    replace_char(split_extension(file_name).0, '-', ' ')
}

/// The file a named theme is written to: spaces as dashes, then `.toml`.
pub open spec fn theme_file_spec(name: Seq<char>) -> Seq<char> {
    replace_char(name, ' ', '-') + seq!['.', 't', 'o', 'm', 'l']
}

fn last_dot(v: &[char]) -> (r: Option<usize>)
    ensures
        match r {
            Some(i) => last_index_of(v@, '.') == Some(i as int) && i < v@.len(),
            None => last_index_of(v@, '.') is None,
        },
{
    let mut k = v.len();
    assert(v@.take(k as int) =~= v@);
    while k > 0
        invariant
            k <= v@.len(),
            last_index_of(v@, '.') == last_index_of(v@.take(k as int), '.'),
        decreases k,
    {
        let ghost t = v@.take(k as int);
        assert(t.drop_last() =~= v@.take(k - 1));
        assert(t.last() == v@[k - 1]);
        if v[k - 1] == '.' {
            return Some(k - 1);
        }
        k = k - 1;
    }
    None
}

fn split_extension_exec(name: &[char]) -> (r: (Vec<char>, Option<Vec<char>>))
    ensures
        r.0@ == split_extension(name@).0,
        match r.1 {
            Some(e) => split_extension(name@).1 == Some(e@),
            None => split_extension(name@).1 is None,
        },
{
    let whole = crate::text::slice_range(name, 0, name.len());
    assert(name@.subrange(0, name@.len() as int) =~= name@);
    if name.len() == 2 && name[0] == '.' && name[1] == '.' {
        assert(name@ =~= seq!['.', '.']);
        return (whole, None);
    }
    assert(name@ != seq!['.', '.']) by {
        if name@ == seq!['.', '.'] {
            assert(name@.len() == 2 && name@[0] == '.' && name@[1] == '.');
        }
    }
    match last_dot(name) {
        Some(i) => if i == 0 {
            (whole, None)
        } else {
            let stem = crate::text::slice_range(name, 0, i);
            let ext = crate::text::slice_range(name, i + 1, name.len());
            assert(stem@ =~= name@.take(i as int));
            assert(ext@ =~= name@.skip(i + 1));
            (stem, Some(ext))
        },
        None => (whole, None),
    }
}

/// Whether a file name is that of a theme file (extension `toml`).
pub fn is_theme_file(file_name: &str) -> (r: bool)
    ensures
        r == is_theme_file_spec(file_name@),
{
    let v = chars_of(file_name);
    let (_, ext) = split_extension_exec(v.as_slice());
    match ext {
        Some(e) => {
            let r = e.len() == 4 && e[0] == 't' && e[1] == 'o' && e[2] == 'm' && e[3] == 'l';
            proof {
                if e@ == seq!['t', 'o', 'm', 'l'] {
                    assert(e@.len() == 4 && e@[0] == 't' && e@[1] == 'o' && e@[2] == 'm' && e@[3]
                        == 'l');
                }
                if r {
                    assert(e@ =~= seq!['t', 'o', 'm', 'l']);
                }
            }
            r
        },
        None => false,
    }
}

fn replace_chars(v: &[char], from: char, to: char) -> (r: String)
    ensures
        r@ == replace_char(v@, from, to),
{
    let mut out = String::new();
    for i in 0..v.len()
        invariant
            out@ == replace_char(v@.take(i as int), from, to),
    {
        let c = if v[i] == from {
            to
        } else {
            v[i]
        };
        push_char(&mut out, c);
        assert(replace_char(v@.take(i + 1), from, to) =~= replace_char(v@.take(i as int), from, to).push(c));
    }
    assert(v@.take(v@.len() as int) =~= v@);
    out
}

/// The theme name of a theme file: its stem with dashes read as spaces.
pub fn theme_name_for_file(file_name: &str) -> (r: String)
    ensures
        r@ == theme_name_spec(file_name@),
{
    let v = chars_of(file_name);
    let (stem, _) = split_extension_exec(v.as_slice());
    replace_chars(stem.as_slice(), '-', ' ')
}

/// The file name a theme is written under.
pub fn theme_file_name(name: &str) -> (r: String)
    ensures
        r@ == theme_file_spec(name@),
{
    let v = chars_of(name);
    let mut out = replace_chars(v.as_slice(), ' ', '-');
    push_char(&mut out, '.');
    push_char(&mut out, 't');
    push_char(&mut out, 'o');
    push_char(&mut out, 'm');
    push_char(&mut out, 'l');
    assert(out@ =~= theme_file_spec(name@));
    out
}

/// Whether a directory listing already holds a theme file.
pub fn has_theme_files(file_names: &[String]) -> (r: bool)
    ensures
        r == exists|i: int| 0 <= i < file_names@.len() && is_theme_file_spec(#[trigger] file_names@[i]@),
{
    for i in 0..file_names.len()
        invariant
            forall|j: int| 0 <= j < i ==> !is_theme_file_spec(#[trigger] file_names@[j]@),
    {
        if is_theme_file(file_names[i].as_str()) {
            return true;
        }
    }
    false
}

/// Named themes by their text.
pub open spec fn named_view(v: Seq<(String, Theme)>) -> Seq<(Seq<char>, Theme)> {
    v.map_values(|p: (String, Theme)| (p.0@, p.1))
}

/// The text of an optional string.
pub open spec fn text_view(o: Option<String>) -> Option<Seq<char>> {
    match o {
        Some(t) => Some(t@),
        None => None,
    }
}

/// The themes read from theme files (file name, text when the file could
/// be read), in the given order: files that are not theme files, or whose
/// theme does not read, are skipped.
pub open spec fn loaded_themes(files: Seq<(String, Option<String>)>) -> Seq<(Seq<char>, Theme)>
    decreases files.len(),
{
    if files.len() == 0 {
        seq![]
    } else {
        let prev = loaded_themes(files.drop_last());
        let f = files.last();
        if is_theme_file_spec(f.0@) {
            match text_view(f.1) {
                Some(text) => match theme_from_text(text) {
                    Some(t) => prev.push((theme_name_spec(f.0@), t)),
                    None => prev,
                },
                None => prev,
            }
        } else {
            prev
        }
    }
}

/// The embedded themes that read, by name.
pub open spec fn embedded_themes(embedded: Seq<(String, String)>) -> Seq<(Seq<char>, Theme)>
    decreases embedded.len(),
{
    if embedded.len() == 0 {
        seq![]
    } else {
        let prev = embedded_themes(embedded.drop_last());
        match theme_from_text(embedded.last().1@) {
            Some(t) => prev.push((embedded.last().0@, t)),
            None => prev,
        }
    }
}

/// The theme list: the themes of the theme files, or, when none reads,
/// the embedded ones.
pub open spec fn collect_themes_spec(
    files: Seq<(String, Option<String>)>,
    embedded: Seq<(String, String)>,
) -> Seq<(Seq<char>, Theme)> {
    let loaded = loaded_themes(files);
    if loaded.len() > 0 {
        loaded
    } else {
        embedded_themes(embedded)
    }
}

fn push_named(v: &mut Vec<(String, Theme)>, name: String, t: Theme)
    ensures
        named_view(final(v)@) == named_view(old(v)@).push((name@, t)),
{
    let ghost n = name@;
    v.push((name, t));
    assert(named_view(v@) =~= named_view(old(v)@).push((n, t)));
}

/// Builds the theme list from the theme files found (file name and text,
/// sorted by file name) and, as a fallback, the embedded themes.
pub fn collect_themes(files: &[(String, Option<String>)], embedded: &[(String, String)]) -> (r: Vec<
    (String, Theme),
>)
    ensures
        named_view(r@) == collect_themes_spec(files@, embedded@),
{
    let mut themes: Vec<(String, Theme)> = Vec::new();
    for i in 0..files.len()
        invariant
            named_view(themes@) == loaded_themes(files@.take(i as int)),
    {
        assert(files@.take(i + 1).drop_last() =~= files@.take(i as int));
        assert(files@.take(i + 1).last() == files@[i as int]);
        if is_theme_file(files[i].0.as_str()) {
            if let Some(text) = &files[i].1 {
                if let Some(t) = parse_theme(text.as_str()) {
                    let name = theme_name_for_file(files[i].0.as_str());
                    push_named(&mut themes, name, t);
                }
            }
        }
    }
    assert(files@.take(files@.len() as int) =~= files@);
    if themes.len() == 0 {
        for i in 0..embedded.len()
            invariant
                loaded_themes(files@).len() == 0,
                named_view(themes@) == embedded_themes(embedded@.take(i as int)),
        {
            assert(embedded@.take(i + 1).drop_last() =~= embedded@.take(i as int));
            assert(embedded@.take(i + 1).last() == embedded@[i as int]);
            if let Some(t) = parse_theme(embedded[i].1.as_str()) {
                push_named(&mut themes, embedded[i].0.clone(), t);
            }
        }
        assert(embedded@.take(embedded@.len() as int) =~= embedded@);
    }
    themes
}

/// A theme written to its file is found again under its own name: the file
/// is a theme file and its name reads back, for any non-empty name without
/// dashes (dashes read back as spaces).
pub proof fn lemma_theme_file_roundtrip(name: Seq<char>)
    requires
        name.len() > 0,
        forall|i: int| 0 <= i < name.len() ==> name[i] != '-',
    ensures
        is_theme_file_spec(theme_file_spec(name)),
        theme_name_spec(theme_file_spec(name)) == name,
{
    let r = replace_char(name, ' ', '-');
    let f = theme_file_spec(name);
    let n: int = r.len() as int;
    assert(f.len() == n + 5);
    assert(f[n] == '.');
    assert(f.drop_last().drop_last().drop_last().drop_last() =~= f.take(n + 1));
    let f1 = f.drop_last();
    let f2 = f1.drop_last();
    let f3 = f2.drop_last();
    let f4 = f3.drop_last();
    assert(f.last() == 'l');
    assert(f1.last() == 'm');
    assert(f2.last() == 'o');
    assert(f3.last() == 't');
    assert(f4.last() == '.');
    assert(last_index_of(f, '.') == last_index_of(f1, '.'));
    assert(last_index_of(f1, '.') == last_index_of(f2, '.'));
    assert(last_index_of(f2, '.') == last_index_of(f3, '.'));
    assert(last_index_of(f3, '.') == last_index_of(f4, '.'));
    assert(last_index_of(f4, '.') == Some(n));
    assert(f != seq!['.', '.']) by {
        assert(f.len() >= 6);
    }
    assert(f.take(n) =~= r);
    assert(f.skip(n + 1) =~= seq!['t', 'o', 'm', 'l']);
    assert(replace_char(r, '-', ' ') =~= name);
}

} // verus!
