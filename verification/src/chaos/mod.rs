//! The theme resource: where the editor's settings live, and what a theme
//! change writes into them.
use crate::text::{matches_at, occurs_at, to_chars, trim, trimmed};
use vstd::prelude::*;
use vstd::string::*;

verus! {

/// The setting that lists the style sheets to load.
pub const IMPORTS_KEY: &'static str = "vscode_custom_css.imports";

pub const HOME_PREFIX: &'static str = "/Users/";

pub const SETTINGS_SUFFIX: &'static str = "/Library/Application Support/Code/User/settings.json";

pub const IMPORT_PREFIX: &'static str = "file:///Users/";

pub const THEMES_FOLDER: &'static str = "/Desktop/chat-tvari/";

pub const STYLE_SHEET_SUFFIX: &'static str = ".css";

/// What a theme change writes: under `key`, in the settings file at `path`,
/// the list `imports`.
#[derive(Debug)]
pub struct CssOverwrite {
    pub path: String,
    pub key: String,
    pub imports: Vec<String>,
}

/// Path of the settings file of `username`.
pub open spec fn settings_path_of(username: Seq<char>) -> Seq<char> {
    HOME_PREFIX@ + username + SETTINGS_SUFFIX@
}

/// Address of the style sheet of the theme `mode`, without the white space
/// around the theme's name.
pub open spec fn import_of(username: Seq<char>, mode: Seq<char>) -> Seq<char> {
    IMPORT_PREFIX@ + username + THEMES_FOLDER@ + trimmed(mode) + STYLE_SHEET_SUFFIX@
}

pub fn settings_path(username: &str) -> (r: String)
    ensures
        r@ == settings_path_of(username@),
{
    String::from_str(HOME_PREFIX).concat(username).concat(SETTINGS_SUFFIX)
}

pub fn style_sheet_import(username: &str, mode: &str) -> (r: String)
    ensures
        r@ == import_of(username@, mode@),
{
    let name = trim(mode);
    String::from_str(IMPORT_PREFIX).concat(username).concat(THEMES_FOLDER).concat(
        name.as_str(),
    ).concat(STYLE_SHEET_SUFFIX)
}

/// What making `mode` the theme of `username` writes: the one style sheet of
/// that theme as the list of imports.
pub fn overwrite_custom_css(username: &str, mode: &str) -> (r: CssOverwrite)
    ensures
        r.path@ == settings_path_of(username@),
        r.key@ == IMPORTS_KEY@,
        r.imports@.len() == 1,
        r.imports@[0]@ == import_of(username@, mode@),
{
    let mut imports: Vec<String> = Vec::new();
    imports.push(style_sheet_import(username, mode));
    CssOverwrite { path: settings_path(username), key: String::from_str(IMPORTS_KEY), imports }
}

/// `s` from `from` on, without the occurrences of `pat`, found from left to
/// right and not overlapping.
pub open spec fn without(s: Seq<char>, pat: Seq<char>, from: int) -> Seq<char>
    decreases s.len() - from,
{
    if from < 0 || from >= s.len() {
        Seq::empty()
    } else if pat.len() > 0 && occurs_at(s, pat, from) {
        without(s, pat, from + pat.len())
    } else {
        seq![s[from]] + without(s, pat, from + 1)
    }
}

/// The name of the theme whose style sheet is the file `file_name`: the
/// file's name without any `.css` in it.
pub fn theme_name(file_name: &str) -> (r: String)
    ensures
        r@ == without(file_name@, STYLE_SHEET_SUFFIX@, 0),
{
    let chars = to_chars(file_name);
    let suffix = to_chars(STYLE_SHEET_SUFFIX);
    let n: usize = chars.len();
    let m: usize = suffix.len();
    let mut name = String::new();
    let mut at: usize = 0;
    while at < n
        invariant
            0 <= at <= n,
            n == chars@.len(),
            m == suffix@.len(),
            chars@ == file_name@,
            name@ + without(chars@, suffix@, at as int) == without(chars@, suffix@, 0),
        decreases n - at,
    {
        if m > 0 && m <= n - at && matches_at(&chars, &suffix, at) {
            at = at + m;
        } else {
            name.append(file_name.substring_char(at, at + 1));
            at = at + 1;
        }
    }
    name
}

} // verus!
