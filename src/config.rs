use vstd::prelude::*;
use crate::error::InstallError;
use crate::text::{chars_of, push_char, split_chars, split_on, split_once, split_once_chars, string_of, to_uppercase, trim, trim_of, upper_of, views};

verus! {

/// The settings of the installer.
#[derive(Clone, Debug)]
pub struct Config {
    /// Where the modpack archive is downloaded from.
    pub modpack_url: String,
    /// Where the mod loader archive is downloaded from.
    pub modloader_url: String,
    /// The name of the mod loader's installer inside its archive.
    pub modloader_execname: String,
    /// The game directory that the modpack is installed into.
    pub minecraft_folder: String,
    /// The staging directory that downloads are kept in.
    pub magic_installer_folder: String,
    /// Whether diagnostic messages are written.
    pub debug: bool,
}

/// The key and value that one `key=value` line gives, both trimmed.
pub open spec fn line_entry(line: Seq<char>) -> Option<(Seq<char>, Seq<char>)> {
    match split_once(line, '=') {
        Some((k, v)) => Some((trim_of(k), trim_of(v))),
        None => None,
    }
}

/// The entries of the lines, in order; lines without `=` give none.
pub open spec fn entries_of(lines: Seq<Seq<char>>) -> Seq<(Seq<char>, Seq<char>)>
    decreases lines.len(),
{
    if lines.len() == 0 {
        seq![]
    } else {
        let prev = entries_of(lines.drop_last());
        match line_entry(lines.last()) {
            Some(e) => prev.push(e),
            None => prev,
        }
    }
}

/// The entries of a configuration text: one line per entry.
pub open spec fn config_entries(text: Seq<char>) -> Seq<(Seq<char>, Seq<char>)> {
    entries_of(split_on(text, '\n'))
}

/// The value of the last entry with this key.
pub open spec fn lookup(entries: Seq<(Seq<char>, Seq<char>)>, key: Seq<char>) -> Option<Seq<char>>
    decreases entries.len(),
{
    if entries.len() == 0 {
        None
    } else if entries.last().0 == key {
        Some(entries.last().1)
    } else {
        lookup(entries.drop_last(), key)
    }
}

pub open spec fn entry_views(v: Seq<(String, String)>) -> Seq<(Seq<char>, Seq<char>)> {
    v.map_values(|e: (String, String)| (e.0@, e.1@))
}

/// Reads the `key=value` lines of a configuration text. Keys and values are
/// trimmed; lines without `=` are skipped.
pub fn parse_entries(text: &str) -> (r: Vec<(String, String)>)
    ensures
        entry_views(r@) == config_entries(text@),
{
    let cs = chars_of(text);
    let lines = split_chars(&cs, '\n');
    let mut r: Vec<(String, String)> = Vec::new();
    let mut i: usize = 0;
    while i < lines.len()
        invariant
            0 <= i <= lines@.len(),
            views(lines@) == split_on(text@, '\n'),
            entry_views(r@) == entries_of(views(lines@).take(i as int)),
        decreases lines@.len() - i,
    {
        assert(views(lines@).take(i + 1).drop_last() =~= views(lines@).take(i as int));
        assert(views(lines@).take(i + 1).last() == lines@[i as int]@);
        match split_once_chars(&lines[i], '=') {
            Some((k, v)) => {
                let k = trim(k.as_str());
                let v = trim(v.as_str());
                r.push((k, v));
                assert(entry_views(r@) =~= entries_of(views(lines@).take(i as int)).push((k@, v@)));
            },
            None => {},
        }
        i = i + 1;
    }
    assert(views(lines@).take(lines@.len() as int) =~= views(lines@));
    r
}

/// Finds the value of the last entry with this key.
pub fn find_value(entries: &Vec<(String, String)>, key: &str) -> (r: Option<String>)
    ensures
        match lookup(entry_views(entries@), key@) {
            Some(v) => r matches Some(x) && x@ == v,
            None => r is None,
        },
{
    let wanted = String::from_str(key);
    let mut i: usize = entries.len();
    assert(entry_views(entries@).take(i as int) =~= entry_views(entries@));
    while i > 0
        invariant
            i <= entries@.len(),
            wanted@ == key@,
            lookup(entry_views(entries@), key@) == lookup(entry_views(entries@).take(i as int), key@),
        decreases i,
    {
        let ghost t = entry_views(entries@).take(i as int);
        assert(t.drop_last() =~= entry_views(entries@).take(i - 1));
        assert(t.last() == (entries@[i - 1].0@, entries@[i - 1].1@));
        if entries[i - 1].0 == wanted {
            let v = entries[i - 1].1.clone();
            return Some(v);
        }
        i = i - 1;
    }
    None
}

/// The path separator that a directory written with a trailing separator
/// uses: a backslash where it ends with one, else a slash.
pub open spec fn separator_of(folder: Seq<char>) -> char {
    if folder.len() > 0 && folder.last() == '\\' {
        '\\'
    } else {
        '/'
    }
}

/// The staging directory inside the game directory.
pub open spec fn staging_folder(folder: Seq<char>) -> Seq<char> {
    folder + "magic_installer"@ + seq![separator_of(folder)]
}

/// The settings that a configuration text gives, in the game directory
/// `minecraft_folder` (written with a trailing separator).
pub open spec fn config_of(
    entries: Seq<(Seq<char>, Seq<char>)>,
    minecraft_folder: Seq<char>,
    debug: bool,
    c: Config,
) -> bool {
    &&& lookup(entries, "modpack_url"@) == Some(c.modpack_url@)
    &&& lookup(entries, "modloader_url"@) == Some(c.modloader_url@)
    &&& lookup(entries, "modloader_execname"@) == Some(c.modloader_execname@)
    &&& c.minecraft_folder@ == minecraft_folder
    &&& c.magic_installer_folder@ == staging_folder(minecraft_folder)
    &&& c.debug == debug
}

fn required(entries: &Vec<(String, String)>, key: &str) -> (r: Result<String, InstallError>)
    ensures
        match lookup(entry_views(entries@), key@) {
            Some(v) => r matches Ok(x) && x@ == v,
            None => r matches Err(InstallError::Config(k)) && k@ == key@,
        },
{
    match find_value(entries, key) {
        Some(v) => Ok(v),
        None => Err(InstallError::Config(String::from_str(key))),
    }
}

impl Config {
    /// Reads the settings from a configuration text of `key=value` lines.
    /// The keys `modpack_url`, `modloader_url` and `modloader_execname` are
    /// required: the first one missing, in that order, is reported. The
    /// staging directory is `magic_installer` inside `minecraft_folder`.
    pub fn from(config: &str, minecraft_folder: &str, debug: bool) -> (r: Result<Config, InstallError>)
        ensures
            ({
                let e = config_entries(config@);
                if lookup(e, "modpack_url"@) is None {
                    r matches Err(InstallError::Config(k)) && k@ == "modpack_url"@
                } else if lookup(e, "modloader_url"@) is None {
                    r matches Err(InstallError::Config(k)) && k@ == "modloader_url"@
                } else if lookup(e, "modloader_execname"@) is None {
                    r matches Err(InstallError::Config(k)) && k@ == "modloader_execname"@
                } else {
                    r matches Ok(c) && config_of(e, minecraft_folder@, debug, c)
                }
            }),
    {
        let entries = parse_entries(config);
        let modpack_url = match required(&entries, "modpack_url") {
            Ok(v) => v,
            Err(e) => return Err(e),
        };
        let modloader_url = match required(&entries, "modloader_url") {
            Ok(v) => v,
            Err(e) => return Err(e),
        };
        let modloader_execname = match required(&entries, "modloader_execname") {
            Ok(v) => v,
            Err(e) => return Err(e),
        };
        let folder = String::from_str(minecraft_folder);
        let mut staging = String::from_str(minecraft_folder);
        staging.append("magic_installer");
        let fc = chars_of(minecraft_folder);
        let sep = if fc.len() > 0 && fc[fc.len() - 1] == '\\' {
            '\\'
        } else {
            '/'
        };
        push_char(&mut staging, sep);
        assert(staging@ =~= staging_folder(minecraft_folder@));
        Ok(Config {
            modpack_url,
            modloader_url,
            modloader_execname,
            minecraft_folder: folder,
            magic_installer_folder: staging,
            debug,
        })
    }
}

/// A directory path that may begin with an environment placeholder, as in
/// `%appdata%\.minecraft\`.
#[derive(Clone, Debug)]
pub enum PathTemplate {
    /// A path used as written.
    Plain(String),
    /// The value of `variable` followed by `rest`.
    Placeholder { variable: String, rest: String },
}

/// Splits a path into its placeholder and the rest. A path that begins with
/// `%` names, up to the next `%`, a variable (taken in upper case); the text
/// after that `%`, up to any further `%`, follows the variable's value. A
/// path that begins with `%` and has no second one cannot be resolved.
pub fn parse_path_template(path: &str) -> (r: Result<PathTemplate, InstallError>)
    ensures
        ({
            let pieces = split_on(path@, '%');
            if path@.len() == 0 || path@[0] != '%' {
                r matches Ok(PathTemplate::Plain(p)) && p@ == path@
            } else if pieces.len() < 3 {
                r matches Err(InstallError::EnvironmentResolution(_))
            } else {
                r matches Ok(PathTemplate::Placeholder { variable, rest })
                    && variable@ == upper_of(pieces[1]) && rest@ == pieces[2]
            }
        }),
{
    let cs = chars_of(path);
    if cs.len() == 0 || cs[0] != '%' {
        return Ok(PathTemplate::Plain(String::from_str(path)));
    }
    let pieces = split_chars(&cs, '%');
    if pieces.len() < 3 {
        return Err(InstallError::EnvironmentResolution(String::from_str(path)));
    }
    assert(pieces@[1]@ == views(pieces@)[1]);
    assert(pieces@[2]@ == views(pieces@)[2]);
    let name = string_of(&pieces[1], 0, pieces[1].len());
    assert(pieces@[1]@.subrange(0, pieces@[1]@.len() as int) =~= pieces@[1]@);
    let variable = to_uppercase(name.as_str());
    let rest = string_of(&pieces[2], 0, pieces[2].len());
    assert(pieces@[2]@.subrange(0, pieces@[2]@.len() as int) =~= pieces@[2]@);
    Ok(PathTemplate::Placeholder { variable, rest })
}

/// The path that a template gives, `value` being the value of its variable
/// (unused for a plain path).
pub fn expand_path(template: &PathTemplate, value: &str) -> (r: String)
    ensures
        match template {
            PathTemplate::Plain(p) => r@ == p@,
            PathTemplate::Placeholder { variable: _, rest } => r@ == value@ + rest@,
        },
{
    match template {
        PathTemplate::Plain(p) => p.clone(),
        PathTemplate::Placeholder { variable: _, rest } => {
            let mut r = String::from_str(value);
            r.append(rest.as_str());
            r
        },
    }
}

} // verus!
