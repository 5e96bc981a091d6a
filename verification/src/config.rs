//! Persistent settings: their defaults, where they live, and how `set`
//! changes them.

use vstd::prelude::*;
use crate::paths::{join_path, joined, opt_text};
use crate::text::{owned, decimal, decimal_string, texts};

verus! {

/// Settings of the `extract` command.
#[derive(Debug, Clone, PartialEq, Eq)]
pub struct ExtractCfg {
    /// folder holding the source videos
    pub input_dir: String,
    /// root folder for extracted JPG frames
    pub output_dir: String,
    /// frames extracted per second
    pub fps: u8,
}

/// Settings of the `convert` command.
#[derive(Debug, Clone, PartialEq, Eq)]
pub struct ConvertCfg {
    /// folder holding the source FBX files
    pub input_dir: String,
    /// folder for the converted OBJ files
    pub output_dir: String,
}

/// All persistent settings.
#[derive(Debug, Clone, PartialEq, Eq)]
pub struct Config {
    /// where bundled binaries are extracted to
    pub cache_dir: Option<String>,
    pub extract: ExtractCfg,
    pub convert: ConvertCfg,
}

/// The settings that one `set` changes; `None` leaves a setting as it is.
#[derive(Debug, Clone, Default, PartialEq, Eq)]
pub struct ConfigOverrides {
    pub cache_dir: Option<String>,
    pub extract_input_dir: Option<String>,
    pub extract_output_dir: Option<String>,
    pub fps: Option<u8>,
    pub convert_input_dir: Option<String>,
    pub convert_output_dir: Option<String>,
}

/// The per-user directories of the project that the operating system
/// conventions give.
#[derive(Debug, Clone, PartialEq, Eq)]
pub struct ProjectPaths {
    pub config_dir: String,
    pub cache_dir: String,
}

/// Why `set` refused.
#[derive(Debug, Clone, Copy, PartialEq, Eq)]
pub enum SetError {
    /// no setting was passed
    NothingToSet,
}

impl SetError {
    /// The message shown for this error.
    pub fn message(&self) -> (r: String)
        ensures
            r@ == "nothing to set — pass at least one setting (see `xclod set --help`)"@,
    {
        owned("nothing to set — pass at least one setting (see `xclod set --help`)")
    }
}

/// The home directory the defaults hang from: the one found, else the
/// current directory.
pub fn home_or_here(found: Option<String>) -> (r: String)
    ensures
        r@ == match found {
            Some(h) => h@,
            None => "."@,
        },
{
    match found {
        Some(h) => h,
        None => owned("."),
    }
}

impl ExtractCfg {
    /// Default `extract` settings for a user whose home directory is `home`.
    pub fn defaults(home: &str) -> (c: ExtractCfg)
        ensures
            c.input_dir@ == joined(home@, "xclod/vid"@),
            c.output_dir@ == joined(home@, "xclod/jpg"@),
            c.fps == 3,
    {
        ExtractCfg {
            input_dir: join_path(home, "xclod/vid"),
            output_dir: join_path(home, "xclod/jpg"),
            fps: 3,
        }
    }
}

impl ConvertCfg {
    /// Default `convert` settings for a user whose home directory is `home`.
    pub fn defaults(home: &str) -> (c: ConvertCfg)
        ensures
            c.input_dir@ == joined(home@, "xclod/fbx"@),
            c.output_dir@ == joined(home@, "xclod/obj"@),
    {
        ConvertCfg { input_dir: join_path(home, "xclod/fbx"), output_dir: join_path(home, "xclod/obj") }
    }
}

impl Config {
    /// Default settings for a user whose home directory is `home`: no cache
    /// directory of its own, and the folders under `home`/xclod.
    pub fn defaults(home: &str) -> (c: Config)
        ensures
            c.cache_dir is None,
            c.extract.input_dir@ == joined(home@, "xclod/vid"@),
            c.extract.output_dir@ == joined(home@, "xclod/jpg"@),
            c.extract.fps == 3,
            c.convert.input_dir@ == joined(home@, "xclod/fbx"@),
            c.convert.output_dir@ == joined(home@, "xclod/obj"@),
    {
        Config { cache_dir: None, extract: ExtractCfg::defaults(home), convert: ConvertCfg::defaults(home) }
    }
}

/// The project directories of an application.
///
/// Trusted: calls `directories::ProjectDirs::from` and keeps its config and
/// cache directories. They depend on the environment and the operating
/// system, so nothing is stated of them.
#[verifier::external_body]
fn project_dirs(qualifier: &str, organization: &str, application: &str) -> (r: Option<ProjectPaths>)
{
    match directories::ProjectDirs::from(qualifier, organization, application) {
        Some(p) => Some(ProjectPaths {
            config_dir: p.config_dir().to_string_lossy().into_owned(),
            cache_dir: p.cache_dir().to_string_lossy().into_owned(),
        }),
        None => None,
    }
}

/// The config directory of optional project directories.
pub open spec fn project_config_dir(dirs: Option<ProjectPaths>) -> Option<Seq<char>> {
    match dirs {
        Some(p) => Some(p.config_dir@),
        None => None,
    }
}

/// The cache directory of optional project directories.
pub open spec fn project_cache_dir(dirs: Option<ProjectPaths>) -> Option<Seq<char>> {
    match dirs {
        Some(p) => Some(p.cache_dir@),
        None => None,
    }
}

/// Where the config file lives: `config.toml` in the project's config
/// directory, or `home`/.config/xclod/config.toml when there is none.
pub open spec fn config_file_path(config_dir: Option<Seq<char>>, home: Seq<char>) -> Seq<char> {
    match config_dir {
        Some(d) => joined(d, "config.toml"@),
        None => joined(joined(joined(home, ".config"@), "xclod"@), "config.toml"@),
    }
}

/// Where bundled binaries go: the configured cache directory; else `bin` in
/// the project's cache directory; else `home`/.cache/xclod/bin.
pub open spec fn cache_dir_path(
    configured: Option<Seq<char>>,
    project_cache: Option<Seq<char>>,
    home: Seq<char>,
) -> Seq<char> {
    match configured {
        Some(c) => c,
        None => match project_cache {
            Some(p) => joined(p, "bin"@),
            None => joined(joined(joined(home, ".cache"@), "xclod"@), "bin"@),
        },
    }
}

/// Path of the config file, given the project directories that were found.
pub fn config_path_from(dirs: &Option<ProjectPaths>, home: &str) -> (r: String)
    ensures
        r@ == config_file_path(project_config_dir(*dirs), home@),
{
    match dirs {
        Some(p) => join_path(p.config_dir.as_str(), "config.toml"),
        None => {
            let a = join_path(home, ".config");
            let b = join_path(a.as_str(), "xclod");
            join_path(b.as_str(), "config.toml")
        },
    }
}

/// Path of the config file for a user whose home directory is `home`.
pub fn config_path(home: &str) -> (r: String)
    ensures
        exists|d: Option<Seq<char>>| r@ == #[trigger] config_file_path(d, home@),
{
    let dirs = project_dirs("", "", "xclod");
    let r = config_path_from(&dirs, home);
    assert(r@ == config_file_path(project_config_dir(dirs), home@));
    r
}

/// Where bundled binaries go, given the project directories that were found.
pub fn resolve_cache_dir_from(config: &Config, dirs: &Option<ProjectPaths>, home: &str) -> (r: String)
    ensures
        r@ == cache_dir_path(opt_text(config.cache_dir), project_cache_dir(*dirs), home@),
{
    match &config.cache_dir {
        Some(c) => c.clone(),
        None => match dirs {
            Some(p) => join_path(p.cache_dir.as_str(), "bin"),
            None => {
                let a = join_path(home, ".cache");
                let b = join_path(a.as_str(), "xclod");
                join_path(b.as_str(), "bin")
            },
        },
    }
}

/// Where bundled binaries go for a user whose home directory is `home`: a
/// configured cache directory always wins.
pub fn resolve_cache_dir(config: &Config, home: &str) -> (r: String)
    ensures
        config.cache_dir matches Some(c) ==> r@ == c@,
        exists|p: Option<Seq<char>>|
            r@ == #[trigger] cache_dir_path(opt_text(config.cache_dir), p, home@),
{
    match &config.cache_dir {
        Some(c) => {
            let r = c.clone();
            assert(r@ == cache_dir_path(opt_text(config.cache_dir), None, home@));
            r
        },
        None => {
            let dirs = project_dirs("", "", "xclod");
            let r = resolve_cache_dir_from(config, &dirs, home);
            assert(r@ == cache_dir_path(opt_text(config.cache_dir), project_cache_dir(dirs), home@));
            r
        },
    }
}

/// The text that heads the config file.
pub const CONFIG_HEADER: &'static str = "# xclod configuration file\n#\n# Managed by `xclod set` (e.g. `xclod set --fps 5`); you can also edit by hand.\n# Per-run --input-dir / --output-dir / --fps flags override these values.\n#\n# [extract] input_dir  = folder holding the source videos\n#           output_dir = root folder for extracted JPG frames\n#           fps        = frames extracted per second\n# [convert] input_dir  = folder holding the source FBX files\n#           output_dir = folder for the converted OBJ files\n# cache_dir (optional, top-level) = where bundled binaries are extracted\n \n";

/// The content of the config file: the header, then the serialized settings.
pub fn config_file_text(body: &str) -> (r: String)
    ensures
        r@ == CONFIG_HEADER@ + body@,
{
    let mut r = owned(CONFIG_HEADER);
    r.append(body);
    r
}


/// No setting is passed.
pub open spec fn no_overrides(o: ConfigOverrides) -> bool {
    &&& o.cache_dir is None
    &&& o.extract_input_dir is None
    &&& o.extract_output_dir is None
    &&& o.fps is None
    &&& o.convert_input_dir is None
    &&& o.convert_output_dir is None
}

/// A passed value, else the current one.
pub open spec fn or_keep<T>(passed: Option<T>, current: T) -> T {
    match passed {
        Some(v) => v,
        None => current,
    }
}

/// The settings after the passed ones replace the current ones; every
/// setting not passed is left as it is.
pub open spec fn overridden(c: Config, o: ConfigOverrides) -> Config {
    Config {
        cache_dir: match o.cache_dir {
            Some(v) => Some(v),
            None => c.cache_dir,
        },
        extract: ExtractCfg {
            input_dir: or_keep(o.extract_input_dir, c.extract.input_dir),
            output_dir: or_keep(o.extract_output_dir, c.extract.output_dir),
            fps: or_keep(o.fps, c.extract.fps),
        },
        convert: ConvertCfg {
            input_dir: or_keep(o.convert_input_dir, c.convert.input_dir),
            output_dir: or_keep(o.convert_output_dir, c.convert.output_dir),
        },
    }
}

/// One report line `label` + value for a passed path setting.
pub open spec fn path_line(label: Seq<char>, v: Option<String>) -> Seq<Seq<char>> {
    match v {
        Some(x) => seq![label + x@],
        None => Seq::empty(),
    }
}

/// The report of a `set`: one line per passed setting, in a fixed order.
pub open spec fn change_lines(o: ConfigOverrides) -> Seq<Seq<char>> {
    path_line("cache_dir = "@, o.cache_dir) + path_line("extract.input_dir = "@, o.extract_input_dir)
        + path_line("extract.output_dir = "@, o.extract_output_dir) + match o.fps {
        Some(f) => seq!["extract.fps = "@ + decimal(f as nat)],
        None => Seq::<Seq<char>>::empty(),
    } + path_line("convert.input_dir = "@, o.convert_input_dir) + path_line(
        "convert.output_dir = "@,
        o.convert_output_dir,
    )
}

fn labeled(label: &str, value: &str) -> (r: String)
    ensures
        r@ == label@ + value@,
{
    let mut r = owned(label);
    r.append(value);
    r
}

fn note_path(lines: &mut Vec<String>, label: &str, v: &Option<String>)
    ensures
        texts(final(lines)@) == texts(old(lines)@) + path_line(label@, *v),
{
    match v {
        Some(x) => {
            let ghost before = lines@;
            lines.push(labeled(label, x.as_str()));
            assert(texts(lines@) =~= texts(before) + path_line(label@, *v));
        },
        None => {
            assert(texts(lines@) =~= texts(lines@) + path_line(label@, *v));
        },
    }
}

/// Applies the passed settings and reports them. Fails, changing nothing,
/// when no setting is passed.
pub fn set(config: Config, overrides: ConfigOverrides) -> (r: Result<(Config, Vec<String>), SetError>)
    ensures
        r is Err <==> no_overrides(overrides),
        r matches Err(e) ==> e == SetError::NothingToSet,
        r matches Ok((c, lines)) ==> c == overridden(config, overrides) && texts(lines@)
            == change_lines(overrides),
{
    let mut lines: Vec<String> = Vec::new();
    assert(texts(lines@) =~= Seq::<Seq<char>>::empty());
    note_path(&mut lines, "cache_dir = ", &overrides.cache_dir);
    note_path(&mut lines, "extract.input_dir = ", &overrides.extract_input_dir);
    note_path(&mut lines, "extract.output_dir = ", &overrides.extract_output_dir);
    match overrides.fps {
        Some(f) => {
            let ghost before = lines@;
            let n = decimal_string(f as u64);
            lines.push(labeled("extract.fps = ", n.as_str()));
            assert(texts(lines@) =~= texts(before) + seq!["extract.fps = "@ + decimal(f as nat)]);
        },
        None => {},
    }
    note_path(&mut lines, "convert.input_dir = ", &overrides.convert_input_dir);
    note_path(&mut lines, "convert.output_dir = ", &overrides.convert_output_dir);
    assert(texts(lines@) =~= change_lines(overrides));
    if lines.len() == 0 {
        assert(no_overrides(overrides)) by {
            if !no_overrides(overrides) {
                assert(change_lines(overrides).len() > 0);
            }
        }
        return Err(SetError::NothingToSet);
    }
    let ConfigOverrides {
        cache_dir,
        extract_input_dir,
        extract_output_dir,
        fps,
        convert_input_dir,
        convert_output_dir,
    } = overrides;
    let mut c = config;
    if let Some(v) = cache_dir {
        c.cache_dir = Some(v);
    }
    if let Some(v) = extract_input_dir {
        c.extract.input_dir = v;
    }
    if let Some(v) = extract_output_dir {
        c.extract.output_dir = v;
    }
    if let Some(v) = fps {
        c.extract.fps = v;
    }
    if let Some(v) = convert_input_dir {
        c.convert.input_dir = v;
    }
    if let Some(v) = convert_output_dir {
        c.convert.output_dir = v;
    }
    Ok((c, lines))
}

/// Two `set`s in a row: a setting passed to the second wins, else one passed
/// to the first.
pub open spec fn merged(first: ConfigOverrides, second: ConfigOverrides) -> ConfigOverrides {
    ConfigOverrides {
        cache_dir: match second.cache_dir {
            Some(v) => Some(v),
            None => first.cache_dir,
        },
        extract_input_dir: match second.extract_input_dir {
            Some(v) => Some(v),
            None => first.extract_input_dir,
        },
        extract_output_dir: match second.extract_output_dir {
            Some(v) => Some(v),
            None => first.extract_output_dir,
        },
        fps: match second.fps {
            Some(v) => Some(v),
            None => first.fps,
        },
        convert_input_dir: match second.convert_input_dir {
            Some(v) => Some(v),
            None => first.convert_input_dir,
        },
        convert_output_dir: match second.convert_output_dir {
            Some(v) => Some(v),
            None => first.convert_output_dir,
        },
    }
}

/// Passing the same settings again changes nothing more.
pub proof fn law_set_idempotent(c: Config, o: ConfigOverrides)
    ensures
        overridden(overridden(c, o), o) == overridden(c, o),
{
}

/// Two `set`s in a row give what one `set` of the settings passed to either
/// gives, the later value winning where both pass one.
pub proof fn law_set_later_wins(c: Config, first: ConfigOverrides, second: ConfigOverrides)
    ensures
        overridden(overridden(c, first), second) == overridden(c, merged(first, second)),
{
}

/// A `set` leaves every setting it is not passed as it was.
pub proof fn law_set_keeps_unpassed(c: Config, o: ConfigOverrides)
    ensures
        o.cache_dir is None ==> overridden(c, o).cache_dir == c.cache_dir,
        o.extract_input_dir is None ==> overridden(c, o).extract.input_dir == c.extract.input_dir,
        o.extract_output_dir is None ==> overridden(c, o).extract.output_dir
            == c.extract.output_dir,
        o.fps is None ==> overridden(c, o).extract.fps == c.extract.fps,
        o.convert_input_dir is None ==> overridden(c, o).convert.input_dir == c.convert.input_dir,
        o.convert_output_dir is None ==> overridden(c, o).convert.output_dir
            == c.convert.output_dir,
{
}

} // verus!
