//! The settings of the program and the ways they are changed.
use vstd::prelude::*;

use crate::i18n::{lang_of, parse_lang, Lang};
use crate::text::{parse_u8, parse_u8_spec, starts_with_char, str_concat, str_eq, trim, trimmed};

verus! {

/// The settings, as they are saved between runs.
pub struct Config {
    pub default_extensions: Vec<String>,
    pub enabled_extensions: Vec<String>,
    pub use_all_files: bool,
    pub separator_lines: u8,
    pub ignore_system_dirs: bool,
    pub exclude_paths: Vec<String>,
    pub include_dirs: Vec<String>,
    pub language: String,
    pub last_source: String,
    pub last_output: String,
}

/// The settings as values.
pub struct ConfigView {
    pub default_extensions: Seq<Seq<char>>,
    pub enabled_extensions: Seq<Seq<char>>,
    pub use_all_files: bool,
    pub separator_lines: u8,
    pub ignore_system_dirs: bool,
    pub exclude_paths: Seq<Seq<char>>,
    pub include_dirs: Seq<Seq<char>>,
    pub language: Seq<char>,
    pub last_source: Seq<char>,
    pub last_output: Seq<char>,
}

impl View for Config {
    type V = ConfigView;

    open spec fn view(&self) -> ConfigView {
        ConfigView {
            default_extensions: self.default_extensions.deep_view(),
            enabled_extensions: self.enabled_extensions.deep_view(),
            use_all_files: self.use_all_files,
            separator_lines: self.separator_lines,
            ignore_system_dirs: self.ignore_system_dirs,
            exclude_paths: self.exclude_paths.deep_view(),
            include_dirs: self.include_dirs.deep_view(),
            language: self.language@,
            last_source: self.last_source@,
            last_output: self.last_output@,
        }
    }
}

/// The settings of a first run: Rust sources and manifests, two empty lines
/// between files, system directories ignored, Russian, the current directory
/// merged into `merged_output.txt`.
pub open spec fn default_view() -> ConfigView {
    ConfigView {
        default_extensions: seq![".rs"@, ".toml"@],
        enabled_extensions: seq![".rs"@, ".toml"@],
        use_all_files: false,
        separator_lines: 2,
        ignore_system_dirs: true,
        exclude_paths: Seq::empty(),
        include_dirs: Seq::empty(),
        language: "RU"@,
        last_source: "."@,
        last_output: "merged_output.txt"@,
    }
}

impl Default for Config {
    fn default() -> (c: Self)
        ensures
            c@ == default_view(),
    {
        let c = Config {
            default_extensions: vec![String::from_str(".rs"), String::from_str(".toml")],
            enabled_extensions: vec![String::from_str(".rs"), String::from_str(".toml")],
            use_all_files: false,
            separator_lines: 2,
            ignore_system_dirs: true,
            exclude_paths: Vec::new(),
            include_dirs: Vec::new(),
            language: String::from_str("RU"),
            last_source: String::from_str("."),
            last_output: String::from_str("merged_output.txt"),
        };
        assert(c@.default_extensions == default_view().default_extensions);
        assert(c@.enabled_extensions == default_view().enabled_extensions);
        assert(c@.exclude_paths == default_view().exclude_paths);
        assert(c@.include_dirs == default_view().include_dirs);
        c
    }
}

/// The language the settings name, Russian when they name none.
pub open spec fn config_lang(c: ConfigView) -> Lang {
    match lang_of(c.language) {
        Ok(l) => l,
        Err(_) => Lang::RU,
    }
}

/// The interface language of the settings.
pub fn current_lang(cfg: &Config) -> (l: Lang)
    ensures
        l == config_lang(cfg@),
{
    match parse_lang(cfg.language.as_str()) {
        Ok(l) => l,
        Err(_) => Lang::RU,
    }
}

/// `s` without the elements equal to `x`, the others kept in order.
pub open spec fn without(s: Seq<Seq<char>>, x: Seq<char>) -> Seq<Seq<char>>
    decreases s.len(),
{
    if s.len() == 0 {
        s
    } else if s.last() == x {
        without(s.drop_last(), x)
    } else {
        without(s.drop_last(), x).push(s.last())
    }
}

/// Removes every element equal to `x`.
pub fn remove_all(list: &mut Vec<String>, x: &str)
    ensures
        final(list).deep_view() == without(old(list).deep_view(), x@),
{
    let ghost orig = list.deep_view();
    let mut kept: Vec<String> = Vec::new();
    let mut i: usize = 0;
    assert(orig.take(0) == Seq::<Seq<char>>::empty());
    while i < list.len()
        invariant
            orig == list.deep_view(),
            i <= list@.len(),
            kept.deep_view() == without(orig.take(i as int), x@),
        decreases list@.len() - i,
    {
        assert(orig.take(i + 1).drop_last() == orig.take(i as int));
        assert(orig.take(i + 1).last() == list[i as int]@);
        if !str_eq(list[i].as_str(), x) {
            kept.push(list[i].clone());
            assert(kept.deep_view() == without(orig.take(i as int), x@).push(list[i as int]@));
        }
        i += 1;
    }
    assert(orig.take(list@.len() as int) == orig);
    *list = kept;
}

/// An extension as it is stored: with a leading `.`.
pub open spec fn dotted(ext: Seq<char>) -> Seq<char> {
    if ext.len() > 0 && ext[0] == '.' {
        ext
    } else {
        "."@ + ext
    }
}

/// Enables the extension typed by the user, adding the leading `.` when it
/// lacks one.
pub fn add_extension(cfg: &mut Config, input: &str)
    ensures
        final(cfg)@ == (ConfigView {
            enabled_extensions: old(cfg)@.enabled_extensions.push(dotted(trimmed(input@))),
            ..old(cfg)@
        }),
{
    let ext = trim(input);
    let stored = if !starts_with_char(ext.as_str(), '.') {
        str_concat(".", ext.as_str())
    } else {
        ext
    };
    cfg.enabled_extensions.push(stored);
    assert(cfg.enabled_extensions.deep_view() == old(cfg).enabled_extensions.deep_view().push(
        dotted(trimmed(input@)),
    ));
}

/// Disables the extension typed by the user, written with or without its
/// leading `.`.
pub fn remove_extension(cfg: &mut Config, input: &str)
    ensures
        final(cfg)@ == (ConfigView {
            enabled_extensions: without(
                without(old(cfg)@.enabled_extensions, trimmed(input@)),
                "."@ + trimmed(input@),
            ),
            ..old(cfg)@
        }),
{
    let ext = trim(input);
    let with_dot = str_concat(".", ext.as_str());
    remove_all(&mut cfg.enabled_extensions, ext.as_str());
    remove_all(&mut cfg.enabled_extensions, with_dot.as_str());
}

/// Adds a directory to the included ones, unless the input is blank.
pub fn add_include_dir(cfg: &mut Config, input: &str)
    ensures
        final(cfg)@ == (if trimmed(input@).len() == 0 {
            old(cfg)@
        } else {
            ConfigView { include_dirs: old(cfg)@.include_dirs.push(trimmed(input@)), ..old(cfg)@ }
        }),
{
    let p = trim(input);
    if !p.as_str().is_empty() {
        cfg.include_dirs.push(p);
        assert(cfg.include_dirs.deep_view() == old(cfg).include_dirs.deep_view().push(
            trimmed(input@),
        ));
    }
}

/// Removes a directory from the included ones.
pub fn remove_include_dir(cfg: &mut Config, input: &str)
    ensures
        final(cfg)@ == (ConfigView {
            include_dirs: without(old(cfg)@.include_dirs, trimmed(input@)),
            ..old(cfg)@
        }),
{
    let p = trim(input);
    remove_all(&mut cfg.include_dirs, p.as_str());
}

/// Adds a path to the excluded ones (a blank input too).
pub fn add_exclude_path(cfg: &mut Config, input: &str)
    ensures
        final(cfg)@ == (ConfigView {
            exclude_paths: old(cfg)@.exclude_paths.push(trimmed(input@)),
            ..old(cfg)@
        }),
{
    let p = trim(input);
    cfg.exclude_paths.push(p);
    assert(cfg.exclude_paths.deep_view() == old(cfg).exclude_paths.deep_view().push(
        trimmed(input@),
    ));
}

/// Removes a path from the excluded ones.
pub fn remove_exclude_path(cfg: &mut Config, input: &str)
    ensures
        final(cfg)@ == (ConfigView {
            exclude_paths: without(old(cfg)@.exclude_paths, trimmed(input@)),
            ..old(cfg)@
        }),
{
    let p = trim(input);
    remove_all(&mut cfg.exclude_paths, p.as_str());
}

/// The number of separator lines that an input sets: a number from 0 to 5.
pub open spec fn separator_choice(input: Seq<char>) -> Option<u8> {
    match parse_u8_spec(trimmed(input)) {
        Some(n) => if n <= 5 {
            Some(n)
        } else {
            None
        },
        None => None,
    }
}

/// Sets the number of empty lines between files when the input is a number
/// from 0 to 5, and leaves the settings alone otherwise.
pub fn set_separator(cfg: &mut Config, input: &str)
    ensures
        final(cfg)@ == (match separator_choice(input@) {
            Some(n) => ConfigView { separator_lines: n, ..old(cfg)@ },
            None => old(cfg)@,
        }),
{
    let t = trim(input);
    match parse_u8(t.as_str()) {
        Some(n) => {
            if n <= 5 {
                cfg.separator_lines = n;
            }
        },
        None => {},
    }
}

/// The language code that an answer to the language question selects.
pub open spec fn language_choice(input: Seq<char>) -> Option<Seq<char>> {
    let t = trimmed(input);
    if t == "1"@ || t == "RU"@ || t == "Рус"@ {
        Some("RU"@)
    } else if t == "2"@ || t == "EN"@ || t == "Eng"@ {
        Some("EN"@)
    } else if t == "3"@ || t == "ZH"@ || t == "中文"@ {
        Some("ZH"@)
    } else {
        None
    }
}

/// Sets the interface language chosen by number, code or name; any other
/// answer leaves the settings alone.
pub fn set_language(cfg: &mut Config, input: &str)
    ensures
        final(cfg)@ == (match language_choice(input@) {
            Some(code) => ConfigView { language: code, ..old(cfg)@ },
            None => old(cfg)@,
        }),
{
    let t = trim(input);
    let s = t.as_str();
    if str_eq(s, "1") || str_eq(s, "RU") || str_eq(s, "Рус") {
        cfg.language = String::from_str("RU");
    } else if str_eq(s, "2") || str_eq(s, "EN") || str_eq(s, "Eng") {
        cfg.language = String::from_str("EN");
    } else if str_eq(s, "3") || str_eq(s, "ZH") || str_eq(s, "中文") {
        cfg.language = String::from_str("ZH");
    }
}

/// The options given on the command line that change the settings.
pub struct CliOptions {
    pub source: String,
    pub output: String,
    pub sep: u8,
    pub exts: Option<Vec<String>>,
    pub all_files: bool,
    pub ignore_system_dirs: bool,
    pub include_system_dirs: bool,
    pub exclude: Option<Vec<String>>,
    pub only_dirs: Option<Vec<String>>,
}

/// The settings after the command-line options are applied: source, output
/// and separator are always taken; a list given replaces the stored one;
/// `--all-files` only turns that mode on; `--include-system-dirs` wins over
/// `--ignore-system-dirs`.
pub open spec fn with_cli(c: ConfigView, o: CliOptions) -> ConfigView {
    ConfigView {
        last_source: o.source@,
        last_output: o.output@,
        separator_lines: o.sep,
        enabled_extensions: match o.exts {
            Some(v) => v.deep_view(),
            None => c.enabled_extensions,
        },
        use_all_files: c.use_all_files || o.all_files,
        ignore_system_dirs: if o.include_system_dirs {
            false
        } else if o.ignore_system_dirs {
            true
        } else {
            c.ignore_system_dirs
        },
        exclude_paths: match o.exclude {
            Some(v) => v.deep_view(),
            None => c.exclude_paths,
        },
        include_dirs: match o.only_dirs {
            Some(v) => v.deep_view(),
            None => c.include_dirs,
        },
        ..c
    }
}

/// Applies the command-line options to the settings.
pub fn apply_cli(cfg: &mut Config, opts: CliOptions)
    ensures
        final(cfg)@ == with_cli(old(cfg)@, opts),
{
    let ghost o = opts;
    cfg.last_source = opts.source;
    cfg.last_output = opts.output;
    cfg.separator_lines = opts.sep;
    match opts.exts {
        Some(v) => {
            cfg.enabled_extensions = v;
        },
        None => {},
    }
    if opts.all_files {
        cfg.use_all_files = true;
    }
    if opts.include_system_dirs {
        cfg.ignore_system_dirs = false;
    } else if opts.ignore_system_dirs {
        cfg.ignore_system_dirs = true;
    }
    match opts.exclude {
        Some(v) => {
            cfg.exclude_paths = v;
        },
        None => {},
    }
    match opts.only_dirs {
        Some(v) => {
            cfg.include_dirs = v;
        },
        None => {},
    }
    assert(cfg@ == with_cli(old(cfg)@, o));
}

/// What a command-line run does.
#[derive(Debug, Clone, Copy, PartialEq, Eq, Structural)]
pub enum CliCommand {
    ResetConfig,
    ShowUsage,
    SaveConfig,
    Preview,
    Copy,
}

/// Chooses what a command-line run does: resetting the settings comes first,
/// then the instructions, then saving, then the preview, and copying when
/// none of these is asked for.
pub fn cli_command(reset_config: bool, usage_details: bool, save_config: bool, preview: bool) -> (c:
    CliCommand)
    ensures
        c == (if reset_config {
            CliCommand::ResetConfig
        } else if usage_details {
            CliCommand::ShowUsage
        } else if save_config {
            CliCommand::SaveConfig
        } else if preview {
            CliCommand::Preview
        } else {
            CliCommand::Copy
        }),
{
    if reset_config {
        CliCommand::ResetConfig
    } else if usage_details {
        CliCommand::ShowUsage
    } else if save_config {
        CliCommand::SaveConfig
    } else if preview {
        CliCommand::Preview
    } else {
        CliCommand::Copy
    }
}

} // verus!
