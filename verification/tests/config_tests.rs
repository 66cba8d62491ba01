use copy_prog::config::{
    add_exclude_path, add_extension, add_include_dir, apply_cli, cli_command, current_lang,
    remove_all, remove_exclude_path, remove_extension, remove_include_dir, set_language,
    set_separator, CliCommand, CliOptions, Config,
};
use copy_prog::Lang;

fn strs(v: &[&str]) -> Vec<String> {
    v.iter().map(|s| s.to_string()).collect()
}

#[test]
fn default_settings() {
    let c = Config::default();
    assert_eq!(c.default_extensions, strs(&[".rs", ".toml"]));
    assert_eq!(c.enabled_extensions, strs(&[".rs", ".toml"]));
    assert!(!c.use_all_files);
    assert_eq!(c.separator_lines, 2);
    assert!(c.ignore_system_dirs);
    assert!(c.exclude_paths.is_empty());
    assert!(c.include_dirs.is_empty());
    assert_eq!(c.language, "RU");
    assert_eq!(c.last_source, ".");
    assert_eq!(c.last_output, "merged_output.txt");
    assert_eq!(current_lang(&c), Lang::RU);
}

#[test]
fn unknown_language_setting_falls_back_to_russian() {
    let mut c = Config::default();
    c.language = "xx".to_string();
    assert_eq!(current_lang(&c), Lang::RU);
    c.language = "en".to_string();
    assert_eq!(current_lang(&c), Lang::EN);
}

#[test]
fn extensions_get_a_leading_dot() {
    let mut c = Config::default();
    add_extension(&mut c, " md\n");
    add_extension(&mut c, ".py");
    assert_eq!(c.enabled_extensions, strs(&[".rs", ".toml", ".md", ".py"]));
    add_extension(&mut c, "");
    assert_eq!(c.enabled_extensions.last().unwrap(), ".");
}

#[test]
fn extensions_are_removed_with_or_without_dot() {
    let mut c = Config::default();
    c.enabled_extensions = strs(&[".rs", "rs", ".toml", ".rs"]);
    remove_extension(&mut c, "rs");
    assert_eq!(c.enabled_extensions, strs(&[".toml"]));
    c.enabled_extensions = strs(&[".rs", ".md"]);
    remove_extension(&mut c, ".md\n");
    assert_eq!(c.enabled_extensions, strs(&[".rs"]));
}

#[test]
fn removing_an_added_extension_undoes_it() {
    for typed in ["md", ".md", " txt "] {
        let mut c = Config::default();
        add_extension(&mut c, typed);
        remove_extension(&mut c, typed);
        assert_eq!(c.enabled_extensions, strs(&[".rs", ".toml"]));
    }
}

#[test]
fn include_dirs_ignore_blank_input() {
    let mut c = Config::default();
    add_include_dir(&mut c, "   \n");
    assert!(c.include_dirs.is_empty());
    add_include_dir(&mut c, " crates/core \n");
    add_include_dir(&mut c, "docs");
    add_include_dir(&mut c, "crates/core");
    assert_eq!(c.include_dirs, strs(&["crates/core", "docs", "crates/core"]));
    remove_include_dir(&mut c, "crates/core\n");
    assert_eq!(c.include_dirs, strs(&["docs"]));
}

#[test]
fn exclude_paths_take_any_input() {
    let mut c = Config::default();
    add_exclude_path(&mut c, "  ");
    add_exclude_path(&mut c, "target2");
    assert_eq!(c.exclude_paths, strs(&["", "target2"]));
    remove_exclude_path(&mut c, "");
    assert_eq!(c.exclude_paths, strs(&["target2"]));
}

#[test]
fn remove_all_keeps_the_others_in_order() {
    let mut v = strs(&["a", "b", "a", "c"]);
    remove_all(&mut v, "a");
    assert_eq!(v, strs(&["b", "c"]));
    remove_all(&mut v, "zzz");
    assert_eq!(v, strs(&["b", "c"]));
}

#[test]
fn separator_accepts_zero_to_five() {
    let mut c = Config::default();
    set_separator(&mut c, " 5\n");
    assert_eq!(c.separator_lines, 5);
    set_separator(&mut c, "0");
    assert_eq!(c.separator_lines, 0);
    set_separator(&mut c, "6");
    assert_eq!(c.separator_lines, 0);
    set_separator(&mut c, "abc");
    assert_eq!(c.separator_lines, 0);
    set_separator(&mut c, "+3");
    assert_eq!(c.separator_lines, 3);
}

#[test]
fn language_is_chosen_by_number_code_or_name() {
    let mut c = Config::default();
    set_language(&mut c, "2\n");
    assert_eq!(c.language, "EN");
    set_language(&mut c, "中文");
    assert_eq!(c.language, "ZH");
    set_language(&mut c, "Рус");
    assert_eq!(c.language, "RU");
    set_language(&mut c, "Eng");
    assert_eq!(c.language, "EN");
    set_language(&mut c, "4");
    assert_eq!(c.language, "EN");
    set_language(&mut c, "en");
    assert_eq!(c.language, "EN");
}

fn no_options() -> CliOptions {
    CliOptions {
        source: ".".to_string(),
        output: "merged_output.txt".to_string(),
        sep: 2,
        exts: None,
        all_files: false,
        ignore_system_dirs: false,
        include_system_dirs: false,
        exclude: None,
        only_dirs: None,
    }
}

#[test]
fn command_line_options_override_settings() {
    let mut c = Config::default();
    c.use_all_files = true;
    c.exclude_paths = strs(&["old"]);
    let mut o = no_options();
    o.source = "proj".to_string();
    o.output = "out.txt".to_string();
    o.sep = 9;
    o.exts = Some(strs(&[".py"]));
    o.only_dirs = Some(strs(&["a", "b"]));
    apply_cli(&mut c, o);
    assert_eq!(c.last_source, "proj");
    assert_eq!(c.last_output, "out.txt");
    assert_eq!(c.separator_lines, 9);
    assert_eq!(c.enabled_extensions, strs(&[".py"]));
    assert!(c.use_all_files);
    assert!(c.ignore_system_dirs);
    assert_eq!(c.exclude_paths, strs(&["old"]));
    assert_eq!(c.include_dirs, strs(&["a", "b"]));
    assert_eq!(c.language, "RU");
}

#[test]
fn including_system_dirs_wins() {
    let mut c = Config::default();
    let mut o = no_options();
    o.ignore_system_dirs = true;
    o.include_system_dirs = true;
    apply_cli(&mut c, o);
    assert!(!c.ignore_system_dirs);
    let mut o = no_options();
    o.ignore_system_dirs = true;
    apply_cli(&mut c, o);
    assert!(c.ignore_system_dirs);
    apply_cli(&mut c, no_options());
    assert!(c.ignore_system_dirs);
}

#[test]
fn command_line_run_chooses_one_command() {
    assert_eq!(cli_command(true, true, true, true), CliCommand::ResetConfig);
    assert_eq!(cli_command(false, true, true, true), CliCommand::ShowUsage);
    assert_eq!(cli_command(false, false, true, true), CliCommand::SaveConfig);
    assert_eq!(cli_command(false, false, false, true), CliCommand::Preview);
    assert_eq!(cli_command(false, false, false, false), CliCommand::Copy);
}
