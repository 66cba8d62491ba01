use std::path::PathBuf;

use copy_prog::filter::{
    classify_entry, record_entry, shown_rel_path, sort_entries, system_name, FileEntry,
    FilterReason, FilterSettings, WalkEntry,
};

fn comps(v: &[&str]) -> Vec<String> {
    v.iter().map(|s| s.to_string()).collect()
}

fn settings() -> FilterSettings {
    FilterSettings {
        ignore_system_dirs: true,
        use_all_files: false,
        enabled_extensions: comps(&[".rs", ".toml"]),
        include_dirs: vec![],
        exclude_dirs: vec![],
    }
}

fn file(name: &str, abs: &[&str]) -> WalkEntry {
    WalkEntry { is_dir: false, is_file: true, name: name.to_string(), abs_path: comps(abs) }
}

fn dir(name: &str, abs: &[&str]) -> WalkEntry {
    WalkEntry { is_dir: true, is_file: false, name: name.to_string(), abs_path: comps(abs) }
}

#[test]
fn files_with_enabled_extensions_are_collected() {
    let o = classify_entry(&settings(), &file("main.rs", &["/", "p", "main.rs"]));
    assert_eq!(o.status, Some(Ok(())));
    assert!(!o.skip_dir);
    let o = classify_entry(&settings(), &file("notes.md", &["/", "p", "notes.md"]));
    assert_eq!(o.status, Some(Err(FilterReason::Extension)));
    let o = classify_entry(&settings(), &file("Makefile", &["/", "p", "Makefile"]));
    assert_eq!(o.status, Some(Err(FilterReason::Extension)));
}

#[test]
fn all_files_mode_takes_every_file() {
    let mut s = settings();
    s.use_all_files = true;
    let o = classify_entry(&s, &file("notes.md", &["/", "p", "notes.md"]));
    assert_eq!(o.status, Some(Ok(())));
    let o = classify_entry(&s, &file("Makefile", &["/", "p", "Makefile"]));
    assert_eq!(o.status, Some(Ok(())));
}

#[test]
fn system_directories_are_skipped() {
    for name in [".git", "target", "node_modules", "."] {
        let o = classify_entry(&settings(), &dir(name, &["/", "p", name]));
        assert_eq!(o.status, Some(Err(FilterReason::SystemDir)));
        assert!(o.skip_dir);
    }
    let mut s = settings();
    s.ignore_system_dirs = false;
    let o = classify_entry(&s, &dir("target", &["/", "p", "target"]));
    assert_eq!(o.status, None);
    assert!(!o.skip_dir);
    assert!(system_name(".hidden"));
    assert!(!system_name("src"));
}

#[test]
fn plain_directories_are_walked_but_not_listed() {
    let o = classify_entry(&settings(), &dir("src", &["/", "p", "src"]));
    assert_eq!(o.status, None);
    assert!(!o.skip_dir);
}

#[test]
fn exclusion_wins_over_inclusion_and_extension() {
    let mut s = settings();
    s.exclude_dirs = vec![comps(&["/", "p", "gen"])];
    s.include_dirs = vec![comps(&["/", "p", "gen"])];
    let o = classify_entry(&s, &file("a.rs", &["/", "p", "gen", "a.rs"]));
    assert_eq!(o.status, Some(Err(FilterReason::Excluded)));
    assert!(!o.skip_dir);
    let o = classify_entry(&s, &dir("gen", &["/", "p", "gen"]));
    assert_eq!(o.status, Some(Err(FilterReason::Excluded)));
    assert!(o.skip_dir);
}

#[test]
fn only_included_directories_are_collected() {
    let mut s = settings();
    s.include_dirs = vec![comps(&["/", "p", "crates", "core"])];
    // On the way to an included directory: walked.
    let o = classify_entry(&s, &dir("crates", &["/", "p", "crates"]));
    assert_eq!(o.status, None);
    assert!(!o.skip_dir);
    // Inside it: walked.
    let o = classify_entry(&s, &dir("src", &["/", "p", "crates", "core", "src"]));
    assert_eq!(o.status, None);
    // Elsewhere: skipped.
    let o = classify_entry(&s, &dir("other", &["/", "p", "crates", "other"]));
    assert_eq!(o.status, Some(Err(FilterReason::NotIncluded)));
    assert!(o.skip_dir);
    let o = classify_entry(&s, &file("x.rs", &["/", "p", "x.rs"]));
    assert_eq!(o.status, Some(Err(FilterReason::NotIncluded)));
    assert!(!o.skip_dir);
    let o = classify_entry(&s, &file("lib.rs", &["/", "p", "crates", "core", "lib.rs"]));
    assert_eq!(o.status, Some(Ok(())));
}

#[test]
fn shown_paths_mark_directories() {
    assert_eq!(shown_rel_path("src", true), "src/");
    assert_eq!(shown_rel_path("./src/a", true), "src/a/");
    assert_eq!(shown_rel_path("", true), ".");
    assert_eq!(shown_rel_path("src/main.rs", false), "src/main.rs");
}

#[test]
fn record_entry_pushes_what_the_filter_says() {
    let mut entries: Vec<FileEntry> = Vec::new();
    let skip = record_entry(
        &mut entries,
        &settings(),
        &dir(".git", &["/", "p", ".git"]),
        PathBuf::from("./.git"),
        ".git",
    );
    assert!(skip);
    assert_eq!(entries.len(), 1);
    assert_eq!(entries[0].rel_path, ".git/");
    assert_eq!(entries[0].status, Err(FilterReason::SystemDir));

    let skip = record_entry(
        &mut entries,
        &settings(),
        &dir("src", &["/", "p", "src"]),
        PathBuf::from("./src"),
        "src",
    );
    assert!(!skip);
    assert_eq!(entries.len(), 1);

    let skip = record_entry(
        &mut entries,
        &settings(),
        &file("main.rs", &["/", "p", "src", "main.rs"]),
        PathBuf::from("./src/main.rs"),
        "src/main.rs",
    );
    assert!(!skip);
    assert_eq!(entries.len(), 2);
    assert_eq!(entries[1].path, PathBuf::from("./src/main.rs"));
    assert_eq!(entries[1].rel_path, "src/main.rs");
    assert_eq!(entries[1].status, Ok(()));
}

fn entry(rel: &str) -> FileEntry {
    FileEntry { path: PathBuf::from(rel), rel_path: rel.to_string(), status: Ok(()) }
}

#[test]
fn entries_are_sorted_by_relative_path() {
    let input = vec![entry("src/main.rs"), entry("Cargo.toml"), entry("src/"), entry("a.rs"), entry("b/")];
    let sorted = sort_entries(input);
    let names: Vec<&str> = sorted.iter().map(|e| e.rel_path.as_str()).collect();
    assert_eq!(names, vec!["Cargo.toml", "a.rs", "b/", "src/", "src/main.rs"]);
    assert_eq!(sorted[0].path, PathBuf::from("Cargo.toml"));
}

#[test]
fn sorting_keeps_equal_paths_in_order() {
    let mut a = entry("same");
    a.status = Err(FilterReason::Extension);
    let b = entry("same");
    let sorted = sort_entries(vec![entry("z"), a, b]);
    assert_eq!(sorted[0].status, Err(FilterReason::Extension));
    assert_eq!(sorted[1].status, Ok(()));
    assert_eq!(sorted[2].rel_path, "z");
}

#[test]
fn sorting_nothing_gives_nothing() {
    assert!(sort_entries(vec![]).is_empty());
}
