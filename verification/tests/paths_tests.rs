use copy_prog::paths::{component_texts, file_extension, has_prefix, join_parts, normalize_path};

fn path_comps(v: &[&str]) -> Vec<String> {
    v.iter().map(|s| s.to_string()).collect()
}

#[test]
fn normalize_drops_current_dir_and_joins_with_slash() {
    assert_eq!(normalize_path("./a/./b"), "a/b");
    assert_eq!(normalize_path("a/b/"), "a/b");
    assert_eq!(normalize_path("src/main.rs"), "src/main.rs");
    assert_eq!(normalize_path("a//b"), "a/b");
}

#[test]
fn normalize_of_nothing_is_dot() {
    assert_eq!(normalize_path(""), ".");
    assert_eq!(normalize_path("."), ".");
    assert_eq!(normalize_path("./"), ".");
}

#[test]
fn join_parts_leaves_out_current_dir() {
    let parts = vec![
        (true, ".".to_string()),
        (false, "x".to_string()),
        (false, "y.rs".to_string()),
    ];
    assert_eq!(join_parts(&parts), "x/y.rs");
    assert_eq!(join_parts(&vec![(true, ".".to_string())]), ".");
    assert_eq!(join_parts(&vec![]), ".");
}

#[test]
fn extension_follows_path_extension() {
    assert_eq!(file_extension("main.rs"), Some("rs".to_string()));
    assert_eq!(file_extension("archive.tar.gz"), Some("gz".to_string()));
    assert_eq!(file_extension(".gitignore"), None);
    assert_eq!(file_extension(".a.b"), Some("b".to_string()));
    assert_eq!(file_extension("foo."), Some("".to_string()));
    assert_eq!(file_extension("Makefile"), None);
    assert_eq!(file_extension(".."), None);
    assert_eq!(file_extension("."), None);
    for name in ["main.rs", "a.tar.gz", ".gitignore", ".a.b", "foo.", "Makefile", "..", "x.ç"] {
        let std_ext = std::path::Path::new(name)
            .extension()
            .map(|e| e.to_string_lossy().into_owned());
        assert_eq!(file_extension(name), std_ext, "{}", name);
    }
}

#[test]
fn extension_has_no_dot() {
    for name in ["a.b.c", "x.", ".y.z", "q"] {
        if let Some(e) = file_extension(name) {
            assert!(!e.contains('.'));
        }
    }
}

#[test]
fn prefix_is_componentwise() {
    let p = path_comps(&["/", "home", "user", "src"]);
    assert!(has_prefix(&p, &path_comps(&["/", "home"])));
    assert!(has_prefix(&p, &p));
    assert!(has_prefix(&p, &path_comps(&[])));
    assert!(!has_prefix(&p, &path_comps(&["/", "hom"])));
    assert!(!has_prefix(&path_comps(&["/", "home"]), &p));
}

#[test]
fn normalizing_twice_is_normalizing_once() {
    for p in ["./a/./b", "a//b/", ".", "", "src/main.rs", "./x", "a/../b"] {
        let once = normalize_path(p);
        assert_eq!(normalize_path(&once), once, "{}", p);
    }
    assert_eq!(normalize_path("a/b"), "a/b");
}

#[test]
fn component_texts_follow_path_components() {
    assert_eq!(component_texts("/home/u/src"), vec!["/", "home", "u", "src"]);
    assert_eq!(component_texts("./a/b"), vec![".", "a", "b"]);
    assert!(component_texts("").is_empty());
}
