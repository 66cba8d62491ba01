//! Deciding, entry by entry of a directory walk, which files are collected
//! and why the others are left out; ordering the collected entries.
use vstd::prelude::*;

use std::path::PathBuf;

use crate::paths::{
    extension_of, file_extension, has_prefix, is_prefix, normalize_path, normalized,
    path_components,
};
use crate::text::{
    ends_with_char, lemma_lex_le_refl, lemma_lex_le_total, lemma_lex_le_trans, lex_le, push_char,
    str_concat, str_eq, str_lex_le,
};

verus! {

/// Declares `std::path::PathBuf` to Verus as an opaque type: a file's path is
/// carried through unchanged and never looked into.
#[verifier::external_type_specification]
#[verifier::external_body]
pub struct ExPathBuf(std::path::PathBuf);

/// Why an entry is left out.
#[derive(Debug, Clone, Copy, PartialEq, Eq, Structural)]
pub enum FilterReason {
    SystemDir,
    Extension,
    Excluded,
    NotIncluded,
}

/// The filter rules, with the included and excluded directories already
/// resolved to absolute paths given as their components.
pub struct FilterSettings {
    pub ignore_system_dirs: bool,
    pub use_all_files: bool,
    pub enabled_extensions: Vec<String>,
    pub include_dirs: Vec<Vec<String>>,
    pub exclude_dirs: Vec<Vec<String>>,
}

/// What the filter reads of one entry of the walk.
pub struct WalkEntry {
    pub is_dir: bool,
    pub is_file: bool,
    /// The entry's file name.
    pub name: String,
    /// The components of the entry's absolute (canonical) path.
    pub abs_path: Vec<String>,
}

/// The decision on one entry: what is recorded for it, if anything, and
/// whether the walk must not descend into it.
#[derive(Debug, Clone, Copy)]
pub struct Outcome {
    pub status: Option<Result<(), FilterReason>>,
    pub skip_dir: bool,
}

/// An entry of the listing: the path to read, the relative path shown, and
/// whether it is collected or why not.
pub struct FileEntry {
    pub path: PathBuf,
    pub rel_path: String,
    pub status: Result<(), FilterReason>,
}

/// Names of directories that count as system directories: hidden ones,
/// `target` and `node_modules`.
pub open spec fn is_system_name(name: Seq<char>) -> bool {
    (name.len() > 0 && name[0] == '.') || name == "target"@ || name == "node_modules"@
}

/// The path lies in one of the excluded directories (or is one).
pub open spec fn excluded(abs: Seq<Seq<char>>, excl: Seq<Seq<Seq<char>>>) -> bool {
    exists|i: int| 0 <= i < excl.len() && is_prefix(#[trigger] excl[i], abs)
}

/// The path lies in one of the included directories (or is one).
pub open spec fn inside_included(abs: Seq<Seq<char>>, incl: Seq<Seq<Seq<char>>>) -> bool {
    exists|i: int| 0 <= i < incl.len() && is_prefix(#[trigger] incl[i], abs)
}

/// The directory is an included one, lies in one, or lies on the way to one.
pub open spec fn reaches_included(abs: Seq<Seq<char>>, incl: Seq<Seq<Seq<char>>>) -> bool {
    exists|i: int|
        0 <= i < incl.len() && (#[trigger] incl[i] == abs || is_prefix(abs, incl[i]) || is_prefix(
            incl[i],
            abs,
        ))
}

/// The file name has an extension, and that extension with a leading `.` is
/// one of the enabled ones.
pub open spec fn extension_enabled(name: Seq<char>, enabled: Seq<Seq<char>>) -> bool {
    match extension_of(name) {
        Some(e) => enabled.contains("."@ + e),
        None => false,
    }
}

/// The decision on an entry, the rules taken in order: system directories,
/// excluded paths, included directories, then extensions of files.
pub open spec fn outcome_of(s: FilterSettings, e: WalkEntry) -> Outcome {
    let abs = e.abs_path.deep_view();
    let incl = s.include_dirs.deep_view();
    if s.ignore_system_dirs && e.is_dir && is_system_name(e.name@) {
        Outcome { status: Some(Err(FilterReason::SystemDir)), skip_dir: true }
    } else if excluded(abs, s.exclude_dirs.deep_view()) {
        Outcome { status: Some(Err(FilterReason::Excluded)), skip_dir: e.is_dir }
    } else if incl.len() > 0 && e.is_dir && !reaches_included(abs, incl) {
        Outcome { status: Some(Err(FilterReason::NotIncluded)), skip_dir: true }
    } else if incl.len() > 0 && !e.is_dir && !inside_included(abs, incl) {
        Outcome { status: Some(Err(FilterReason::NotIncluded)), skip_dir: false }
    } else if e.is_file {
        Outcome {
            status: Some(
                if s.use_all_files || extension_enabled(e.name@, s.enabled_extensions.deep_view()) {
                    Ok(())
                } else {
                    Err(FilterReason::Extension)
                },
            ),
            skip_dir: false,
        }
    } else {
        Outcome { status: None, skip_dir: false }
    }
}

/// The relative path as it is listed: normalised, and with a trailing `/`
/// for directories other than `.`.
pub open spec fn shown_path(rel: Seq<char>, is_dir: bool) -> Seq<char> {
    let n = normalized(path_components(rel));
    if is_dir && n != "."@ && !(n.len() > 0 && n.last() == '/') {
        n.push('/')
    } else {
        n
    }
}

/// Whether a name is that of a system directory.
pub fn system_name(name: &str) -> (r: bool)
    ensures
        r == is_system_name(name@),
{
    crate::text::starts_with_char(name, '.') || str_eq(name, "target") || str_eq(
        name,
        "node_modules",
    )
}

fn any_prefix_of(abs: &Vec<String>, dirs: &Vec<Vec<String>>) -> (r: bool)
    ensures
        r == (exists|i: int|
            0 <= i < dirs.deep_view().len() && is_prefix(
                #[trigger] dirs.deep_view()[i],
                abs.deep_view(),
            )),
{
    let mut i: usize = 0;
    while i < dirs.len()
        invariant
            i <= dirs@.len(),
            forall|k: int| 0 <= k < i ==> !is_prefix(#[trigger] dirs.deep_view()[k], abs.deep_view()),
        decreases dirs@.len() - i,
    {
        if has_prefix(abs, &dirs[i]) {
            assert(dirs.deep_view()[i as int] == dirs[i as int].deep_view());
            return true;
        }
        i += 1;
    }
    false
}

fn reaches_any(abs: &Vec<String>, dirs: &Vec<Vec<String>>) -> (r: bool)
    ensures
        r == reaches_included(abs.deep_view(), dirs.deep_view()),
{
    let ghost a = abs.deep_view();
    let ghost d = dirs.deep_view();
    let mut i: usize = 0;
    while i < dirs.len()
        invariant
            a == abs.deep_view(),
            d == dirs.deep_view(),
            i <= dirs@.len(),
            forall|k: int|
                0 <= k < i ==> !(#[trigger] d[k] == a || is_prefix(a, d[k]) || is_prefix(d[k], a)),
        decreases dirs@.len() - i,
    {
        assert(d[i as int] == dirs[i as int].deep_view());
        if has_prefix(abs, &dirs[i]) || has_prefix(&dirs[i], abs) {
            return true;
        }
        assert(d[i as int] != a) by {
            if d[i as int] == a {
                assert(a.take(a.len() as int) == a);
            }
        }
        i += 1;
    }
    false
}

fn extension_is_enabled(name: &str, enabled: &Vec<String>) -> (r: bool)
    ensures
        r == extension_enabled(name@, enabled.deep_view()),
{
    match file_extension(name) {
        None => false,
        Some(ext) => {
            let dotted = str_concat(".", ext.as_str());
            let mut i: usize = 0;
            while i < enabled.len()
                invariant
                    i <= enabled@.len(),
                    extension_of(name@) == Some(ext@),
                    dotted@ == "."@ + ext@,
                    forall|k: int| 0 <= k < i ==> enabled.deep_view()[k] != dotted@,
                decreases enabled@.len() - i,
            {
                if enabled[i] == dotted {
                    assert(enabled.deep_view()[i as int] == dotted@);
                    assert(enabled.deep_view().contains(dotted@));
                    return true;
                }
                i += 1;
            }
            false
        },
    }
}

/// Decides what is recorded for an entry and whether its directory is skipped.
pub fn classify_entry(settings: &FilterSettings, entry: &WalkEntry) -> (o: Outcome)
    ensures
        o == outcome_of(*settings, *entry),
{
    if settings.ignore_system_dirs && entry.is_dir && system_name(entry.name.as_str()) {
        return Outcome { status: Some(Err(FilterReason::SystemDir)), skip_dir: true };
    }
    if any_prefix_of(&entry.abs_path, &settings.exclude_dirs) {
        return Outcome { status: Some(Err(FilterReason::Excluded)), skip_dir: entry.is_dir };
    }
    if settings.include_dirs.len() > 0 {
        if entry.is_dir {
            if !reaches_any(&entry.abs_path, &settings.include_dirs) {
                return Outcome { status: Some(Err(FilterReason::NotIncluded)), skip_dir: true };
            }
        } else {
            if !any_prefix_of(&entry.abs_path, &settings.include_dirs) {
                return Outcome { status: Some(Err(FilterReason::NotIncluded)), skip_dir: false };
            }
        }
    }
    if entry.is_file {
        let ok = settings.use_all_files || extension_is_enabled(
            entry.name.as_str(),
            &settings.enabled_extensions,
        );
        Outcome {
            status: Some(
                if ok {
                    Ok(())
                } else {
                    Err(FilterReason::Extension)
                },
            ),
            skip_dir: false,
        }
    } else {
        Outcome { status: None, skip_dir: false }
    }
}

/// The relative path as it is listed.
pub fn shown_rel_path(rel: &str, is_dir: bool) -> (s: String)
    ensures
        s@ == shown_path(rel@, is_dir),
{
    let mut n = normalize_path(rel);
    if is_dir && !str_eq(n.as_str(), ".") && !ends_with_char(n.as_str(), '/') {
        push_char(&mut n, '/');
    }
    n
}

/// Takes one entry of the walk: records it when the filter has something to
/// say about it, and answers whether the walk must skip its contents.
pub fn record_entry(
    entries: &mut Vec<FileEntry>,
    settings: &FilterSettings,
    entry: &WalkEntry,
    path: PathBuf,
    rel: &str,
) -> (skip_dir: bool)
    ensures
        skip_dir == outcome_of(*settings, *entry).skip_dir,
        match outcome_of(*settings, *entry).status {
            Some(st) => {
                &&& final(entries)@.len() == old(entries)@.len() + 1
                &&& final(entries)@.drop_last() == old(entries)@
                &&& final(entries)@.last().path == path
                &&& final(entries)@.last().rel_path@ == shown_path(rel@, entry.is_dir)
                &&& final(entries)@.last().status == st
            },
            None => final(entries)@ == old(entries)@,
        },
{
    let o = classify_entry(settings, entry);
    match o.status {
        Some(st) => {
            let shown = shown_rel_path(rel, entry.is_dir);
            entries.push(FileEntry { path, rel_path: shown, status: st });
        },
        None => {},
    }
    o.skip_dir
}

/// The entries are in order of their relative paths.
pub open spec fn sorted_by_path(s: Seq<FileEntry>) -> bool {
    forall|i: int, j: int| 0 <= i < j < s.len() ==> lex_le(#[trigger] s[i].rel_path@, #[trigger] s[j].rel_path@)
}

/// `after` holds the entries of `before` rearranged by `p` (`after[k]` is
/// `before[p[k]]`, each position taken once), and entries with the same
/// relative path keep their order.
pub open spec fn stable_rearrangement(p: Seq<int>, before: Seq<FileEntry>, after: Seq<FileEntry>) -> bool {
    &&& p.len() == before.len()
    &&& after.len() == before.len()
    &&& forall|k: int| 0 <= k < p.len() ==> 0 <= #[trigger] p[k] < before.len() && after[k] == before[p[k]]
    &&& forall|k: int, l: int| 0 <= k < l < p.len() ==> #[trigger] p[k] != #[trigger] p[l]
    &&& forall|k: int, l: int|
        0 <= k < l < p.len() && #[trigger] after[k].rel_path@ == #[trigger] after[l].rel_path@ ==> p[k] < p[l]
}

/// Orders the entries by relative path, keeping every entry, and keeping
/// entries with the same relative path in their order (a stable sort).
pub fn sort_entries(entries: Vec<FileEntry>) -> (r: Vec<FileEntry>)
    ensures
        r@.to_multiset() == entries@.to_multiset(),
        sorted_by_path(r@),
        exists|p: Seq<int>| stable_rearrangement(p, entries@, r@),
{
    broadcast use vstd::seq_lib::group_to_multiset_ensures, vstd::multiset::group_multiset_axioms;

    let ghost all = entries@;
    let ghost n = entries@.len();
    let mut rest = entries;
    let mut out: Vec<FileEntry> = Vec::new();
    let ghost mut perm: Seq<int> = Seq::empty();
    assert(all.take(n as int) == all);
    while rest.len() > 0
        invariant
            n == all.len(),
            out@.to_multiset().add(rest@.to_multiset()) == all.to_multiset(),
            sorted_by_path(out@),
            rest@ == all.take(rest@.len() as int),
            rest@.len() <= n,
            perm.len() == out@.len(),
            out@.len() + rest@.len() == n,
            forall|k: int|
                0 <= k < perm.len() ==> rest@.len() <= #[trigger] perm[k] < n && out@[k] == all[perm[k]],
            forall|k: int, l: int| 0 <= k < l < perm.len() ==> #[trigger] perm[k] != #[trigger] perm[l],
            forall|k: int, l: int|
                0 <= k < l < perm.len() && #[trigger] out@[k].rel_path@ == #[trigger] out@[l].rel_path@
                    ==> perm[k] < perm[l],
        decreases rest@.len(),
    {
        let ghost before = rest@;
        let ghost m = (before.len() - 1) as int;
        let x = rest.pop().unwrap();
        assert(before == rest@.push(x));
        assert(x == all[m]);
        assert(rest@ == all.take(m)) by {
            assert(all.take(m) == all.take(m + 1).drop_last());
        }
        proof {
            vstd::seq_lib::to_multiset_build(rest@, x);
        }
        assert(before.to_multiset() == rest@.to_multiset().insert(x));
        let mut k: usize = 0;
        while k < out.len() && !str_lex_le(x.rel_path.as_str(), out[k].rel_path.as_str())
            invariant
                k <= out@.len(),
                forall|j: int| 0 <= j < k ==> lex_le(#[trigger] out@[j].rel_path@, x.rel_path@),
                forall|j: int| 0 <= j < k ==> !lex_le(x.rel_path@, #[trigger] out@[j].rel_path@),
            decreases out@.len() - k,
        {
            proof {
                lemma_lex_le_total(x.rel_path@, out@[k as int].rel_path@);
            }
            k += 1;
        }
        let ghost old_out = out@;
        let ghost old_perm = perm;
        proof {
            assert forall|j: int| k <= j < old_out.len() implies lex_le(
                x.rel_path@,
                #[trigger] old_out[j].rel_path@,
            ) by {
                if j > k {
                    lemma_lex_le_trans(x.rel_path@, old_out[k as int].rel_path@, old_out[j].rel_path@);
                }
            }
            lemma_lex_le_refl(x.rel_path@);
        }
        out.insert(k, x);
        proof {
            perm = old_perm.insert(k as int, m);
        }
        assert(out@ == old_out.insert(k as int, x));
        proof {
            vstd::seq_lib::to_multiset_insert(old_out, k as int, x);
        }
        assert(out@.to_multiset() == old_out.to_multiset().insert(x));
        assert(out@.to_multiset().add(rest@.to_multiset()) =~= all.to_multiset());
        assert(sorted_by_path(out@)) by {
            assert forall|i: int, j: int| 0 <= i < j < out@.len() implies lex_le(
                #[trigger] out@[i].rel_path@,
                #[trigger] out@[j].rel_path@,
            ) by {
                if j < k {
                    assert(out@[i] == old_out[i] && out@[j] == old_out[j]);
                } else if j == k {
                    assert(out@[i] == old_out[i]);
                } else if i < k {
                    assert(out@[i] == old_out[i] && out@[j] == old_out[j - 1]);
                    lemma_lex_le_trans(old_out[i].rel_path@, x.rel_path@, old_out[j - 1].rel_path@);
                } else if i == k {
                    assert(out@[j] == old_out[j - 1]);
                } else {
                    assert(out@[i] == old_out[i - 1] && out@[j] == old_out[j - 1]);
                }
            }
        }
        assert forall|a: int| 0 <= a < perm.len() implies rest@.len() <= #[trigger] perm[a] < n
            && out@[a] == all[perm[a]] by {
            if a < k {
                assert(perm[a] == old_perm[a] && out@[a] == old_out[a]);
            } else if a > k {
                assert(perm[a] == old_perm[a - 1] && out@[a] == old_out[a - 1]);
            }
        }
        assert forall|a: int, b: int| 0 <= a < b < perm.len() implies #[trigger] perm[a]
            != #[trigger] perm[b] by {
            if a < k && b < k {
                assert(perm[a] == old_perm[a] && perm[b] == old_perm[b]);
            } else if a < k && b > k {
                assert(perm[a] == old_perm[a] && perm[b] == old_perm[b - 1]);
            } else if a > k {
                assert(perm[a] == old_perm[a - 1] && perm[b] == old_perm[b - 1]);
            } else if a == k {
                assert(perm[b] == old_perm[b - 1]);
            } else {
                assert(perm[a] == old_perm[a]);
            }
        }
        assert forall|a: int, b: int|
            0 <= a < b < perm.len() && #[trigger] out@[a].rel_path@ == #[trigger] out@[b].rel_path@
                implies perm[a] < perm[b] by {
            if a < k && b < k {
                assert(perm[a] == old_perm[a] && perm[b] == old_perm[b]);
                assert(out@[a] == old_out[a] && out@[b] == old_out[b]);
            } else if a < k && b == k {
                assert(out@[a] == old_out[a]);
                assert(!lex_le(x.rel_path@, old_out[a].rel_path@));
            } else if a < k {
                assert(perm[a] == old_perm[a] && perm[b] == old_perm[b - 1]);
                assert(out@[a] == old_out[a] && out@[b] == old_out[b - 1]);
            } else if a == k {
                assert(perm[b] == old_perm[b - 1]);
            } else {
                assert(perm[a] == old_perm[a - 1] && perm[b] == old_perm[b - 1]);
                assert(out@[a] == old_out[a - 1] && out@[b] == old_out[b - 1]);
            }
        }
    }
    assert(stable_rearrangement(perm, all, out@));
    out
}

} // verus!
