//! Paths as sequences of components: normalisation for display, prefixes and
//! file-name extensions.
use vstd::prelude::*;

use crate::text::{chars_of, str_eq, string_from_range};

verus! {

/// What `Path::components` yields for a path, each component given as a pair
/// of "is the current-directory marker `.`" and its text. (This is fixed by
/// the target platform's path syntax.)
pub uninterp spec fn path_components(p: Seq<char>) -> Seq<(bool, Seq<char>)>;

/// The view of a list of components.
pub open spec fn parts_view(v: Seq<(bool, String)>) -> Seq<(bool, Seq<char>)> {
    Seq::new(v.len(), |i: int| (v[i].0, v[i].1@))
}

/// A name that stands as one ordinary component in a path on every
/// platform: not empty, not `.`, and without a slash, a backslash or `:`.
pub open spec fn plain_name(n: Seq<char>) -> bool {
    n.len() > 0 && n != "."@ && !n.contains('/') && !n.contains('\\') && !n.contains(':')
}

/// Every name is plain.
pub open spec fn plain_names(ns: Seq<Seq<char>>) -> bool {
    forall|i: int| 0 <= i < ns.len() ==> plain_name(#[trigger] ns[i])
}

/// The components that plain names give: none is the current-directory
/// marker.
pub open spec fn plain_parts(ns: Seq<Seq<char>>) -> Seq<(bool, Seq<char>)> {
    Seq::new(ns.len(), |i: int| (false, ns[i]))
}

/// Calls `Path::components` and gives each component as a pair of "is the
/// current-directory marker" and its text; the result is named
/// `path_components`. As the documentation of `Path::components` describes,
/// `.` alone is the current-directory marker, and plain names joined with `/`
/// give back exactly those names as components.
#[verifier::external_body]
fn components_of(p: &str) -> (v: Vec<(bool, String)>)
    ensures
        parts_view(v@) == path_components(p@),
        p@ == "."@ ==> parts_view(v@) == seq![(true, "."@)],
        forall|ns: Seq<Seq<char>>|
            #![trigger joined(ns, "/"@)]
            ns.len() > 0 && plain_names(ns) && p@ == joined(ns, "/"@) ==> parts_view(v@)
                == plain_parts(ns),
{
    std::path::Path::new(p).components().map(
        |c| (c == std::path::Component::CurDir, c.as_os_str().to_string_lossy().into_owned()),
    ).collect()
}

/// The texts of the components that are not the current-directory marker.
pub open spec fn kept_names(parts: Seq<(bool, Seq<char>)>) -> Seq<Seq<char>>
    decreases parts.len(),
{
    if parts.len() == 0 {
        Seq::empty()
    } else if parts.last().0 {
        kept_names(parts.drop_last())
    } else {
        kept_names(parts.drop_last()).push(parts.last().1)
    }
}

/// The pieces joined with `sep` between consecutive ones.
pub open spec fn joined(pieces: Seq<Seq<char>>, sep: Seq<char>) -> Seq<char>
    decreases pieces.len(),
{
    if pieces.len() == 0 {
        Seq::empty()
    } else if pieces.len() == 1 {
        pieces[0]
    } else {
        joined(pieces.drop_last(), sep) + sep + pieces.last()
    }
}

/// A path written with `/` between its components, leaving out `.`
/// components; `.` when nothing is left.
pub open spec fn normalized(parts: Seq<(bool, Seq<char>)>) -> Seq<char> {
    let j = joined(kept_names(parts), "/"@);
    if j.len() == 0 {
        "."@
    } else {
        j
    }
}

/// Joins the non-`.` components with `/`, or gives `.` when nothing is left.
pub fn join_parts(parts: &Vec<(bool, String)>) -> (s: String)
    ensures
        s@ == normalized(parts_view(parts@)),
{
    let ghost pv = parts_view(parts@);
    let mut out = String::new();
    let mut count: usize = 0;
    let mut i: usize = 0;
    assert(pv.take(0) == Seq::<(bool, Seq<char>)>::empty());
    while i < parts.len()
        invariant
            pv == parts_view(parts@),
            i <= parts@.len(),
            count == kept_names(pv.take(i as int)).len(),
            count <= i,
            out@ == joined(kept_names(pv.take(i as int)), "/"@),
        decreases parts@.len() - i,
    {
        let ghost before = pv.take(i as int);
        assert(pv.take(i + 1).drop_last() == before);
        assert(pv.take(i + 1).last() == pv[i as int]);
        if !parts[i].0 {
            if count > 0 {
                out.append("/");
            }
            out.append(parts[i].1.as_str());
            count += 1;
            proof {
                let k = kept_names(pv.take(i + 1));
                assert(k.drop_last() == kept_names(before));
                if k.len() == 1 {
                    assert(kept_names(before).len() == 0);
                    assert(out@ == parts@[i as int].1@);
                }
            }
        }
        i += 1;
    }
    assert(pv.take(parts@.len() as int) == pv);
    if out.as_str().is_empty() {
        String::from_str(".")
    } else {
        out
    }
}

/// A path in the form that normalising gives: `.`, or plain names joined
/// with `/`.
pub open spec fn is_normal_path(t: Seq<char>) -> bool {
    t == "."@ || exists|ns: Seq<Seq<char>>|
        ns.len() > 0 && plain_names(ns) && t == #[trigger] joined(ns, "/"@)
}

proof fn lemma_kept_plain(ns: Seq<Seq<char>>)
    ensures
        kept_names(plain_parts(ns)) == ns,
    decreases ns.len(),
{
    if ns.len() > 0 {
        assert(plain_parts(ns).drop_last() == plain_parts(ns.drop_last()));
        lemma_kept_plain(ns.drop_last());
        assert(ns.drop_last().push(ns.last()) == ns);
    }
}

proof fn lemma_joined_not_empty(ns: Seq<Seq<char>>, sep: Seq<char>)
    requires
        ns.len() > 0,
        ns.last().len() > 0,
    ensures
        joined(ns, sep).len() > 0,
{
}

/// The relative path of a walked entry as it is shown: its components joined
/// with `/`, without `.` components, or `.` when nothing is left. A path
/// already in that form is given back unchanged, and when the names are plain
/// the result is in that form: normalising twice is normalising once.
pub fn normalize_path(p: &str) -> (s: String)
    ensures
        s@ == normalized(path_components(p@)),
        is_normal_path(p@) ==> s@ == p@,
        plain_names(kept_names(path_components(p@))) ==> is_normal_path(s@),
{
    let parts = components_of(p);
    let s = join_parts(&parts);
    proof {
        let k = kept_names(path_components(p@));
        if is_normal_path(p@) {
            if p@ == "."@ {
                let pc = path_components(p@);
                assert(pc == seq![(true, "."@)]);
                assert(pc.len() == 1 && pc.last().0);
                assert(pc.drop_last() == Seq::<(bool, Seq<char>)>::empty());
                assert(kept_names(pc) == kept_names(pc.drop_last()));
                assert(k == Seq::<Seq<char>>::empty());
            } else {
                let ns = choose|ns: Seq<Seq<char>>|
                    ns.len() > 0 && plain_names(ns) && p@ == #[trigger] joined(ns, "/"@);
                lemma_kept_plain(ns);
                assert(plain_name(ns[ns.len() - 1]));
                lemma_joined_not_empty(ns, "/"@);
            }
        }
        if plain_names(k) && k.len() > 0 {
            assert(plain_name(k[k.len() - 1]));
            lemma_joined_not_empty(k, "/"@);
            assert(s@ == joined(k, "/"@));
        }
    }
    s
}

/// The texts of a path's components, in order.
pub open spec fn component_texts_of(p: Seq<char>) -> Seq<Seq<char>> {
    Seq::new(path_components(p).len(), |i: int| path_components(p)[i].1)
}

/// The texts of a path's components, in order: the form in which the filter
/// compares absolute paths.
pub fn component_texts(p: &str) -> (v: Vec<String>)
    ensures
        v.deep_view() == component_texts_of(p@),
{
    let parts = components_of(p);
    let ghost pv = parts_view(parts@);
    let mut v: Vec<String> = Vec::new();
    let mut i: usize = 0;
    while i < parts.len()
        invariant
            pv == parts_view(parts@),
            pv == path_components(p@),
            i <= parts@.len(),
            v@.len() == i,
            forall|k: int| 0 <= k < i ==> #[trigger] v@[k]@ == pv[k].1,
        decreases parts@.len() - i,
    {
        v.push(parts[i].1.clone());
        i += 1;
    }
    assert(v.deep_view() =~= component_texts_of(p@));
    v
}

/// Whether path `p` (as components) begins with all the components of
/// `base`, as `Path::starts_with` decides it.
pub open spec fn is_prefix(base: Seq<Seq<char>>, p: Seq<Seq<char>>) -> bool {
    base.len() <= p.len() && p.take(base.len() as int) == base
}

/// Decides `is_prefix`.
pub fn has_prefix(p: &Vec<String>, base: &Vec<String>) -> (r: bool)
    ensures
        r == is_prefix(base.deep_view(), p.deep_view()),
{
    if base.len() > p.len() {
        return false;
    }
    let mut i: usize = 0;
    while i < base.len()
        invariant
            base@.len() <= p@.len(),
            i <= base@.len(),
            forall|k: int| 0 <= k < i ==> base.deep_view()[k] == p.deep_view()[k],
        decreases base@.len() - i,
    {
        if p[i] != base[i] {
            assert(p.deep_view().take(base@.len() as int)[i as int] != base.deep_view()[i as int]);
            return false;
        }
        i += 1;
    }
    assert(p.deep_view().take(base@.len() as int) == base.deep_view());
    true
}

/// The index of the last `.` in `n`, or -1 when there is none.
pub open spec fn last_dot(n: Seq<char>) -> int
    decreases n.len(),
{
    if n.len() == 0 {
        -1
    } else if n.last() == '.' {
        n.len() - 1
    } else {
        last_dot(n.drop_last())
    }
}

/// The extension of a file name, as `Path::extension` documents it: none for
/// `..`, for a name without `.`, or for a name whose only `.` is its first
/// character; otherwise the text after the last `.`.
pub open spec fn extension_of(name: Seq<char>) -> Option<Seq<char>> {
    let k = last_dot(name);
    if name == ".."@ || k <= 0 {
        None
    } else {
        Some(name.skip(k + 1))
    }
}

/// The extension of a file name.
pub fn file_extension(name: &str) -> (r: Option<String>)
    ensures
        r matches Some(e) ==> extension_of(name@) == Some(e@),
        r is None ==> extension_of(name@) is None,
{
    if str_eq(name, "..") {
        return None;
    }
    let v = chars_of(name);
    let mut j: usize = v.len();
    assert(v@.take(v@.len() as int) == v@);
    while j > 0 && v[j - 1] != '.'
        invariant
            v@ == name@,
            j <= v@.len(),
            last_dot(name@) == last_dot(v@.take(j as int)),
        decreases j,
    {
        assert(v@.take(j as int).drop_last() == v@.take(j - 1));
        j -= 1;
    }
    if j == 0 {
        return None;
    }
    assert(last_dot(v@.take(j as int)) == j - 1);
    if j == 1 {
        return None;
    }
    Some(string_from_range(&v, j, v.len()))
}

} // verus!
