use vstd::prelude::*;
use vstd::multiset::*;

use crate::text::{lemma_text_le_total, lemma_text_le_trans, text_le, text_le_exec};

verus! {

broadcast use vstd::multiset::group_multiset_axioms;

/// What `std::path::Path::file_stem` gives for a path: the name of its last
/// component without the final extension.
pub uninterp spec fn file_stem_of(p: Seq<char>) -> Option<Seq<char>>;

/// What `std::path::Path::extension` gives for a path: the text after the
/// last dot of the last component's name, if there is one.
pub uninterp spec fn extension_of(p: Seq<char>) -> Option<Seq<char>>;

/// The characters of an optional string.
pub open spec fn opt_view(o: Option<String>) -> Option<Seq<char>> {
    match o {
        Some(s) => Some(s@),
        None => None,
    }
}

/// The characters of each string.
pub open spec fn views(s: Seq<String>) -> Seq<Seq<char>> {
    s.map_values(|x: String| x@)
}

/// Relies on `std::path::Path::file_stem`, read back as a string.
#[verifier::external_body]
fn path_file_stem(p: &str) -> (r: Option<String>)
    ensures
        opt_view(r) == file_stem_of(p@),
{
    std::path::Path::new(p).file_stem().map(|s| s.to_string_lossy().into_owned())
}

/// Relies on `std::path::Path::extension`, read back as a string.
#[verifier::external_body]
fn path_extension(p: &str) -> (r: Option<String>)
    ensures
        opt_view(r) == extension_of(p@),
{
    std::path::Path::new(p).extension().map(|s| s.to_string_lossy().into_owned())
}

/// One entry of the session directory as listed by the caller.
#[derive(Debug, Clone)]
pub struct DirectoryEntry {
    /// Full path of the entry.
    pub path: String,
    /// The entry is a regular file (a directory or a broken link is not).
    pub is_file: bool,
}

impl DirectoryEntry {
    /// Builds an entry from its path and whether it is a regular file.
    pub fn new(path: String, is_file: bool) -> (r: Self)
        ensures
            r.path@ == path@,
            r.is_file == is_file,
    {
        DirectoryEntry { path, is_file }
    }
}

/// An entry is a session file: a regular file whose extension is exactly `vim`.
pub open spec fn is_session_file(e: DirectoryEntry) -> bool {
    e.is_file && extension_of(e.path@) == Some("vim"@)
}

/// The paths of the session files among `entries`, in listing order.
pub open spec fn session_paths(entries: Seq<DirectoryEntry>) -> Seq<Seq<char>>
    decreases entries.len(),
{
    if entries.len() == 0 {
        Seq::empty()
    } else {
        let rest = session_paths(entries.drop_last());
        if is_session_file(entries.last()) {
            rest.push(entries.last().path@)
        } else {
            rest
        }
    }
}

/// A path is kept by the scan exactly when it belongs to a listed entry that
/// is a regular file with extension `vim`.
pub proof fn lemma_scan_keeps_exactly_session_files(entries: Seq<DirectoryEntry>)
    ensures
        forall|p: Seq<char>|
            session_paths(entries).contains(p) <==> exists|i: int|
                0 <= i < entries.len() && is_session_file(entries[i]) && entries[i].path@ == p,
    decreases entries.len(),
{
    if entries.len() > 0 {
        let pre = entries.drop_last();
        let last = entries.len() - 1;
        lemma_scan_keeps_exactly_session_files(pre);
        let rest = session_paths(pre);
        let whole = session_paths(entries);
        assert forall|p: Seq<char>|
            whole.contains(p) <==> exists|i: int|
                0 <= i < entries.len() && is_session_file(entries[i]) && entries[i].path@ == p by {
            if whole.contains(p) {
                let j = whole.index_of(p);
                if j < rest.len() {
                    assert(rest[j] == p);
                    assert(rest.contains(p));
                    let i = choose|i: int|
                        0 <= i < pre.len() && is_session_file(pre[i]) && pre[i].path@ == p;
                    assert(entries[i] == pre[i]);
                } else {
                    assert(is_session_file(entries[last]) && entries[last].path@ == p);
                }
            }
            if exists|i: int|
                0 <= i < entries.len() && is_session_file(entries[i]) && entries[i].path@ == p {
                let i = choose|i: int|
                    0 <= i < entries.len() && is_session_file(entries[i]) && entries[i].path@ == p;
                if i < last {
                    assert(pre[i] == entries[i]);
                    assert(rest.contains(p));
                    let j = rest.index_of(p);
                    if is_session_file(entries.last()) {
                        assert(whole[j] == p);
                    }
                } else {
                    assert(whole == rest.push(p));
                    assert(whole[rest.len() as int] == p);
                }
            }
        }
    }
}

/// Paths in ascending order.
pub open spec fn is_sorted(s: Seq<Seq<char>>) -> bool {
    forall|i: int, j: int| 0 <= i < j < s.len() ==> text_le(s[i], s[j])
}

/// The display names of `paths`, in order: the stem of each path that has one.
pub open spec fn display_names(paths: Seq<Seq<char>>) -> Seq<Seq<char>>
    decreases paths.len(),
{
    if paths.len() == 0 {
        Seq::empty()
    } else {
        let rest = display_names(paths.drop_last());
        match file_stem_of(paths.last()) {
            Some(n) => rest.push(n),
            None => rest,
        }
    }
}

/// The paths among `paths` whose stem is one of `chosen`, in order.
pub open spec fn paths_named(paths: Seq<Seq<char>>, chosen: Seq<Seq<char>>) -> Seq<Seq<char>>
    decreases paths.len(),
{
    if paths.len() == 0 {
        Seq::empty()
    } else {
        let rest = paths_named(paths.drop_last(), chosen);
        match file_stem_of(paths.last()) {
            Some(n) => if chosen.contains(n) {
                rest.push(paths.last())
            } else {
                rest
            },
            None => rest,
        }
    }
}

proof fn lemma_insert_to_multiset<A>(s: Seq<A>, j: int, x: A)
    requires
        0 <= j <= s.len(),
    ensures
        s.insert(j, x).to_multiset() =~= s.to_multiset().insert(x),
{
    let t = s.insert(j, x);
    assert(t.remove(j) =~= s);
    t.to_multiset_ensures();
    assert(t.to_multiset().count(x) > 0) by {
        assert(t.contains(x)) by {
            assert(t[j] == x);
        }
    }
}

proof fn lemma_views_insert(s: Seq<String>, j: int, x: String)
    requires
        0 <= j <= s.len(),
    ensures
        views(s.insert(j, x)) =~= views(s).insert(j, x@),
{
}

/// Keeps the session files among `entries` and sorts their paths; `None`
/// when there is none.
pub fn select_session_files(entries: &Vec<DirectoryEntry>) -> (r: Option<Vec<String>>)
    ensures
        r is None <==> session_paths(entries@).len() == 0,
        r matches Some(v) ==> is_sorted(views(v@)) && views(v@).to_multiset()
            =~= session_paths(entries@).to_multiset(),
{
    let mut out: Vec<String> = Vec::new();
    let mut i: usize = 0;
    proof {
        views(out@).to_multiset_ensures();
        session_paths(entries@.subrange(0, 0)).to_multiset_ensures();
        assert(views(out@).to_multiset() =~= Multiset::empty());
    }
    while i < entries.len()
        invariant
            i <= entries@.len(),
            is_sorted(views(out@)),
            views(out@).to_multiset() =~= session_paths(entries@.subrange(0, i as int)).to_multiset(),
        decreases entries@.len() - i,
    {
        let e = &entries[i];
        let ghost pre = entries@.subrange(0, i as int);
        assert(entries@.subrange(0, i + 1).drop_last() =~= pre);
        assert(entries@.subrange(0, i + 1).last() == entries@[i as int]);
        proof {
            session_paths(pre).to_multiset_ensures();
        }
        let keep = if e.is_file {
            match path_extension(e.path.as_str()) {
                Some(ext) => {
                    proof {
                        reveal_strlit("vim");
                    }
                    ext == "vim".to_owned()
                },
                None => false,
            }
        } else {
            false
        };
        if keep {
            let x = e.path.clone();
            let mut j: usize = 0;
            while j < out.len() && text_le_exec(out[j].as_str(), x.as_str())
                invariant
                    j <= out@.len(),
                    forall|k: int| 0 <= k < j ==> text_le(out@[k]@, x@),
                decreases out@.len() - j,
            {
                j = j + 1;
            }
            let ghost old_out = out@;
            proof {
                if j < old_out.len() {
                    lemma_text_le_total(old_out[j as int]@, x@);
                    assert forall|k: int| j <= k < old_out.len() implies text_le(x@, old_out[k]@) by {
                        if k > j {
                            assert(views(old_out)[j as int] == old_out[j as int]@);
                            assert(views(old_out)[k] == old_out[k]@);
                            lemma_text_le_trans(x@, old_out[j as int]@, old_out[k]@);
                        }
                    }
                }
                lemma_views_insert(old_out, j as int, x);
                lemma_insert_to_multiset(views(old_out), j as int, x@);
                views(old_out).to_multiset_ensures();
            }
            out.insert(j, x);
            proof {
                assert(out@ == old_out.insert(j as int, x));
                assert forall|a: int, b: int| 0 <= a < b < out@.len() implies text_le(
                    views(out@)[a],
                    views(out@)[b],
                ) by {
                    if b < j {
                    } else if a < j && b == j {
                    } else if a < j {
                        assert(views(out@)[b] == old_out[b - 1]@);
                        assert(text_le(old_out[a]@, x@));
                        if j < old_out.len() {
                            lemma_text_le_trans(old_out[a]@, x@, old_out[b - 1]@);
                        }
                    } else if a == j {
                    } else {
                        assert(views(out@)[a] == old_out[a - 1]@);
                        assert(views(out@)[b] == old_out[b - 1]@);
                    }
                }
            }
        }
        i = i + 1;
    }
    assert(entries@.subrange(0, entries@.len() as int) =~= entries@);
    proof {
        views(out@).to_multiset_ensures();
        session_paths(entries@).to_multiset_ensures();
    }
    if out.len() == 0 {
        None
    } else {
        Some(out)
    }
}

/// The display name of every session path that has one, in order.
pub fn extract_filename(sessions: &Vec<String>) -> (r: Vec<String>)
    ensures
        views(r@) == display_names(views(sessions@)),
{
    let mut out: Vec<String> = Vec::new();
    let mut i: usize = 0;
    while i < sessions.len()
        invariant
            i <= sessions@.len(),
            views(out@) == display_names(views(sessions@.subrange(0, i as int))),
        decreases sessions@.len() - i,
    {
        assert(views(sessions@.subrange(0, i + 1)).drop_last() =~= views(sessions@.subrange(0, i as int)));
        if let Some(name) = path_file_stem(sessions[i].as_str()) {
            out.push(name);
        }
        assert(views(out@) =~= display_names(views(sessions@.subrange(0, i + 1))));
        i = i + 1;
    }
    assert(sessions@.subrange(0, sessions@.len() as int) =~= sessions@);
    out
}

/// Tells whether `names` holds `x`.
fn contains_name(names: &Vec<String>, x: &String) -> (r: bool)
    ensures
        r == views(names@).contains(x@),
{
    let mut i: usize = 0;
    while i < names.len()
        invariant
            i <= names@.len(),
            forall|k: int| 0 <= k < i ==> names@[k]@ != x@,
        decreases names@.len() - i,
    {
        if names[i] == *x {
            assert(views(names@)[i as int] == x@);
            return true;
        }
        i = i + 1;
    }
    false
}

/// The paths among `sessions` whose display name is one of `chosen`, in
/// the order of `sessions`.
pub fn sessions_named(sessions: &Vec<String>, chosen: &Vec<String>) -> (r: Vec<String>)
    ensures
        views(r@) == paths_named(views(sessions@), views(chosen@)),
{
    let mut out: Vec<String> = Vec::new();
    let mut i: usize = 0;
    while i < sessions.len()
        invariant
            i <= sessions@.len(),
            views(out@) == paths_named(views(sessions@.subrange(0, i as int)), views(chosen@)),
        decreases sessions@.len() - i,
    {
        assert(views(sessions@.subrange(0, i + 1)).drop_last() =~= views(sessions@.subrange(0, i as int)));
        if let Some(name) = path_file_stem(sessions[i].as_str()) {
            if contains_name(chosen, &name) {
                out.push(sessions[i].clone());
            }
        }
        assert(views(out@) =~= paths_named(views(sessions@.subrange(0, i + 1)), views(chosen@)));
        i = i + 1;
    }
    assert(sessions@.subrange(0, sessions@.len() as int) =~= sessions@);
    out
}

/// The first session path whose display name is `choice`.
pub fn session_named(sessions: &Vec<String>, choice: &str) -> (r: Option<String>)
    ensures
        r is None <==> forall|k: int| 0 <= k < sessions@.len() ==> file_stem_of(sessions@[k]@) != Some(choice@),
        r matches Some(p) ==> exists|k: int| 0 <= k < sessions@.len() && sessions@[k]@ == p@
            && file_stem_of(sessions@[k]@) == Some(choice@)
            && forall|m: int| 0 <= m < k ==> file_stem_of(sessions@[m]@) != Some(choice@),
{
    let target = choice.to_owned();
    let mut i: usize = 0;
    while i < sessions.len()
        invariant
            i <= sessions@.len(),
            target@ == choice@,
            forall|k: int| 0 <= k < i ==> file_stem_of(sessions@[k]@) != Some(choice@),
        decreases sessions@.len() - i,
    {
        if let Some(name) = path_file_stem(sessions[i].as_str()) {
            if name == target {
                return Some(sessions[i].clone());
            }
        }
        i = i + 1;
    }
    None
}

} // verus!
