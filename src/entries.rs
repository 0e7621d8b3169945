//! Decisions on staged content: which archive entries are extracted, which
//! staged files are plugins, and which installed folders a package replaces.
use vstd::prelude::*;
use crate::mod_string::{PackageIdentifier, splits_as, lemma_split_unique};

verus! {

/// What to do with one archive entry.
pub enum EntryAction {
    Skip,
    CreateDir,
    WriteFile,
}

pub open spec fn is_separator(c: char) -> bool {
    c == '/' || c == '\\'
}

/// Some path component of `p` is exactly `..`.
pub open spec fn has_parent_ref(p: Seq<char>) -> bool {
    exists|i: int|
        #![trigger p[i]]
        0 <= i && i + 2 <= p.len() && p[i] == '.' && p[i + 1] == '.' && (i == 0 || is_separator(
            p[i - 1],
        )) && (i + 2 == p.len() || is_separator(p[i + 2]))
}

/// `p` starts with the hidden-file marker `.`.
pub open spec fn is_hidden(p: Seq<char>) -> bool {
    p.len() > 0 && p[0] == '.'
}

/// An entry whose enclosed path is `p` may be written into the staging folder.
pub open spec fn is_extractable(p: Seq<char>) -> bool {
    !is_hidden(p) && !has_parent_ref(p)
}

/// Decides the fate of an archive entry with raw name `raw` and enclosed path
/// `enclosed` (absent when the archive reader found no safe relative path).
/// Entries without a path, with a hidden leading component or with a `..`
/// component are skipped; a name ending in `/` is a directory.
pub fn entry_action(raw: &str, enclosed: Option<&str>) -> (r: EntryAction)
    ensures
        r is Skip <==> (enclosed is None || !is_extractable(enclosed->Some_0@)),
        r is CreateDir <==> (!(r is Skip) && raw@.len() > 0 && raw@.last() == '/'),
{
    if enclosed.is_none() {
        return EntryAction::Skip;
    }
    let p = enclosed.unwrap();
    let len = p.unicode_len();
    if len > 0 && p.get_char(0) == '.' {
        return EntryAction::Skip;
    }
    let mut i: usize = 0;
    while i < len
        invariant
            i <= len,
            enclosed == Some(p),
            len == p@.len(),
            forall|k: int|
                #![trigger p@[k]]
                0 <= k < i && k + 2 <= p@.len() ==> !(p@[k] == '.' && p@[k + 1] == '.' && (k == 0
                    || is_separator(p@[k - 1])) && (k + 2 == p@.len() || is_separator(p@[k + 2]))),
        decreases len - i,
    {
        if i + 1 < len && p.get_char(i) == '.' && p.get_char(i + 1) == '.' && (i == 0 || is_sep(
            p.get_char(i - 1),
        )) && (i + 2 == len || is_sep(p.get_char(i + 2))) {
            proof {
                let k = i as int;
                assert(0 <= k && k + 2 <= p@.len() && p@[k] == '.' && p@[k + 1] == '.' && (k == 0
                    || is_separator(p@[k - 1])) && (k + 2 == p@.len() || is_separator(p@[k + 2])));
                assert(has_parent_ref(p@));
            }
            return EntryAction::Skip;
        }
        i = i + 1;
    }
    let rl = raw.unicode_len();
    if rl > 0 && raw.get_char(rl - 1) == '/' {
        EntryAction::CreateDir
    } else {
        EntryAction::WriteFile
    }
}

fn is_sep(c: char) -> (r: bool)
    ensures
        r == is_separator(c),
{
    c == '/' || c == '\\'
}

/// A file name whose extension is `dll`: a dot at some index above zero,
/// followed by `dll` and nothing else.
pub open spec fn is_plugin_name(f: Seq<char>) -> bool {
    f.len() > 4 && f.subrange(f.len() - 4, f.len() as int) == seq!['.', 'd', 'l', 'l']
}

/// Whether a staged file name marks a native plugin binary.
pub fn is_plugin_file(f: &str) -> (r: bool)
    ensures
        r == is_plugin_name(f@),
{
    let n = f.unicode_len();
    if n <= 4 {
        return false;
    }
    let r = f.get_char(n - 4) == '.' && f.get_char(n - 3) == 'd' && f.get_char(n - 2) == 'l'
        && f.get_char(n - 1) == 'l';
    assert(r == (f@.subrange(n - 4, n as int) =~= seq!['.', 'd', 'l', 'l']));
    r
}

pub open spec fn views(v: Seq<String>) -> Seq<Seq<char>> {
    v.map_values(|x: String| x@)
}

/// The elements of `s` that satisfy `p`, in their order.
pub open spec fn select(s: Seq<Seq<char>>, p: spec_fn(Seq<char>) -> bool) -> Seq<Seq<char>>
    decreases s.len(),
{
    if s.len() == 0 {
        Seq::empty()
    } else if p(s.last()) {
        select(s.drop_last(), p).push(s.last())
    } else {
        select(s.drop_last(), p)
    }
}

pub open spec fn plugin_pred() -> spec_fn(Seq<char>) -> bool {
    |f: Seq<char>| is_plugin_name(f)
}

/// The folder `d` holds an install of a package named `name`, whatever its
/// author and version.
pub open spec fn installs_name(d: Seq<char>, name: Seq<char>) -> bool {
    exists|a: Seq<char>, v: Seq<char>| splits_as(d, a, name, v)
}

pub open spec fn conflict_pred(name: Seq<char>) -> spec_fn(Seq<char>) -> bool {
    |d: Seq<char>| installs_name(d, name)
}

/// The plugin files among the names listed in a staged `plugins` folder.
pub fn plugin_files(listing: &Vec<String>) -> (r: Vec<String>)
    ensures
        views(r@) == select(views(listing@), plugin_pred()),
{
    let mut r: Vec<String> = Vec::new();
    let mut i: usize = 0;
    while i < listing.len()
        invariant
            i <= listing.len(),
            views(r@) == select(views(listing@).take(i as int), plugin_pred()),
        decreases listing.len() - i,
    {
        let f = &listing[i];
        proof {
            let s = views(listing@).take(i as int + 1);
            assert(s.drop_last() =~= views(listing@).take(i as int));
            assert(s.last() == f@);
        }
        if is_plugin_file(f.as_str()) {
            r.push(f.clone());
            assert(views(r@) =~= select(views(listing@).take(i as int), plugin_pred()).push(f@));
        }
        i = i + 1;
    }
    assert(views(listing@).take(listing.len() as int) =~= views(listing@));
    r
}

/// The installed folders, among `dirs`, that hold a package with the same
/// name as `incoming`; author and version play no part.
pub fn conflicting_dirs(incoming: &PackageIdentifier, dirs: &Vec<String>) -> (r: Vec<String>)
    ensures
        views(r@) == select(views(dirs@), conflict_pred(incoming.name@)),
{
    let mut r: Vec<String> = Vec::new();
    let mut i: usize = 0;
    while i < dirs.len()
        invariant
            i <= dirs.len(),
            views(r@) == select(views(dirs@).take(i as int), conflict_pred(incoming.name@)),
        decreases dirs.len() - i,
    {
        let d = &dirs[i];
        proof {
            let s = views(dirs@).take(i as int + 1);
            assert(s.drop_last() =~= views(dirs@).take(i as int));
            assert(s.last() == d@);
        }
        let hit = match PackageIdentifier::parse(d.as_str()) {
            Ok(id) => {
                proof {
                    if installs_name(d@, incoming.name@) {
                        let (a, v) = choose|a: Seq<char>, v: Seq<char>|
                            splits_as(d@, a, incoming.name@, v);
                        lemma_split_unique(d@, id.author@, id.name@, id.version@, a, incoming.name@, v);
                    }
                }
                id.name.eq(&incoming.name)
            },
            Err(_) => false,
        };
        if hit {
            r.push(d.clone());
            assert(views(r@) =~= select(views(dirs@).take(i as int), conflict_pred(incoming.name@)).push(d@));
        }
        i = i + 1;
    }
    assert(views(dirs@).take(dirs.len() as int) =~= views(dirs@));
    r
}

} // verus!
