//! Recursive directory scanning over a snapshot of the file system.
//!
//! The scanner works on an explicit tree of directory entries. The caller
//! walks the real file system, records each file by name and each directory
//! by name together with whether it could be read, and hands the tree to
//! [`find_audio_files`], which returns the relative paths of all supported
//! audio files, in traversal order.

use vstd::prelude::*;

verus! {

/// One node of a directory-tree snapshot: a plain file, or a directory with
/// its entries. A directory that could not be read is recorded with
/// `readable == false`; its entries are ignored by the scanner.
#[derive(Debug)]
pub enum FsEntry {
    File { name: String },
    Dir { name: String, readable: bool, entries: Vec<FsEntry> },
}

/// The path of `name` under `prefix`: `name` itself at the root, otherwise
/// the two joined with `/`.
pub open spec fn path_join(prefix: Seq<char>, name: Seq<char>) -> Seq<char> {
    if prefix.len() == 0 {
        name
    } else {
        prefix + seq!['/'] + name
    }
}

/// `p` ends in `.` followed by `ext`, with at least one character of file
/// name before the dot (so a name like `.mp3` has no extension).
pub open spec fn supported_ext_at(p: Seq<char>, ext: Seq<char>) -> bool {
    &&& p.len() >= ext.len() + 2
    &&& p[p.len() - ext.len() - 1] == '.'
    &&& p.subrange(p.len() - ext.len(), p.len() as int) == ext
    &&& p[p.len() - ext.len() - 2] != '/'
}

/// The fixed, case-sensitive allow-list of audio extensions.
pub open spec fn is_supported_audio_path(p: Seq<char>) -> bool {
    ||| supported_ext_at(p, "mp3"@)
    ||| supported_ext_at(p, "m4a"@)
    ||| supported_ext_at(p, "flac"@)
    ||| supported_ext_at(p, "wav"@)
    ||| supported_ext_at(p, "ogg"@)
}

/// Everything the scan of a single entry yields, relative to `prefix`.
pub open spec fn scan_entry(prefix: Seq<char>, e: FsEntry) -> Seq<Seq<char>>
    decreases e,
{
    match e {
        FsEntry::File { name } => {
            if is_supported_audio_path(path_join(prefix, name@)) {
                seq![path_join(prefix, name@)]
            } else {
                Seq::empty()
            }
        },
        FsEntry::Dir { name, readable, entries } => {
            if readable {
                scan_entries(path_join(prefix, name@), entries@)
            } else {
                Seq::empty()
            }
        },
    }
}

/// The scan of a sequence of sibling entries, in order.
pub open spec fn scan_entries(prefix: Seq<char>, es: Seq<FsEntry>) -> Seq<Seq<char>>
    decreases es,
{
    if es.len() == 0 {
        Seq::empty()
    } else {
        scan_entry(prefix, es[0]) + scan_entries(prefix, es.subrange(1, es.len() as int))
    }
}

/// The whole scan: the entries of a readable root directory, with paths
/// relative to the root. Anything else (a file, an unreadable root) yields
/// nothing.
pub open spec fn scan_root(root: FsEntry) -> Seq<Seq<char>> {
    match root {
        FsEntry::Dir { name, readable, entries } => {
            if readable {
                scan_entries(Seq::empty(), entries@)
            } else {
                Seq::empty()
            }
        },
        FsEntry::File { .. } => Seq::empty(),
    }
}

/// Every file path under `e`, at any depth, relative to `prefix`, whatever
/// its extension; directories themselves contribute no path.
pub open spec fn all_files_entry(prefix: Seq<char>, e: FsEntry) -> Seq<Seq<char>>
    decreases e,
{
    match e {
        FsEntry::File { name } => seq![path_join(prefix, name@)],
        FsEntry::Dir { name, readable, entries } => all_files_entries(
            path_join(prefix, name@),
            entries@,
        ),
    }
}

/// Every file path under a sequence of sibling entries.
pub open spec fn all_files_entries(prefix: Seq<char>, es: Seq<FsEntry>) -> Seq<Seq<char>>
    decreases es,
{
    if es.len() == 0 {
        Seq::empty()
    } else {
        all_files_entry(prefix, es[0]) + all_files_entries(prefix, es.subrange(1, es.len() as int))
    }
}

/// Every file path in the tree of a readable root directory.
pub open spec fn all_files_root(root: FsEntry) -> Seq<Seq<char>> {
    match root {
        FsEntry::Dir { name, readable, entries } => {
            if readable {
                all_files_entries(Seq::empty(), entries@)
            } else {
                Seq::empty()
            }
        },
        FsEntry::File { .. } => Seq::empty(),
    }
}

/// Every directory in the tree under `e` is readable.
pub open spec fn entry_all_readable(e: FsEntry) -> bool
    decreases e,
{
    match e {
        FsEntry::File { .. } => true,
        FsEntry::Dir { name, readable, entries } => readable && entries_all_readable(entries@),
    }
}

/// Every directory in the trees under `es` is readable.
pub open spec fn entries_all_readable(es: Seq<FsEntry>) -> bool
    decreases es,
{
    if es.len() == 0 {
        true
    } else {
        entry_all_readable(es[0]) && entries_all_readable(es.subrange(1, es.len() as int))
    }
}

proof fn lemma_scan_entry_filters(prefix: Seq<char>, e: FsEntry)
    requires
        entry_all_readable(e),
    ensures
        scan_entry(prefix, e) == all_files_entry(prefix, e).filter(
            |p: Seq<char>| is_supported_audio_path(p),
        ),
    decreases e,
{
    let pred = |p: Seq<char>| is_supported_audio_path(p);
    reveal(Seq::filter);
    match e {
        FsEntry::File { name } => {
            let p = path_join(prefix, name@);
            assert(seq![p].drop_last() =~= Seq::<Seq<char>>::empty());
            assert(Seq::<Seq<char>>::empty().filter(pred) =~= Seq::<Seq<char>>::empty());
            assert(seq![p].last() == p);
            assert(Seq::<Seq<char>>::empty().push(p) =~= seq![p]);
            assert(seq![p].filter(pred) == if pred(p) {
                seq![p]
            } else {
                Seq::<Seq<char>>::empty()
            });
        },
        FsEntry::Dir { name, readable, entries } => {
            lemma_scan_entries_filter(path_join(prefix, name@), entries@);
        },
    }
}

proof fn lemma_scan_entries_filter(prefix: Seq<char>, es: Seq<FsEntry>)
    requires
        entries_all_readable(es),
    ensures
        scan_entries(prefix, es) == all_files_entries(prefix, es).filter(
            |p: Seq<char>| is_supported_audio_path(p),
        ),
    decreases es,
{
    let pred = |p: Seq<char>| is_supported_audio_path(p);
    if es.len() == 0 {
        reveal(Seq::filter);
        assert(all_files_entries(prefix, es).filter(pred) =~= Seq::<Seq<char>>::empty());
    } else {
        let rest = es.subrange(1, es.len() as int);
        lemma_scan_entry_filters(prefix, es[0]);
        lemma_scan_entries_filter(prefix, rest);
        Seq::filter_distributes_over_add(
            all_files_entry(prefix, es[0]),
            all_files_entries(prefix, rest),
            pred,
        );
    }
}

/// The scanner's result is exactly the set of files at any depth whose
/// extension is on the allow-list: for a fully readable tree, the scan is the
/// allow-list filtering of all file paths in the tree, and membership in the
/// result is equivalent to being a supported file of the tree.
pub proof fn lemma_scan_finds_exactly_supported_files(root: FsEntry)
    requires
        entry_all_readable(root),
    ensures
        scan_root(root) == all_files_root(root).filter(|p: Seq<char>| is_supported_audio_path(p)),
        forall|p: Seq<char>|
            #[trigger] scan_root(root).contains(p) <==> all_files_root(root).contains(p)
                && is_supported_audio_path(p),
{
    let pred = |p: Seq<char>| is_supported_audio_path(p);
    match root {
        FsEntry::Dir { name, readable, entries } => {
            lemma_scan_entries_filter(Seq::empty(), entries@);
        },
        FsEntry::File { .. } => {
            reveal(Seq::filter);
            assert(all_files_root(root).filter(pred) =~= Seq::<Seq<char>>::empty());
        },
    }
    let all = all_files_root(root);
    #[allow(deprecated)]
    all.filter_lemma(pred);
    assert forall|p: Seq<char>| #[trigger]
        scan_root(root).contains(p) implies all.contains(p) && is_supported_audio_path(p) by {
        let i = choose|i: int| 0 <= i < all.filter(pred).len() && all.filter(pred)[i] == p;
        assert(pred(all.filter(pred)[i]));
        lemma_filter_is_subset_of(all, pred, p);
    }
    assert forall|p: Seq<char>|
        all.contains(p) && is_supported_audio_path(p) implies #[trigger] scan_root(
        root,
    ).contains(p) by {
        let i = choose|i: int| 0 <= i < all.len() && all[i] == p;
        assert(all.filter(pred).contains(all[i]));
    }
}

/// Everything the filtered sequence holds was in the original sequence.
proof fn lemma_filter_is_subset_of<A>(s: Seq<A>, pred: spec_fn(A) -> bool, x: A)
    requires
        s.filter(pred).contains(x),
    ensures
        s.contains(x),
    decreases s.len(),
{
    reveal(Seq::filter);
    if s.len() > 0 {
        if s.drop_last().filter(pred).contains(x) {
            lemma_filter_is_subset_of(s.drop_last(), pred, x);
            let i = choose|i: int| 0 <= i < s.drop_last().len() && s.drop_last()[i] == x;
            assert(s[i] == x);
        } else {
            assert(x == s.last());
        }
    }
}

/// An unreadable directory among a list of siblings contributes nothing, and
/// leaves the scan of every readable sibling unchanged: the scan of the whole
/// list is exactly the scan of the siblings before it followed by the scan of
/// the siblings after it.
pub proof fn lemma_unreadable_subtree_isolated(
    prefix: Seq<char>,
    before: Seq<FsEntry>,
    blocked: FsEntry,
    after: Seq<FsEntry>,
)
    requires
        blocked matches FsEntry::Dir { readable: false, .. },
    ensures
        scan_entries(prefix, before + seq![blocked] + after) == scan_entries(prefix, before)
            + scan_entries(prefix, after),
{
    lemma_scan_entries_concat(prefix, before + seq![blocked], after);
    lemma_scan_entries_concat(prefix, before, seq![blocked]);
    assert(seq![blocked].subrange(1, 1) =~= Seq::<FsEntry>::empty());
    assert(scan_entries(prefix, Seq::<FsEntry>::empty()) =~= Seq::<Seq<char>>::empty());
    assert(seq![blocked][0] == blocked);
    assert(scan_entry(prefix, blocked) =~= Seq::<Seq<char>>::empty());
    assert(scan_entries(prefix, seq![blocked]) =~= Seq::<Seq<char>>::empty());
    assert(scan_entries(prefix, before) + Seq::<Seq<char>>::empty() =~= scan_entries(
        prefix,
        before,
    ));
}

fn join_path(prefix: &str, name: &str) -> (r: String)
    ensures
        r@ == path_join(prefix@, name@),
{
    if prefix.unicode_len() == 0 {
        name.to_owned()
    } else {
        let mut r = prefix.to_owned();
        r.append("/");
        r.append(name);
        proof {
            reveal_strlit("/");
            assert(r@ =~= prefix@ + seq!['/'] + name@);
        }
        r
    }
}

/// Whether `path` ends in a `.` plus exactly `ext`, with a character that is
/// not a separator in front of the dot.
fn ext_matches(path: &str, ext: &str) -> (r: bool)
    requires
        1 <= ext@.len() <= 8,
    ensures
        r == supported_ext_at(path@, ext@),
{
    let n = path.unicode_len();
    let m = ext.unicode_len();
    if n < m + 2 {
        return false;
    }
    if path.get_char(n - m - 1) != '.' {
        return false;
    }
    if path.get_char(n - m - 2) == '/' {
        return false;
    }
    let ghost sub = path@.subrange(n - m, n as int);
    let mut i: usize = 0;
    while i < m
        invariant
            0 <= i <= m,
            n == path@.len(),
            m == ext@.len(),
            n >= m + 2,
            sub == path@.subrange(n - m, n as int),
            forall|j: int| 0 <= j < i ==> path@[n - m + j] == ext@[j],
        decreases m - i,
    {
        if path.get_char(n - m + i) != ext.get_char(i) {
            proof {
                assert(sub[i as int] == path@[n - m + i]);
            }
            return false;
        }
        i += 1;
    }
    proof {
        assert(path@.subrange(n - m, n as int) =~= ext@);
    }
    true
}

/// Whether a path names a supported audio file: its extension is one of
/// `mp3`, `m4a`, `flac`, `wav`, `ogg`, compared case-sensitively.
pub fn is_supported_audio_file(path: &str) -> (r: bool)
    ensures
        r == is_supported_audio_path(path@),
{
    proof {
        reveal_strlit("mp3");
        reveal_strlit("m4a");
        reveal_strlit("flac");
        reveal_strlit("wav");
        reveal_strlit("ogg");
    }
    ext_matches(path, "mp3") || ext_matches(path, "m4a") || ext_matches(path, "flac")
        || ext_matches(path, "wav") || ext_matches(path, "ogg")
}

/// Splitting a list of siblings splits its scan.
proof fn lemma_scan_entries_concat(prefix: Seq<char>, a: Seq<FsEntry>, b: Seq<FsEntry>)
    ensures
        scan_entries(prefix, a + b) == scan_entries(prefix, a) + scan_entries(prefix, b),
    decreases a,
{
    if a.len() == 0 {
        assert(a + b =~= b);
        assert(scan_entries(prefix, a) + scan_entries(prefix, b) =~= scan_entries(prefix, b));
    } else {
        assert((a + b).subrange(1, (a + b).len() as int) =~= a.subrange(1, a.len() as int) + b);
        lemma_scan_entries_concat(prefix, a.subrange(1, a.len() as int), b);
        assert((a + b)[0] == a[0]);
        assert(scan_entry(prefix, a[0]) + (scan_entries(prefix, a.subrange(1, a.len() as int))
            + scan_entries(prefix, b)) =~= (scan_entry(prefix, a[0]) + scan_entries(
            prefix,
            a.subrange(1, a.len() as int),
        )) + scan_entries(prefix, b));
    }
}

fn collect_entry(prefix: &str, e: &FsEntry, out: &mut Vec<String>)
    ensures
        final(out).deep_view() == old(out).deep_view() + scan_entry(prefix@, *e),
    decreases *e,
{
    match e {
        FsEntry::File { name } => {
            let full = join_path(prefix, name.as_str());
            if is_supported_audio_file(full.as_str()) {
                out.push(full);
                assert(out.deep_view() =~= old(out).deep_view() + scan_entry(prefix@, *e));
            } else {
                assert(out.deep_view() =~= old(out).deep_view() + scan_entry(prefix@, *e));
            }
        },
        FsEntry::Dir { name, readable, entries } => {
            if *readable {
                let child_prefix = join_path(prefix, name.as_str());
                collect_entries(child_prefix.as_str(), entries, out);
            } else {
                assert(out.deep_view() =~= old(out).deep_view() + scan_entry(prefix@, *e));
            }
        },
    }
}

fn collect_entries(prefix: &str, entries: &Vec<FsEntry>, out: &mut Vec<String>)
    ensures
        final(out).deep_view() == old(out).deep_view() + scan_entries(prefix@, entries@),
    decreases entries@,
{
    let mut i: usize = 0;
    while i < entries.len()
        invariant
            0 <= i <= entries@.len(),
            out.deep_view() == old(out).deep_view() + scan_entries(
                prefix@,
                entries@.subrange(0, i as int),
            ),
        decreases entries@.len() - i,
    {
        proof {
            assert(decreases_to!(entries@ => entries@[i as int]));
        }
        collect_entry(prefix, &entries[i], out);
        proof {
            assert(entries@.subrange(0, i + 1) =~= entries@.subrange(0, i as int) + seq![
                entries@[i as int],
            ]);
            lemma_scan_entries_concat(
                prefix@,
                entries@.subrange(0, i as int),
                seq![entries@[i as int]],
            );
            assert(seq![entries@[i as int]].subrange(1, 1) =~= Seq::<FsEntry>::empty());
            assert(scan_entries(prefix@, Seq::<FsEntry>::empty()) =~= Seq::<Seq<char>>::empty());
            assert(seq![entries@[i as int]][0] == entries@[i as int]);
            assert(scan_entries(prefix@, seq![entries@[i as int]]) =~= scan_entry(
                prefix@,
                entries@[i as int],
            ));
        }
        i += 1;
    }
    proof {
        assert(entries@.subrange(0, entries@.len() as int) =~= entries@);
    }
}

/// Recursively scans a directory-tree snapshot and returns the paths,
/// relative to `root`, of every file in a readable directory whose extension
/// is on the audio allow-list, in traversal order.
pub fn find_audio_files(root: &FsEntry) -> (r: Vec<String>)
    ensures
        r.deep_view() == scan_root(*root),
{
    let mut out: Vec<String> = Vec::new();
    match root {
        FsEntry::Dir { name, readable, entries } => {
            if *readable {
                collect_entries("", entries, &mut out);
                proof {
                    reveal_strlit("");
                    assert(""@ =~= Seq::<char>::empty());
                }
            }
        },
        FsEntry::File { .. } => {},
    }
    assert(out.deep_view() =~= scan_root(*root));
    out
}

} // verus!
