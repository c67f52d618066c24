//! Tree materializer.
//!
//! A flat list of path strings, as returned by a "list all paths"
//! endpoint, is turned into either a recursive listing (one entry per
//! in-scope path) or a one-level listing of immediate children
//! (deduplicated by child name, first occurrence winning). A directory is
//! recognised by a trailing separator on its own entry, or implicitly by
//! being a path prefix of a deeper entry. Every entry gets a stable
//! identifier: the first sixteen hexadecimal characters of the SHA-256
//! digest of its path, so repeated listings of the same path agree.

use vstd::prelude::*;

use crate::digest::{sha256_hex, spec_sha256_hex};
use crate::strutil::{
    ends_with_char, find_char, first_segment, last_segment, last_segment_str,
    lemma_first_segment_take, lemma_first_segment_whole, path_sep,
    spec_contains_char, spec_ends_with_char, spec_starts_with, starts_with, str_eq, trim_both,
    trim_char, trim_end_char, trim_trailing,
};
use crate::types::{TreeItem, TreeItemView};
use vstd::utf8::encode_utf8;

verus! {

/// The ghost images of a sequence of tree entries.
pub open spec fn items_view(v: Seq<TreeItem>) -> Seq<TreeItemView> {
    v.map_values(|t: TreeItem| t@)
}

/// The character sequences of a sequence of strings.
pub open spec fn views_of(v: Seq<String>) -> Seq<Seq<char>> {
    v.map_values(|s: String| s@)
}

/// The mode string of a directory entry.
pub open spec fn dir_mode() -> Seq<char> {
    "040000"@
}

/// The mode string of a file entry.
pub open spec fn file_mode() -> Seq<char> {
    "100644"@
}

/// The stable identifier derived from a path: the first sixteen
/// hexadecimal characters of the SHA-256 digest of its UTF-8 bytes.
pub open spec fn spec_item_id(p: Seq<char>) -> Seq<char> {
    spec_sha256_hex(encode_utf8(p)).take(16)
}

/// The tree entry a single path materializes to in a recursive listing:
/// a directory exactly when the path carries a trailing separator, the
/// stored path with trailing separators removed, the name its last
/// segment, the identifier derived from the trimmed path.
pub open spec fn spec_tree_entry(p: Seq<char>) -> TreeItemView {
    let is_dir = spec_ends_with_char(p, path_sep());
    let t = trim_trailing(p, path_sep());
    TreeItemView {
        id: spec_item_id(t),
        name: last_segment(t),
        item_type: if is_dir {
            "tree"@
        } else {
            "blob"@
        },
        path: t,
        mode: if is_dir {
            dir_mode()
        } else {
            file_mode()
        },
    }
}

/// True when a path lies in the given (already normalized) scope: every
/// path is in the empty scope; otherwise the path, with trailing
/// separators removed, must equal the scope or continue it past a
/// separator.
pub open spec fn in_scope(p: Seq<char>, prefix: Seq<char>) -> bool {
    prefix.len() == 0 || {
        let t = trim_trailing(p, path_sep());
        t == prefix || spec_starts_with(t, prefix.push(path_sep()))
    }
}

/// The subsequence of `l` lying in the scope, in order.
pub open spec fn filter_scope(l: Seq<Seq<char>>, prefix: Seq<char>) -> Seq<Seq<char>>
    decreases l.len(),
{
    if l.len() == 0 {
        Seq::empty()
    } else {
        let rest = filter_scope(l.drop_last(), prefix);
        if in_scope(l.last(), prefix) {
            rest.push(l.last())
        } else {
            rest
        }
    }
}

/// The recursive listing: one entry per in-scope path, in order.
pub open spec fn recursive_entries(l: Seq<Seq<char>>, prefix: Seq<char>) -> Seq<TreeItemView>
    decreases l.len(),
{
    if l.len() == 0 {
        Seq::empty()
    } else {
        let rest = recursive_entries(l.drop_last(), prefix);
        if in_scope(l.last(), prefix) {
            rest.push(spec_tree_entry(l.last()))
        } else {
            rest
        }
    }
}

/// A path relative to the scope: the part after the scope and its
/// separator when the path continues the scope, the path itself
/// otherwise.
pub open spec fn rel_path(p: Seq<char>, prefix: Seq<char>) -> Seq<char> {
    if prefix.len() == 0 {
        p
    } else if spec_starts_with(p, prefix.push(path_sep())) {
        p.skip(prefix.len() as int + 1)
    } else {
        p
    }
}

/// The immediate-child name a path contributes under the scope: the first
/// segment of its relative path, trailing separators removed.
pub open spec fn child_name(p: Seq<char>, prefix: Seq<char>) -> Seq<char> {
    first_segment(trim_trailing(rel_path(p, prefix), path_sep()))
}

/// Whether the immediate child a path contributes is a directory: it is
/// when the relative path has further segments beyond the child name, and
/// otherwise exactly when the original path carries a trailing separator.
pub open spec fn child_is_dir(p: Seq<char>, prefix: Seq<char>) -> bool {
    let t = trim_trailing(rel_path(p, prefix), path_sep());
    if spec_contains_char(t, path_sep()) {
        true
    } else {
        spec_ends_with_char(p, path_sep())
    }
}

/// The reconstructed full path of the immediate child, before trailing
/// separators are removed for storage; the identifier is derived from
/// this form.
pub open spec fn child_raw_path(p: Seq<char>, prefix: Seq<char>) -> Seq<char> {
    let name = child_name(p, prefix);
    if prefix.len() == 0 {
        if child_is_dir(p, prefix) {
            name.push(path_sep())
        } else {
            name
        }
    } else {
        prefix.push(path_sep()) + name
    }
}

/// The tree entry an immediate child materializes to.
pub open spec fn spec_child_entry(p: Seq<char>, prefix: Seq<char>) -> TreeItemView {
    let is_dir = child_is_dir(p, prefix);
    let raw = child_raw_path(p, prefix);
    TreeItemView {
        id: spec_item_id(raw),
        name: child_name(p, prefix),
        item_type: if is_dir {
            "tree"@
        } else {
            "blob"@
        },
        path: trim_trailing(raw, path_sep()),
        mode: if is_dir {
            dir_mode()
        } else {
            file_mode()
        },
    }
}

/// True when an entry with this name already stands in the listing.
pub open spec fn contains_name(s: Seq<TreeItemView>, name: Seq<char>) -> bool {
    exists|i: int| 0 <= i < s.len() && s[i].name == name
}

/// True when a path contributes no immediate child: it lies outside the
/// scope, or it is the scope itself.
pub open spec fn child_excluded(p: Seq<char>, prefix: Seq<char>) -> bool {
    !in_scope(p, prefix) || trim_trailing(p, path_sep()) == prefix
}

/// The one-level listing: each in-scope path other than the scope itself
/// contributes its immediate-child entry, deduplicated by child name with
/// the first occurrence winning.
pub open spec fn child_entries(l: Seq<Seq<char>>, prefix: Seq<char>) -> Seq<TreeItemView>
    decreases l.len(),
{
    if l.len() == 0 {
        Seq::empty()
    } else {
        let prev = child_entries(l.drop_last(), prefix);
        let p = l.last();
        if child_excluded(p, prefix) || contains_name(prev, child_name(p, prefix)) {
            prev
        } else {
            prev.push(spec_child_entry(p, prefix))
        }
    }
}

/// The normalized scope of an optional path argument: leading and
/// trailing separators removed, the empty scope when absent.
pub open spec fn spec_scope(parent: Option<&str>) -> Seq<char> {
    match parent {
        Some(s) => trim_both(s@, path_sep()),
        None => Seq::empty(),
    }
}

/// Convert a file path string to a tree entry. The kind is inferred from
/// the trailing separator, the stored path is the trimmed path, the name
/// is its last segment, and the identifier is derived from the trimmed
/// path alone.
pub fn path_to_tree_item(path: String) -> (r: TreeItem)
    ensures
        r@ == spec_tree_entry(path@),
{
    let is_dir = ends_with_char(path.as_str(), '/');
    let trimmed = trim_end_char(path.as_str(), '/');
    let name = String::from_str(last_segment_str(trimmed));
    let hex = sha256_hex(trimmed.as_bytes());
    let id = String::from_str(hex.as_str().substring_char(0, 16));
    proof {
        assert(hex@.subrange(0, 16) =~= spec_sha256_hex(encode_utf8(trimmed@)).take(16));
    }
    let item_type = if is_dir {
        String::from_str("tree")
    } else {
        String::from_str("blob")
    };
    let mode = if is_dir {
        String::from_str("040000")
    } else {
        String::from_str("100644")
    };
    let stored = String::from_str(trimmed);
    TreeItem { id, name, item_type, path: stored, mode }
}

/// Exact scope-membership test; `prefix_slash` must be the scope followed
/// by one separator.
fn in_scope_exec(p: &str, prefix: &str, prefix_slash: &str) -> (r: bool)
    requires
        prefix_slash@ == prefix@.push(path_sep()),
    ensures
        r == in_scope(p@, prefix@),
{
    if prefix.unicode_len() == 0 {
        return true;
    }
    let t = trim_end_char(p, '/');
    str_eq(t, prefix) || starts_with(t, prefix_slash)
}

/// Materializes the immediate-child entry a path contributes under the
/// scope; `prefix_slash` must be the scope followed by one separator.
fn child_entry_exec(p: &str, prefix: &str, prefix_slash: &str) -> (r: TreeItem)
    requires
        prefix_slash@ == prefix@.push(path_sep()),
    ensures
        r@ == spec_child_entry(p@, prefix@),
{
    let plen = p.unicode_len();
    let rel: &str = if prefix.unicode_len() == 0 {
        p
    } else if starts_with(p, prefix_slash) {
        proof {
            assert(p@.subrange(prefix@.len() as int + 1, p@.len() as int) =~= p@.skip(
                prefix@.len() as int + 1,
            ));
        }
        p.substring_char(prefix_slash.unicode_len(), plen)
    } else {
        p
    };
    let t = trim_end_char(rel, '/');
    let tlen = t.unicode_len();
    let (name_str, is_dir): (&str, bool) = match find_char(t, '/') {
        Some(i) => {
            proof {
                lemma_first_segment_take(t@, i as int);
                assert(t@.subrange(0, i as int) =~= t@.take(i as int));
            }
            (t.substring_char(0, i), true)
        },
        None => {
            proof {
                lemma_first_segment_whole(t@);
            }
            (t, ends_with_char(p, '/'))
        },
    };
    let raw: String = if prefix.unicode_len() == 0 {
        if is_dir {
            String::from_str(name_str).concat("/")
        } else {
            String::from_str(name_str)
        }
    } else {
        String::from_str(prefix_slash).concat(name_str)
    };
    proof {
        reveal_strlit("/");
        assert("/"@ =~= seq![path_sep()]);
        assert(raw@ =~= child_raw_path(p@, prefix@));
    }
    let hex = sha256_hex(raw.as_str().as_bytes());
    let id = String::from_str(hex.as_str().substring_char(0, 16));
    proof {
        assert(hex@.subrange(0, 16) =~= spec_sha256_hex(encode_utf8(raw@)).take(16));
    }
    let stored = String::from_str(trim_end_char(raw.as_str(), '/'));
    let item_type = if is_dir {
        String::from_str("tree")
    } else {
        String::from_str("blob")
    };
    let mode = if is_dir {
        String::from_str("040000")
    } else {
        String::from_str("100644")
    };
    let name = String::from_str(name_str);
    TreeItem { id, name, item_type, path: stored, mode }
}

/// True when an entry with this name already stands in the listing.
fn contains_name_exec(items: &Vec<TreeItem>, name: &str) -> (r: bool)
    ensures
        r == contains_name(items_view(items@), name@),
{
    let n = items.len();
    let mut i: usize = 0;
    while i < n
        invariant
            n == items@.len(),
            0 <= i <= n,
            forall|j: int| 0 <= j < i ==> items_view(items@)[j].name != name@,
        decreases n - i,
    {
        if str_eq(items[i].name.as_str(), name) {
            assert(items_view(items@)[i as int].name == name@);
            return true;
        }
        i += 1;
    }
    false
}

/// Materializes a flat path list under an optional scope.
///
/// With `recursive` set, every in-scope path becomes one entry, in order.
/// Otherwise each in-scope path other than the scope itself contributes
/// its immediate child, deduplicated by name with the first occurrence
/// winning. A scope given with leading or trailing separators behaves as
/// the trimmed scope; an empty input list yields an empty result.
pub fn process_paths(paths: Vec<String>, parent_path: Option<&str>, recursive: bool) -> (r: Vec<
    TreeItem,
>)
    ensures
        recursive ==> items_view(r@) == recursive_entries(
            views_of(paths@),
            spec_scope(parent_path),
        ),
        !recursive ==> items_view(r@) == child_entries(views_of(paths@), spec_scope(parent_path)),
{
    let prefix: &str = match parent_path {
        Some(s) => trim_char(s, '/'),
        None => "",
    };
    proof {
        reveal_strlit("");
        assert(prefix@ =~= spec_scope(parent_path));
    }
    let prefix_slash_string = String::from_str(prefix).concat("/");
    let prefix_slash = prefix_slash_string.as_str();
    proof {
        reveal_strlit("/");
        assert("/"@ =~= seq![path_sep()]);
        assert(prefix_slash@ =~= prefix@.push(path_sep()));
    }
    let n = paths.len();
    let ghost l = views_of(paths@);
    let ghost pfx = prefix@;
    if recursive {
        let mut result: Vec<TreeItem> = Vec::new();
        proof {
            assert(items_view(result@) =~= recursive_entries(l.take(0), pfx));
        }
        let mut i: usize = 0;
        while i < n
            invariant
                n == paths@.len(),
                l == views_of(paths@),
                prefix_slash@ == pfx.push(path_sep()),
                prefix@ == pfx,
                0 <= i <= n,
                items_view(result@) == recursive_entries(l.take(i as int), pfx),
            decreases n - i,
        {
            let p = &paths[i];
            proof {
                assert(l[i as int] == p@);
                assert(l.take(i + 1).drop_last() =~= l.take(i as int));
                assert(l.take(i + 1).last() == l[i as int]);
            }
            if in_scope_exec(p.as_str(), prefix, prefix_slash) {
                let item = path_to_tree_item(p.clone());
                let ghost before = result@;
                result.push(item);
                proof {
                    assert(items_view(result@) =~= items_view(before).push(item@));
                }
            }
            i += 1;
        }
        proof {
            assert(l.take(n as int) =~= l);
        }
        result
    } else {
        let mut children: Vec<TreeItem> = Vec::new();
        proof {
            assert(items_view(children@) =~= child_entries(l.take(0), pfx));
        }
        let mut i: usize = 0;
        while i < n
            invariant
                n == paths@.len(),
                l == views_of(paths@),
                prefix_slash@ == pfx.push(path_sep()),
                prefix@ == pfx,
                0 <= i <= n,
                items_view(children@) == child_entries(l.take(i as int), pfx),
            decreases n - i,
        {
            let p = &paths[i];
            proof {
                assert(l[i as int] == p@);
                assert(l.take(i + 1).drop_last() =~= l.take(i as int));
                assert(l.take(i + 1).last() == l[i as int]);
            }
            let t = trim_end_char(p.as_str(), '/');
            if in_scope_exec(p.as_str(), prefix, prefix_slash) && !str_eq(t, prefix) {
                let item = child_entry_exec(p.as_str(), prefix, prefix_slash);
                if !contains_name_exec(&children, item.name.as_str()) {
                    proof {
                        assert(item@.name == child_name(p@, pfx));
                    }
                    let ghost before = children@;
                    children.push(item);
                    proof {
                        assert(items_view(children@) =~= items_view(before).push(item@));
                    }
                } else {
                    proof {
                        assert(item@.name == child_name(p@, pfx));
                    }
                }
            }
            i += 1;
        }
        proof {
            assert(l.take(n as int) =~= l);
        }
        children
    }
}

/// True when the flat listing holds the given file path, comparing both
/// sides with trailing separators removed.
pub fn file_exists_in_listing(paths: &Vec<String>, file_path: &str) -> (r: bool)
    ensures
        r == exists|i: int|
            0 <= i < paths@.len() && trim_trailing(
                views_of(paths@)[i],
                path_sep(),
            ) == trim_trailing(file_path@, path_sep()),
{
    let target = trim_end_char(file_path, '/');
    let n = paths.len();
    let mut i: usize = 0;
    while i < n
        invariant
            n == paths@.len(),
            target@ == trim_trailing(file_path@, path_sep()),
            0 <= i <= n,
            forall|j: int|
                0 <= j < i ==> trim_trailing(views_of(paths@)[j], path_sep()) != trim_trailing(
                    file_path@,
                    path_sep(),
                ),
        decreases n - i,
    {
        let t = trim_end_char(paths[i].as_str(), '/');
        if str_eq(t, target) {
            assert(trim_trailing(views_of(paths@)[i as int], path_sep()) == trim_trailing(
                file_path@,
                path_sep(),
            ));
            return true;
        }
        i += 1;
    }
    false
}

/// The recursive listing is exactly the in-scope subset of the input,
/// mapped one-to-one onto entries, in order.
pub proof fn lemma_recursive_exact(l: Seq<Seq<char>>, prefix: Seq<char>)
    ensures
        recursive_entries(l, prefix) == filter_scope(l, prefix).map_values(
            |p: Seq<char>| spec_tree_entry(p),
        ),
        recursive_entries(l, prefix).len() == filter_scope(l, prefix).len(),
        forall|i: int|
            0 <= i < recursive_entries(l, prefix).len() ==> ((#[trigger] recursive_entries(
                l,
                prefix,
            )[i].item_type == "tree"@) <==> spec_ends_with_char(
                filter_scope(l, prefix)[i],
                path_sep(),
            )),
    decreases l.len(),
{
    if l.len() == 0 {
        assert(recursive_entries(l, prefix) =~= filter_scope(l, prefix).map_values(
            |p: Seq<char>| spec_tree_entry(p),
        ));
    } else {
        lemma_recursive_exact(l.drop_last(), prefix);
        if in_scope(l.last(), prefix) {
            assert(recursive_entries(l, prefix) =~= filter_scope(l, prefix).map_values(
                |p: Seq<char>| spec_tree_entry(p),
            ));
        } else {
            assert(recursive_entries(l, prefix) =~= filter_scope(l, prefix).map_values(
                |p: Seq<char>| spec_tree_entry(p),
            ));
        }
    }
    reveal_strlit("tree");
    reveal_strlit("blob");
    assert("tree"@.len() == 4);
    assert("blob"@.len() == 4);
    assert("tree"@[0] != "blob"@[0]);
    assert forall|i: int|
        0 <= i < recursive_entries(l, prefix).len() implies ((#[trigger] recursive_entries(
        l,
        prefix,
    )[i].item_type == "tree"@) <==> spec_ends_with_char(
        filter_scope(l, prefix)[i],
        path_sep(),
    )) by {
        assert(recursive_entries(l, prefix)[i] == spec_tree_entry(filter_scope(l, prefix)[i]));
        assert("tree"@ != "blob"@);
    }
}

/// The names in a one-level listing are pairwise distinct.
pub proof fn lemma_children_names_distinct(l: Seq<Seq<char>>, prefix: Seq<char>)
    ensures
        forall|i: int, j: int|
            0 <= i < j < child_entries(l, prefix).len() ==> child_entries(l, prefix)[i].name
                != child_entries(l, prefix)[j].name,
    decreases l.len(),
{
    if l.len() > 0 {
        lemma_children_names_distinct(l.drop_last(), prefix);
        let prev = child_entries(l.drop_last(), prefix);
        let p = l.last();
        if !(child_excluded(p, prefix) || contains_name(prev, child_name(p, prefix))) {
            let cur = child_entries(l, prefix);
            assert forall|i: int, j: int|
                0 <= i < j < cur.len() implies cur[i].name != cur[j].name by {
                if j < cur.len() - 1 {
                    assert(cur[i] == prev[i] && cur[j] == prev[j]);
                } else {
                    assert(cur[i] == prev[i]);
                    assert(cur[j].name == child_name(p, prefix));
                    assert(!contains_name(prev, child_name(p, prefix)));
                }
            }
        }
    }
}

/// The set of names in a one-level listing is exactly the set of
/// immediate-child names of the in-scope paths other than the scope
/// itself.
pub proof fn lemma_children_names_complete(l: Seq<Seq<char>>, prefix: Seq<char>)
    ensures
        forall|k: int|
            0 <= k < l.len() && !child_excluded(l[k], prefix) ==> contains_name(
                child_entries(l, prefix),
                child_name(l[k], prefix),
            ),
        forall|i: int|
            0 <= i < child_entries(l, prefix).len() ==> exists|k: int|
                0 <= k < l.len() && !child_excluded(l[k], prefix) && child_name(l[k], prefix)
                    == #[trigger] child_entries(l, prefix)[i].name,
    decreases l.len(),
{
    if l.len() > 0 {
        lemma_children_names_complete(l.drop_last(), prefix);
        let prev = child_entries(l.drop_last(), prefix);
        let cur = child_entries(l, prefix);
        let p = l.last();
        assert(l.drop_last().len() == l.len() - 1);
        assert(forall|k: int| 0 <= k < l.len() - 1 ==> l.drop_last()[k] == l[k]);
        if child_excluded(p, prefix) || contains_name(prev, child_name(p, prefix)) {
            assert(cur == prev);
            assert forall|k: int|
                0 <= k < l.len() && !child_excluded(l[k], prefix) implies contains_name(
                cur,
                child_name(l[k], prefix),
            ) by {
                if k == l.len() - 1 {
                    assert(contains_name(prev, child_name(p, prefix)));
                }
            }
            assert forall|i: int| 0 <= i < cur.len() implies exists|k: int|
                0 <= k < l.len() && !child_excluded(l[k], prefix) && child_name(l[k], prefix)
                    == #[trigger] cur[i].name by {
                let k = choose|k: int|
                    0 <= k < l.drop_last().len() && !child_excluded(l.drop_last()[k], prefix)
                        && child_name(l.drop_last()[k], prefix) == prev[i].name;
                assert(0 <= k < l.len() && !child_excluded(l[k], prefix) && child_name(l[k], prefix)
                    == cur[i].name);
            }
        } else {
            assert(cur == prev.push(spec_child_entry(p, prefix)));
            assert forall|k: int|
                0 <= k < l.len() && !child_excluded(l[k], prefix) implies contains_name(
                cur,
                child_name(l[k], prefix),
            ) by {
                if k == l.len() - 1 {
                    assert(cur[cur.len() - 1].name == child_name(p, prefix));
                } else {
                    assert(contains_name(prev, child_name(l[k], prefix)));
                    let w = choose|w: int|
                        0 <= w < prev.len() && prev[w].name == child_name(l[k], prefix);
                    assert(cur[w].name == child_name(l[k], prefix));
                }
            }
            assert forall|i: int| 0 <= i < cur.len() implies exists|k: int|
                0 <= k < l.len() && !child_excluded(l[k], prefix) && child_name(l[k], prefix)
                    == #[trigger] cur[i].name by {
                if i < cur.len() - 1 {
                    let k = choose|k: int|
                        0 <= k < l.drop_last().len() && !child_excluded(l.drop_last()[k], prefix)
                            && child_name(l.drop_last()[k], prefix) == prev[i].name;
                    assert(0 <= k < l.len() && !child_excluded(l[k], prefix) && child_name(
                        l[k],
                        prefix,
                    ) == cur[i].name);
                } else {
                    let k = l.len() - 1;
                    assert(0 <= k < l.len() && !child_excluded(l[k], prefix) && child_name(
                        l[k],
                        prefix,
                    ) == cur[i].name);
                }
            }
        }
    }
}

/// True when position `k` holds the first contributing path of its name:
/// it is in scope, it is not the scope itself, and no earlier
/// contributing path shares its immediate-child name.
pub open spec fn first_contributor(l: Seq<Seq<char>>, prefix: Seq<char>, k: int) -> bool {
    &&& 0 <= k < l.len()
    &&& !child_excluded(l[k], prefix)
    &&& forall|j: int|
        0 <= j < k && !child_excluded(l[j], prefix) ==> child_name(l[j], prefix) != child_name(
            l[k],
            prefix,
        )
}

/// First occurrence wins: every entry of the one-level listing is the
/// materialized child of the first contributing path bearing its name;
/// with the pairwise-distinct names this makes the entry for each name
/// unique and derived from that first path.
pub proof fn lemma_children_first_occurrence(l: Seq<Seq<char>>, prefix: Seq<char>)
    ensures
        forall|i: int|
            0 <= i < child_entries(l, prefix).len() ==> exists|k: int|
                first_contributor(l, prefix, k) && #[trigger] child_entries(l, prefix)[i]
                    == spec_child_entry(l[k], prefix) && child_name(l[k], prefix) == child_entries(
                    l,
                    prefix,
                )[i].name,
    decreases l.len(),
{
    if l.len() > 0 {
        lemma_children_first_occurrence(l.drop_last(), prefix);
        lemma_children_names_complete(l.drop_last(), prefix);
        let ld = l.drop_last();
        let prev = child_entries(ld, prefix);
        let cur = child_entries(l, prefix);
        let p = l.last();
        assert(ld.len() == l.len() - 1);
        assert(forall|k: int| 0 <= k < l.len() - 1 ==> ld[k] == l[k]);
        if child_excluded(p, prefix) || contains_name(prev, child_name(p, prefix)) {
            assert(cur == prev);
            assert forall|i: int| 0 <= i < cur.len() implies exists|k: int|
                first_contributor(l, prefix, k) && #[trigger] cur[i] == spec_child_entry(
                l[k],
                prefix,
            ) && child_name(l[k], prefix) == cur[i].name by {
                let k = choose|k: int|
                    first_contributor(ld, prefix, k) && prev[i] == spec_child_entry(ld[k], prefix)
                        && child_name(ld[k], prefix) == prev[i].name;
                assert(first_contributor(l, prefix, k));
                assert(cur[i] == spec_child_entry(l[k], prefix));
            }
        } else {
            assert(cur == prev.push(spec_child_entry(p, prefix)));
            let k0 = l.len() - 1;
            assert forall|j: int|
                0 <= j < k0 && !child_excluded(l[j], prefix) implies child_name(l[j], prefix)
                != child_name(l[k0], prefix) by {
                if child_name(l[j], prefix) == child_name(p, prefix) {
                    assert(!child_excluded(ld[j], prefix));
                    assert(contains_name(prev, child_name(ld[j], prefix)));
                }
            }
            assert(first_contributor(l, prefix, k0));
            assert forall|i: int| 0 <= i < cur.len() implies exists|k: int|
                first_contributor(l, prefix, k) && #[trigger] cur[i] == spec_child_entry(
                l[k],
                prefix,
            ) && child_name(l[k], prefix) == cur[i].name by {
                if i < cur.len() - 1 {
                    let k = choose|k: int|
                        first_contributor(ld, prefix, k) && prev[i] == spec_child_entry(
                            ld[k],
                            prefix,
                        ) && child_name(ld[k], prefix) == prev[i].name;
                    assert(first_contributor(l, prefix, k));
                    assert(cur[i] == spec_child_entry(l[k], prefix));
                } else {
                    assert(cur[i] == spec_child_entry(l[k0], prefix));
                }
            }
        }
    }
}

/// Identifier assignment is idempotent under normalization: two paths
/// that agree once trailing separators are removed get the same
/// identifier, in this listing and in every later one.
pub proof fn lemma_item_id_stable(p1: Seq<char>, p2: Seq<char>)
    requires
        trim_trailing(p1, path_sep()) == trim_trailing(p2, path_sep()),
    ensures
        spec_tree_entry(p1).id == spec_tree_entry(p2).id,
{
}

} // verus!
