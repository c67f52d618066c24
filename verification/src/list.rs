//! Listing remote repository contents.
//!
//! The listing command shows a directory the way `ls` would: directories
//! first, then files, each group ordered by name. The ordering and the
//! sort are verified here; printing is not this crate's business.

use vstd::prelude::*;

use crate::tree::items_view;
use vstd::multiset::Multiset;
use crate::types::{TreeItem, TreeItemView};

verus! {

/// Arguments of a listing.
#[derive(Debug, Clone)]
pub struct ListArgs {
    /// Remote path to list; the root when absent
    pub path: Option<String>,
    /// List recursively
    pub recursive: bool,
}

/// The list command.
#[derive(Debug, Clone)]
pub struct ListCommand {
    /// The listing arguments
    pub args: ListArgs,
}

impl ListCommand {
    /// Create a new list command.
    pub fn new(args: ListArgs) -> (r: ListCommand)
        ensures
            r.args == args,
    {
        ListCommand { args }
    }
}

/// Lexicographic order on character sequences, by character code.
pub open spec fn lex_le(a: Seq<char>, b: Seq<char>) -> bool
    decreases a.len(),
{
    if a.len() == 0 {
        true
    } else if b.len() == 0 {
        false
    } else if a.first() < b.first() {
        true
    } else if a.first() > b.first() {
        false
    } else {
        lex_le(a.drop_first(), b.drop_first())
    }
}

/// The display order of two entries: a directory comes before a file, and
/// within one kind names order lexicographically.
pub open spec fn le_item(a: TreeItemView, b: TreeItemView) -> bool {
    if a.spec_is_dir() != b.spec_is_dir() {
        a.spec_is_dir()
    } else {
        lex_le(a.name, b.name)
    }
}

/// Lexicographic order is total.
pub proof fn lemma_lex_total(a: Seq<char>, b: Seq<char>)
    ensures
        lex_le(a, b) || lex_le(b, a),
    decreases a.len(),
{
    if a.len() > 0 && b.len() > 0 && a.first() == b.first() {
        lemma_lex_total(a.drop_first(), b.drop_first());
    }
}

/// Lexicographic order is transitive.
pub proof fn lemma_lex_trans(a: Seq<char>, b: Seq<char>, c: Seq<char>)
    requires
        lex_le(a, b),
        lex_le(b, c),
    ensures
        lex_le(a, c),
    decreases a.len(),
{
    if a.len() > 0 && b.len() > 0 && c.len() > 0 && a.first() == b.first() && b.first()
        == c.first() {
        lemma_lex_trans(a.drop_first(), b.drop_first(), c.drop_first());
    }
}

/// The display order is total.
pub proof fn lemma_le_item_total(a: TreeItemView, b: TreeItemView)
    ensures
        le_item(a, b) || le_item(b, a),
{
    if a.spec_is_dir() == b.spec_is_dir() {
        lemma_lex_total(a.name, b.name);
    }
}

/// The display order is transitive.
pub proof fn lemma_le_item_trans(a: TreeItemView, b: TreeItemView, c: TreeItemView)
    requires
        le_item(a, b),
        le_item(b, c),
    ensures
        le_item(a, c),
{
    if a.spec_is_dir() == b.spec_is_dir() && b.spec_is_dir() == c.spec_is_dir() {
        lemma_lex_trans(a.name, b.name, c.name);
    }
}

/// Exact lexicographic comparison of two names.
fn lex_le_str(a: &str, b: &str) -> (r: bool)
    ensures
        r == lex_le(a@, b@),
{
    let alen = a.unicode_len();
    let blen = b.unicode_len();
    let mut i: usize = 0;
    proof {
        assert(a@.skip(0) =~= a@);
        assert(b@.skip(0) =~= b@);
    }
    loop
        invariant
            alen == a@.len(),
            blen == b@.len(),
            0 <= i <= alen,
            0 <= i <= blen,
            forall|j: int| 0 <= j < i ==> a@[j] == b@[j],
            lex_le(a@, b@) == lex_le(a@.skip(i as int), b@.skip(i as int)),
        decreases alen - i,
    {
        if i >= alen {
            proof {
                assert(a@.skip(i as int).len() == 0);
            }
            return true;
        }
        if i >= blen {
            proof {
                assert(b@.skip(i as int).len() == 0);
                assert(a@.skip(i as int).len() > 0);
            }
            return false;
        }
        let ca = a.get_char(i) as u32;
        let cb = b.get_char(i) as u32;
        proof {
            assert(a@.skip(i as int).first() == a@[i as int]);
            assert(b@.skip(i as int).first() == b@[i as int]);
        }
        if ca < cb {
            return true;
        }
        if ca > cb {
            return false;
        }
        proof {
            assert(a@[i as int] == b@[i as int]);
            assert(a@.skip(i as int).drop_first() =~= a@.skip(i + 1));
            assert(b@.skip(i as int).drop_first() =~= b@.skip(i + 1));
        }
        i += 1;
    }
}

/// Exact display-order comparison of two entries.
fn le_item_exec(a: &TreeItem, b: &TreeItem) -> (r: bool)
    ensures
        r == le_item(a@, b@),
{
    let ad = a.is_dir();
    let bd = b.is_dir();
    if ad != bd {
        ad
    } else {
        lex_le_str(a.name.as_str(), b.name.as_str())
    }
}

/// True when a listing is in display order.
pub open spec fn sorted_items(s: Seq<TreeItemView>) -> bool {
    forall|i: int, j: int| 0 <= i < j < s.len() ==> le_item(s[i], s[j])
}

/// Sorts a listing into display order — directories first, names
/// ascending within each kind — keeping exactly the entries given.
pub fn sort_items(items: Vec<TreeItem>) -> (r: Vec<TreeItem>)
    ensures
        sorted_items(items_view(r@)),
        r@.to_multiset() == items@.to_multiset(),
        r@.len() == items@.len(),
{
    broadcast use vstd::seq_lib::group_to_multiset_ensures;

    let ghost orig = items@;
    let mut src = items;
    let mut out: Vec<TreeItem> = Vec::new();
    proof {
        assert(out@.to_multiset().add(src@.to_multiset()) =~= orig.to_multiset());
    }
    while src.len() > 0
        invariant
            out@.to_multiset().add(src@.to_multiset()) == orig.to_multiset(),
            out@.len() + src@.len() == orig.len(),
            sorted_items(items_view(out@)),
            forall|i: int, j: int|
                0 <= i < out@.len() && 0 <= j < src@.len() ==> le_item(
                    items_view(out@)[i],
                    items_view(src@)[j],
                ),
        decreases src@.len(),
    {
        let n = src.len();
        let mut best: usize = 0;
        let mut k: usize = 1;
        proof {
            lemma_le_item_total(src@[0]@, src@[0]@);
            assert(items_view(src@)[0] == src@[0]@);
        }
        while k < n
            invariant
                n == src@.len(),
                0 <= best < n,
                1 <= k <= n,
                forall|j: int|
                    0 <= j < k ==> le_item(items_view(src@)[best as int], items_view(src@)[j]),
            decreases n - k,
        {
            if !le_item_exec(&src[best], &src[k]) {
                proof {
                    lemma_le_item_total(src@[best as int]@, src@[k as int]@);
                    lemma_le_item_total(src@[k as int]@, src@[k as int]@);
                    assert(le_item(src@[k as int]@, src@[best as int]@));
                    assert forall|j: int| 0 <= j < k + 1 implies le_item(
                        items_view(src@)[k as int],
                        items_view(src@)[j],
                    ) by {
                        assert(items_view(src@)[k as int] == src@[k as int]@);
                        assert(items_view(src@)[j] == src@[j]@);
                        if j < k {
                            assert(items_view(src@)[best as int] == src@[best as int]@);
                            assert(le_item(src@[best as int]@, src@[j]@));
                            lemma_le_item_trans(src@[k as int]@, src@[best as int]@, src@[j]@);
                        }
                    }
                }
                best = k;
            }
            k += 1;
        }
        let ghost old_src = src@;
        let picked = src.remove(best);
        let ghost prev_out = out@;
        out.push(picked);
        proof {
            assert(picked == old_src[best as int]);
            assert(items_view(old_src)[best as int] == picked@);
            assert forall|j: int| 0 <= j < old_src.len() implies le_item(
                picked@,
                #[trigger] items_view(old_src)[j],
            ) by {}
            old_src.remove_ensures(best as int);
            assert(src@ == old_src.remove(best as int));
            assert forall|j: int| 0 <= j < src@.len() implies le_item(
                picked@,
                #[trigger] items_view(src@)[j],
            ) by {
                if j < best {
                    assert(src@[j] == old_src[j]);
                    assert(items_view(src@)[j] == items_view(old_src)[j]);
                } else {
                    assert(src@[j] == old_src[j + 1]);
                    assert(items_view(src@)[j] == items_view(old_src)[j + 1]);
                }
            }
            assert(out@ == prev_out.push(picked));
            prev_out.to_multiset_ensures();
            old_src.to_multiset_ensures();
            assert(prev_out.push(picked).to_multiset() =~= prev_out.to_multiset().insert(picked));
            assert((old_src.remove(best as int)).to_multiset() =~= old_src.to_multiset().remove(
                picked,
            ));
            assert(old_src.contains(picked));
            assert(old_src.to_multiset().count(picked) > 0);
            assert(out@.to_multiset().add(src@.to_multiset()) =~= orig.to_multiset());
            assert forall|i: int, j: int|
                0 <= i < j < out@.len() implies le_item(
                items_view(out@)[i],
                items_view(out@)[j],
            ) by {
                if j < out@.len() - 1 {
                    assert(items_view(out@)[i] == items_view(prev_out)[i]);
                    assert(items_view(out@)[j] == items_view(prev_out)[j]);
                    assert(le_item(items_view(prev_out)[i], items_view(prev_out)[j]));
                } else {
                    assert(items_view(out@)[i] == items_view(prev_out)[i]);
                    assert(items_view(out@)[j] == picked@);
                    assert(le_item(items_view(prev_out)[i], items_view(old_src)[best as int]));
                }
            }
            assert forall|i: int, j: int|
                0 <= i < out@.len() && 0 <= j < src@.len() implies le_item(
                items_view(out@)[i],
                items_view(src@)[j],
            ) by {
                assert(le_item(picked@, items_view(src@)[j]));
                if i < out@.len() - 1 {
                    assert(items_view(out@)[i] == items_view(prev_out)[i]);
                    assert(le_item(items_view(prev_out)[i], items_view(old_src)[best as int]));
                    lemma_le_item_trans(items_view(prev_out)[i], picked@, items_view(src@)[j]);
                } else {
                    assert(items_view(out@)[i] == picked@);
                }
            }
        }
    }
    proof {
        assert(src@.to_multiset() =~= Multiset::<TreeItem>::empty());
        assert(out@.to_multiset() =~= orig.to_multiset());
        assert(out@.to_multiset().len() == orig.to_multiset().len());
    }
    out
}

} // verus!
