//! Verified helpers over `&str` and `String`.
//!
//! Repository paths, configuration keys and error messages are all plain
//! strings; this module gives the exact-contract building blocks the rest
//! of the crate states its specifications with: equality, prefix tests,
//! separator trimming, segment extraction, case folding and decimal
//! rendering.

use vstd::prelude::*;

verus! {

/// Character used to separate path segments in repository paths.
pub open spec fn path_sep() -> char {
    '/'
}

/// True when `c` is an ASCII upper-case letter.
pub open spec fn is_upper(c: char) -> bool {
    'A' <= c && c <= 'Z'
}

/// ASCII lower-casing of one character; other characters are unchanged.
pub open spec fn lower_char(c: char) -> char {
    if is_upper(c) {
        ((c as u8) + 32) as char
    } else {
        c
    }
}

/// ASCII lower-casing of a character sequence.
pub open spec fn lower_seq(s: Seq<char>) -> Seq<char> {
    s.map_values(|c: char| lower_char(c))
}

/// Exact character-wise equality of two string slices.
pub fn str_eq(a: &str, b: &str) -> (r: bool)
    ensures
        r == (a@ == b@),
{
    let alen = a.unicode_len();
    let blen = b.unicode_len();
    if alen != blen {
        assert(a@ != b@) by {
            assert(a@.len() != b@.len());
        }
        return false;
    }
    let mut i: usize = 0;
    while i < alen
        invariant
            alen == a@.len(),
            blen == b@.len(),
            alen == blen,
            0 <= i <= alen,
            forall|j: int| 0 <= j < i ==> a@[j] == b@[j],
        decreases alen - i,
    {
        if a.get_char(i) != b.get_char(i) {
            assert(a@ != b@) by {
                assert(a@[i as int] != b@[i as int]);
            }
            return false;
        }
        i += 1;
    }
    proof {
        assert(a@ =~= b@);
    }
    true
}

/// True when `p` is a prefix of `s`.
pub open spec fn spec_starts_with(s: Seq<char>, p: Seq<char>) -> bool {
    p.len() <= s.len() && s.subrange(0, p.len() as int) == p
}

/// Exact prefix test.
pub fn starts_with(s: &str, p: &str) -> (r: bool)
    ensures
        r == spec_starts_with(s@, p@),
{
    let slen = s.unicode_len();
    let plen = p.unicode_len();
    if plen > slen {
        return false;
    }
    let mut i: usize = 0;
    while i < plen
        invariant
            slen == s@.len(),
            plen == p@.len(),
            plen <= slen,
            0 <= i <= plen,
            forall|j: int| 0 <= j < i ==> s@[j] == p@[j],
        decreases plen - i,
    {
        if s.get_char(i) != p.get_char(i) {
            assert(!spec_starts_with(s@, p@)) by {
                assert(s@.subrange(0, p@.len() as int)[i as int] != p@[i as int]);
            }
            return false;
        }
        i += 1;
    }
    proof {
        assert(s@.subrange(0, p@.len() as int) =~= p@);
    }
    true
}

/// True when some occurrence of `c` stands in `s`.
pub open spec fn spec_contains_char(s: Seq<char>, c: char) -> bool {
    exists|i: int| 0 <= i < s.len() && s[i] == c
}

/// Exact single-character membership test.
pub fn contains_char(s: &str, c: char) -> (r: bool)
    ensures
        r == spec_contains_char(s@, c),
{
    let slen = s.unicode_len();
    let mut i: usize = 0;
    while i < slen
        invariant
            slen == s@.len(),
            0 <= i <= slen,
            forall|j: int| 0 <= j < i ==> s@[j] != c,
        decreases slen - i,
    {
        if s.get_char(i) == c {
            return true;
        }
        i += 1;
    }
    false
}

/// Index of the first occurrence of `c` in `s`, if any.
pub fn find_char(s: &str, c: char) -> (r: Option<usize>)
    ensures
        match r {
            Some(i) => i < s@.len() && s@[i as int] == c && forall|j: int|
                0 <= j < i ==> s@[j] != c,
            None => !spec_contains_char(s@, c),
        },
{
    let slen = s.unicode_len();
    let mut i: usize = 0;
    while i < slen
        invariant
            slen == s@.len(),
            0 <= i <= slen,
            forall|j: int| 0 <= j < i ==> s@[j] != c,
        decreases slen - i,
    {
        if s.get_char(i) == c {
            return Some(i);
        }
        i += 1;
    }
    None
}

/// Index of the last occurrence of `c` in `s`, if any.
pub fn rfind_char(s: &str, c: char) -> (r: Option<usize>)
    ensures
        match r {
            Some(i) => i < s@.len() && s@[i as int] == c && forall|j: int|
                i < j < s@.len() ==> s@[j] != c,
            None => !spec_contains_char(s@, c),
        },
{
    let slen = s.unicode_len();
    let mut i: usize = slen;
    while i > 0
        invariant
            slen == s@.len(),
            0 <= i <= slen,
            forall|j: int| i <= j < slen ==> s@[j] != c,
        decreases i,
    {
        i -= 1;
        if s.get_char(i) == c {
            return Some(i);
        }
    }
    None
}

/// True when `s` ends in `c`.
pub open spec fn spec_ends_with_char(s: Seq<char>, c: char) -> bool {
    s.len() > 0 && s.last() == c
}

/// Exact last-character test.
pub fn ends_with_char(s: &str, c: char) -> (r: bool)
    ensures
        r == spec_ends_with_char(s@, c),
{
    let slen = s.unicode_len();
    if slen == 0 {
        false
    } else {
        s.get_char(slen - 1) == c
    }
}

/// `s` with every trailing `c` removed.
pub open spec fn trim_trailing(s: Seq<char>, c: char) -> Seq<char>
    decreases s.len(),
{
    if s.len() > 0 && s.last() == c {
        trim_trailing(s.drop_last(), c)
    } else {
        s
    }
}

/// `s` with every leading `c` removed.
pub open spec fn trim_leading(s: Seq<char>, c: char) -> Seq<char>
    decreases s.len(),
{
    if s.len() > 0 && s.first() == c {
        trim_leading(s.drop_first(), c)
    } else {
        s
    }
}

/// `s` with every leading and trailing `c` removed.
pub open spec fn trim_both(s: Seq<char>, c: char) -> Seq<char> {
    trim_trailing(trim_leading(s, c), c)
}

/// Trimming trailing copies of `c` keeps the prefix up to the last
/// character that differs from `c`.
pub proof fn lemma_trim_trailing_take(s: Seq<char>, c: char, k: int)
    requires
        0 <= k <= s.len(),
        forall|j: int| k <= j < s.len() ==> s[j] == c,
        k > 0 ==> s[k - 1] != c,
    ensures
        trim_trailing(s, c) == s.take(k),
    decreases s.len(),
{
    if k == s.len() {
        assert(s.len() > 0 ==> s.last() != c);
        assert(trim_trailing(s, c) == s);
        assert(s.take(k) =~= s);
    } else {
        assert(s.last() == c);
        let d = s.drop_last();
        assert(forall|j: int| k <= j < d.len() ==> d[j] == c);
        lemma_trim_trailing_take(d, c, k);
        assert(d.take(k) =~= s.take(k));
    }
}

/// Trimming leading copies of `c` keeps the suffix from the first
/// character that differs from `c`.
pub proof fn lemma_trim_leading_skip(s: Seq<char>, c: char, k: int)
    requires
        0 <= k <= s.len(),
        forall|j: int| 0 <= j < k ==> s[j] == c,
        k < s.len() ==> s[k] != c,
    ensures
        trim_leading(s, c) == s.skip(k),
    decreases k,
{
    if k == 0 {
        assert(s.len() > 0 ==> s.first() != c);
        assert(trim_leading(s, c) == s);
        assert(s.skip(0) =~= s);
    } else {
        assert(s.first() == c);
        let d = s.drop_first();
        assert(forall|j: int| 0 <= j < k - 1 ==> d[j] == c);
        lemma_trim_leading_skip(d, c, k - 1);
        assert(d.skip(k - 1) =~= s.skip(k));
    }
}

/// `s` without its trailing copies of `c`, as a borrowed slice.
pub fn trim_end_char<'a>(s: &'a str, c: char) -> (r: &'a str)
    ensures
        r@ == trim_trailing(s@, c),
{
    let slen = s.unicode_len();
    let mut k: usize = slen;
    while k > 0 && s.get_char(k - 1) == c
        invariant
            slen == s@.len(),
            0 <= k <= slen,
            forall|j: int| k <= j < slen ==> s@[j] == c,
        decreases k,
    {
        k -= 1;
    }
    proof {
        lemma_trim_trailing_take(s@, c, k as int);
    }
    s.substring_char(0, k)
}

/// `s` without its leading copies of `c`, as a borrowed slice.
pub fn trim_start_char<'a>(s: &'a str, c: char) -> (r: &'a str)
    ensures
        r@ == trim_leading(s@, c),
{
    let slen = s.unicode_len();
    let mut k: usize = 0;
    while k < slen && s.get_char(k) == c
        invariant
            slen == s@.len(),
            0 <= k <= slen,
            forall|j: int| 0 <= j < k ==> s@[j] == c,
        decreases slen - k,
    {
        k += 1;
    }
    proof {
        lemma_trim_leading_skip(s@, c, k as int);
    }
    s.substring_char(k, slen)
}

/// `s` without leading and trailing copies of `c`, as a borrowed slice.
pub fn trim_char<'a>(s: &'a str, c: char) -> (r: &'a str)
    ensures
        r@ == trim_both(s@, c),
{
    trim_end_char(trim_start_char(s, c), c)
}

/// The suffix of `s` after its last separator; all of `s` when it has none.
pub open spec fn last_segment(s: Seq<char>) -> Seq<char>
    decreases s.len(),
{
    if s.len() == 0 {
        s
    } else if s.last() == path_sep() {
        Seq::empty()
    } else {
        last_segment(s.drop_last()).push(s.last())
    }
}

/// When the last separator stands at `i`, the last segment is everything
/// after it.
pub proof fn lemma_last_segment_skip(s: Seq<char>, i: int)
    requires
        0 <= i < s.len(),
        s[i] == path_sep(),
        forall|j: int| i < j < s.len() ==> s[j] != path_sep(),
    ensures
        last_segment(s) == s.skip(i + 1),
    decreases s.len(),
{
    if i == s.len() - 1 {
        assert(s.last() == path_sep());
        assert(s.skip(i + 1) =~= Seq::<char>::empty());
    } else {
        assert(s.last() != path_sep());
        let d = s.drop_last();
        assert(forall|j: int| i < j < d.len() ==> d[j] != path_sep());
        lemma_last_segment_skip(d, i);
        assert(d.skip(i + 1).push(s.last()) =~= s.skip(i + 1));
    }
}

/// A separator-free string is its own last segment.
pub proof fn lemma_last_segment_whole(s: Seq<char>)
    requires
        forall|j: int| 0 <= j < s.len() ==> s[j] != path_sep(),
    ensures
        last_segment(s) == s,
    decreases s.len(),
{
    if s.len() > 0 {
        let d = s.drop_last();
        lemma_last_segment_whole(d);
        assert(d.push(s.last()) =~= s);
    }
}

/// The suffix of `s` after its last separator, as a borrowed slice.
pub fn last_segment_str<'a>(s: &'a str) -> (r: &'a str)
    ensures
        r@ == last_segment(s@),
{
    let slen = s.unicode_len();
    match rfind_char(s, '/') {
        Some(i) => {
            proof {
                lemma_last_segment_skip(s@, i as int);
                assert(s@.skip(i + 1) =~= s@.subrange(i + 1, slen as int));
            }
            s.substring_char(i + 1, slen)
        },
        None => {
            proof {
                lemma_last_segment_whole(s@);
            }
            s
        },
    }
}

/// The prefix of `s` before its first separator; all of `s` when it has
/// none.
pub open spec fn first_segment(s: Seq<char>) -> Seq<char>
    decreases s.len(),
{
    if s.len() == 0 {
        s
    } else if s.first() == path_sep() {
        Seq::empty()
    } else {
        seq![s.first()] + first_segment(s.drop_first())
    }
}

/// When the first separator stands at `i`, the first segment is everything
/// before it.
pub proof fn lemma_first_segment_take(s: Seq<char>, i: int)
    requires
        0 <= i < s.len(),
        s[i] == path_sep(),
        forall|j: int| 0 <= j < i ==> s[j] != path_sep(),
    ensures
        first_segment(s) == s.take(i),
    decreases i,
{
    if i == 0 {
        assert(s.first() == path_sep());
        assert(s.take(0) =~= Seq::<char>::empty());
    } else {
        assert(s.first() != path_sep());
        let d = s.drop_first();
        assert(d[i - 1] == path_sep());
        assert(forall|j: int| 0 <= j < i - 1 ==> d[j] != path_sep());
        lemma_first_segment_take(d, i - 1);
        assert(seq![s.first()] + d.take(i - 1) =~= s.take(i));
    }
}

/// A separator-free string is its own first segment.
pub proof fn lemma_first_segment_whole(s: Seq<char>)
    requires
        forall|j: int| 0 <= j < s.len() ==> s[j] != path_sep(),
    ensures
        first_segment(s) == s,
    decreases s.len(),
{
    if s.len() > 0 {
        let d = s.drop_first();
        lemma_first_segment_whole(d);
        assert(seq![s.first()] + d =~= s);
    }
}

/// True when `sub` occurs inside `s`.
pub open spec fn spec_contains_sub(s: Seq<char>, sub: Seq<char>) -> bool {
    exists|i: int|
        0 <= i && i + sub.len() <= s.len() && #[trigger] s.subrange(i, i + sub.len()) == sub
}

/// Exact substring search, comparing `lower_char` of each haystack
/// character against the needle, so a lower-case needle matches without
/// building a lowered copy of `s`.
pub fn contains_sub_lower(s: &str, sub: &str) -> (r: bool)
    ensures
        r == spec_contains_sub(lower_seq(s@), sub@),
{
    let slen = s.unicode_len();
    let sublen = sub.unicode_len();
    proof {
        assert(lower_seq(s@).len() == s@.len());
    }
    if sublen > slen {
        return false;
    }
    if sublen == 0 {
        proof {
            assert(lower_seq(s@).subrange(0, 0 + sub@.len() as int) =~= sub@);
        }
        return true;
    }
    let mut i: usize = 0;
    while i <= slen - sublen
        invariant
            slen == s@.len(),
            sublen == sub@.len(),
            1 <= sublen <= slen,
            0 <= i <= slen - sublen + 1,
            lower_seq(s@).len() == slen,
            forall|k: int|
                0 <= k < i ==> #[trigger] lower_seq(s@).subrange(k, k + sub@.len() as int)
                    != sub@,
        decreases slen - sublen - i + 1,
    {
        let mut j: usize = 0;
        let mut matched = true;
        while j < sublen
            invariant
                slen == s@.len(),
                sublen == sub@.len(),
                sublen <= slen,
                0 <= i <= slen - sublen,
                0 <= j <= sublen,
                lower_seq(s@).len() == slen,
                matched ==> forall|t: int|
                    0 <= t < j ==> lower_seq(s@)[i + t] == sub@[t],
                !matched ==> lower_seq(s@).subrange(i as int, i + sub@.len() as int) != sub@,
            decreases sublen - j,
        {
            let c = s.get_char(i + j);
            let lc = lower_char_exec(c);
            if lc != sub.get_char(j) {
                proof {
                    assert(lower_seq(s@)[i + j] != sub@[j as int]);
                    assert(lower_seq(s@).subrange(i as int, i + sub@.len() as int)[j as int]
                        == lower_seq(s@)[i + j]);
                }
                matched = false;
            }
            j += 1;
        }
        if matched {
            proof {
                assert(lower_seq(s@).subrange(i as int, i + sub@.len() as int) =~= sub@);
            }
            return true;
        }
        i += 1;
    }
    false
}

/// Executable ASCII lower-casing of one character.
pub fn lower_char_exec(c: char) -> (r: char)
    ensures
        r == lower_char(c),
{
    let v = c as u32;
    if 65 <= v && v < 91 {
        ((v + 32) as u8) as char
    } else {
        c
    }
}

/// True when `i` is the position of the only occurrence of `c` in `s`.
pub open spec fn is_unique_char_at(s: Seq<char>, c: char, i: int) -> bool {
    0 <= i < s.len() && s[i] == c && forall|j: int| 0 <= j < s.len() && j != i ==> s[j] != c
}

/// True when `c` occurs exactly once in `s`.
pub open spec fn has_single_char(s: Seq<char>, c: char) -> bool {
    exists|i: int| is_unique_char_at(s, c, i)
}

/// The part of `s` before its only occurrence of `c`.
pub open spec fn split_first_part(s: Seq<char>, c: char) -> Seq<char> {
    s.take(choose|i: int| is_unique_char_at(s, c, i))
}

/// The part of `s` after its only occurrence of `c`.
pub open spec fn split_second_part(s: Seq<char>, c: char) -> Seq<char> {
    s.skip((choose|i: int| is_unique_char_at(s, c, i)) + 1)
}

/// A witnessed unique occurrence determines both parts of the split.
pub proof fn lemma_unique_char_parts(s: Seq<char>, c: char, i: int)
    requires
        is_unique_char_at(s, c, i),
    ensures
        split_first_part(s, c) == s.take(i),
        split_second_part(s, c) == s.skip(i + 1),
{
    let w = choose|w: int| is_unique_char_at(s, c, w);
    if w != i {
        assert(s[w] == c);
        assert(s[w] != c);
    }
}

/// Splits `s` at its only occurrence of `c`; nothing when `c` occurs never
/// or more than once.
pub fn split_at_unique_char<'a>(s: &'a str, c: char) -> (r: Option<(&'a str, &'a str)>)
    ensures
        match r {
            Some(parts) => has_single_char(s@, c) && parts.0@ == split_first_part(s@, c)
                && parts.1@ == split_second_part(s@, c),
            None => !has_single_char(s@, c),
        },
{
    let len = s.unicode_len();
    match find_char(s, c) {
        None => {
            proof {
                assert forall|i: int| !is_unique_char_at(s@, c, i) by {
                    if 0 <= i < s@.len() {
                        assert(s@[i] != c);
                    }
                }
            }
            None
        },
        Some(i) => {
            let rest = s.substring_char(i + 1, len);
            proof {
                assert(rest@ =~= s@.skip(i + 1));
            }
            match find_char(rest, c) {
                Some(j) => {
                    proof {
                        let a = i as int;
                        let b = i + 1 + j as int;
                        assert(s@[b] == rest@[j as int]);
                        assert forall|k: int| !is_unique_char_at(s@, c, k) by {
                            if is_unique_char_at(s@, c, k) {
                                if k != a {
                                    assert(s@[a] != c);
                                } else {
                                    assert(s@[b] != c);
                                }
                            }
                        }
                    }
                    None
                },
                None => {
                    proof {
                        assert forall|j: int| 0 <= j < s@.len() && j != i ==> s@[j] != c by {
                            if 0 <= j < s@.len() && j != i {
                                if j > i {
                                    assert(rest@[j - i - 1] != c);
                                }
                            }
                        }
                        assert(is_unique_char_at(s@, c, i as int));
                        lemma_unique_char_parts(s@, c, i as int);
                        assert(s@.subrange(0, i as int) =~= s@.take(i as int));
                    }
                    let first = s.substring_char(0, i);
                    Some((first, rest))
                },
            }
        },
    }
}

/// The ASCII-lowered copy of a string.
pub fn to_lowercase_str(s: &str) -> (r: String)
    ensures
        r@ == lower_seq(s@),
{
    let len = s.unicode_len();
    let mut r = String::new();
    let mut i: usize = 0;
    while i < len
        invariant
            len == s@.len(),
            0 <= i <= len,
            r@ == lower_seq(s@.take(i as int)),
        decreases len - i,
    {
        let c = lower_char_exec(s.get_char(i));
        push_char(&mut r, c);
        proof {
            assert(r@ =~= lower_seq(s@.take(i + 1)));
        }
        i += 1;
    }
    proof {
        assert(s@.take(len as int) =~= s@);
    }
    r
}

/// Relies on std's `String::push`: appends the given character to the end
/// of the string.
#[verifier::external_body]
pub fn push_char(s: &mut String, c: char)
    ensures
        final(s)@ == old(s)@.push(c),
{
    s.push(c);
}

/// The decimal digit character for a value below ten.
pub open spec fn digit_char(d: int) -> char {
    (48 + d) as char
}

/// The decimal rendering of a natural number, most significant digit
/// first.
pub open spec fn dec_digits(n: int) -> Seq<char>
    decreases n,
{
    if n < 10 {
        seq![digit_char(if n < 0 { 0 } else { n })]
    } else {
        dec_digits(n / 10).push(digit_char(n % 10))
    }
}

/// The decimal rendering of a signed value: a minus sign before the
/// magnitude when negative.
pub open spec fn dec_digits_i64(n: int) -> Seq<char> {
    if n < 0 {
        seq!['-'] + dec_digits(-n)
    } else {
        dec_digits(n)
    }
}

/// Appends the decimal rendering of `n` to `s`.
pub fn push_dec_u64(s: &mut String, n: u64)
    ensures
        final(s)@ == old(s)@ + dec_digits(n as int),
    decreases n,
{
    if n < 10 {
        let d = n as u8;
        push_char(s, (48 + d) as char);
        proof {
            assert(old(s)@ + dec_digits(n as int) =~= old(s)@.push(digit_char(n as int)));
        }
    } else {
        push_dec_u64(s, n / 10);
        let d = (n % 10) as u8;
        push_char(s, (48 + d) as char);
        proof {
            assert(old(s)@ + dec_digits(n as int) =~= (old(s)@ + dec_digits(
                n as int / 10,
            )).push(digit_char(n as int % 10)));
        }
    }
}

/// Appends the decimal rendering of a signed value to `s`.
pub fn push_dec_i64(s: &mut String, n: i64)
    ensures
        final(s)@ == old(s)@ + dec_digits_i64(n as int),
{
    if n < 0 {
        push_char(s, '-');
        let m = (-(n as i128)) as u64;
        push_dec_u64(s, m);
        proof {
            assert(old(s)@ + dec_digits_i64(n as int) =~= (old(s)@.push('-')) + dec_digits(
                -(n as int),
            ));
        }
    } else {
        push_dec_u64(s, n as u64);
    }
}

/// The decimal rendering of `n` as a fresh string.
pub fn u64_to_string(n: u64) -> (r: String)
    ensures
        r@ == dec_digits(n as int),
{
    let mut s = String::new();
    push_dec_u64(&mut s, n);
    proof {
        assert(Seq::<char>::empty() + dec_digits(n as int) =~= dec_digits(n as int));
    }
    s
}

} // verus!
