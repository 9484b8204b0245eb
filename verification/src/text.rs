//! Character-level helpers over `str`: Unicode whitespace, trimming and
//! comparison.

use vstd::prelude::*;
use vstd::string::StrSliceExecFns;
use vstd::string::StringExecFns;

verus! {

/// The Unicode `White_Space` property (PropList.txt).
pub open spec fn unicode_white_space(c: char) -> bool {
    let u = c as u32;
    ||| (0x9 <= u && u <= 0xd)
    ||| u == 0x20
    ||| u == 0x85
    ||| u == 0xa0
    ||| u == 0x1680
    ||| (0x2000 <= u && u <= 0x200a)
    ||| u == 0x2028
    ||| u == 0x2029
    ||| u == 0x202f
    ||| u == 0x205f
    ||| u == 0x3000
}

/// Whether `c` has the Unicode `White_Space` property, as `char::is_whitespace`
/// decides it.
pub fn is_whitespace(c: char) -> (r: bool)
    ensures
        r == unicode_white_space(c),
{
    let u = c as u32;
    (0x9 <= u && u <= 0xd) || u == 0x20 || u == 0x85 || u == 0xa0 || u == 0x1680 || (0x2000 <= u
        && u <= 0x200a) || u == 0x2028 || u == 0x2029 || u == 0x202f || u == 0x205f || u == 0x3000
}

/// `s` with its leading whitespace removed.
pub open spec fn trim_start(s: Seq<char>) -> Seq<char>
    decreases s.len(),
{
    if s.len() > 0 && unicode_white_space(s[0]) {
        trim_start(s.drop_first())
    } else {
        s
    }
}

/// `s` with its trailing whitespace removed.
pub open spec fn trim_end(s: Seq<char>) -> Seq<char>
    decreases s.len(),
{
    if s.len() > 0 && unicode_white_space(s.last()) {
        trim_end(s.drop_last())
    } else {
        s
    }
}

/// `s` with leading and trailing whitespace removed, as `str::trim` does.
pub open spec fn trim(s: Seq<char>) -> Seq<char> {
    trim_end(trim_start(s))
}

/// Returns `s` without leading and trailing Unicode whitespace.
pub fn trimmed(s: &str) -> (r: &str)
    ensures
        r@ == trim(s@),
{
    let n = s.unicode_len();
    let mut lo: usize = 0;
    proof {
        assert(s@.subrange(0, n as int) =~= s@);
    }
    while lo < n && is_whitespace(s.get_char(lo))
        invariant
            n == s@.len(),
            lo <= n,
            trim_start(s@) == trim_start(s@.subrange(lo as int, n as int)),
        decreases n - lo,
    {
        proof {
            assert(s@.subrange(lo as int, n as int).drop_first() =~= s@.subrange(lo + 1, n as int));
        }
        lo = lo + 1;
    }
    let mut hi: usize = n;
    proof {
        assert(trim_start(s@.subrange(lo as int, n as int)) == s@.subrange(lo as int, n as int));
    }
    while hi > lo && is_whitespace(s.get_char(hi - 1))
        invariant
            n == s@.len(),
            lo <= hi <= n,
            trim(s@) == trim_end(s@.subrange(lo as int, hi as int)),
        decreases hi - lo,
    {
        proof {
            assert(s@.subrange(lo as int, hi as int).drop_last() =~= s@.subrange(lo as int, hi - 1));
        }
        hi = hi - 1;
    }
    s.substring_char(lo, hi)
}

/// Character-wise equality of two string slices.
pub fn str_equals(a: &str, b: &str) -> (r: bool)
    ensures
        r == (a@ == b@),
{
    let n = a.unicode_len();
    if n != b.unicode_len() {
        return false;
    }
    let mut i: usize = 0;
    while i < n
        invariant
            n == a@.len(),
            n == b@.len(),
            i <= n,
            forall|j: int| 0 <= j < i ==> a@[j] == b@[j],
        decreases n - i,
    {
        if a.get_char(i) != b.get_char(i) {
            return false;
        }
        i = i + 1;
    }
    proof {
        assert(a@ =~= b@);
    }
    true
}

/// Whether `s` holds the character `c`.
pub fn contains_char(s: &str, c: char) -> (r: bool)
    ensures
        r == s@.contains(c),
{
    let n = s.unicode_len();
    let mut i: usize = 0;
    while i < n
        invariant
            n == s@.len(),
            i <= n,
            forall|j: int| 0 <= j < i ==> s@[j] != c,
        decreases n - i,
    {
        if s.get_char(i) == c {
            proof {
                assert(s@[i as int] == c);
            }
            return true;
        }
        i = i + 1;
    }
    false
}

/// Index of the first `c` in `s` at or after `from`, if there is one.
pub fn find_char_from(s: &str, c: char, from: usize) -> (r: Option<usize>)
    requires
        from <= s@.len(),
    ensures
        match r {
            Some(i) => from <= i < s@.len() && s@[i as int] == c && forall|j: int|
                from <= j < i ==> s@[j] != c,
            None => forall|j: int| from <= j < s@.len() ==> s@[j] != c,
        },
{
    let n = s.unicode_len();
    let mut i: usize = from;
    while i < n
        invariant
            n == s@.len(),
            from <= i <= n,
            forall|j: int| from <= j < i ==> s@[j] != c,
        decreases n - i,
    {
        if s.get_char(i) == c {
            return Some(i);
        }
        i = i + 1;
    }
    None
}

/// A new `String` holding the characters of `s`.
pub fn owned(s: &str) -> (r: String)
    ensures
        r@ == s@,
{
    String::from_str(s)
}

/// The whitespace characters: tab, line feed, vertical tab, form feed,
/// carriage return, space, next line, no-break space, ogham space mark, the
/// spaces from en quad to hair space, line and paragraph separators, narrow
/// no-break space, medium mathematical space and ideographic space. Letters,
/// `|`, zero-width space, Mongolian vowel separator and the byte order mark
/// are not whitespace.
pub proof fn lemma_whitespace_set()
    ensures
        unicode_white_space('\t'),
        unicode_white_space('\n'),
        unicode_white_space('\u{b}'),
        unicode_white_space('\u{c}'),
        unicode_white_space('\r'),
        unicode_white_space(' '),
        unicode_white_space('\u{85}'),
        unicode_white_space('\u{a0}'),
        unicode_white_space('\u{1680}'),
        forall|u: u32| 0x2000 <= u <= 0x200a ==> #[trigger] unicode_white_space(u as char),
        unicode_white_space('\u{2028}'),
        unicode_white_space('\u{2029}'),
        unicode_white_space('\u{202f}'),
        unicode_white_space('\u{205f}'),
        unicode_white_space('\u{3000}'),
        !unicode_white_space('a'),
        !unicode_white_space('|'),
        !unicode_white_space('\u{200b}'),
        !unicode_white_space('\u{180e}'),
        !unicode_white_space('\u{feff}'),
        forall|c: char| (c as u32) < 0x9 ==> !#[trigger] unicode_white_space(c),
        forall|c: char|
            0x21 <= (c as u32) < 0x85 ==> !#[trigger] unicode_white_space(c),
{
    assert forall|u: u32| 0x2000 <= u <= 0x200a implies #[trigger] unicode_white_space(
        u as char,
    ) by {
        assert((u as char) as u32 == u);
    }
}

/// Removing leading whitespace drops a run of whitespace from the front and
/// stops at the first other character.
proof fn lemma_trim_start_shape(s: Seq<char>)
    ensures
        exists|lo: int|
            0 <= lo <= s.len() && trim_start(s) == s.subrange(lo, s.len() as int) && (forall|i: int|
                0 <= i < lo ==> unicode_white_space(#[trigger] s[i])) && (lo < s.len()
                ==> !unicode_white_space(s[lo])),
    decreases s.len(),
{
    if s.len() > 0 && unicode_white_space(s[0]) {
        lemma_trim_start_shape(s.drop_first());
        let t = s.drop_first();
        let lo = choose|lo: int|
            0 <= lo <= t.len() && trim_start(t) == t.subrange(lo, t.len() as int) && (forall|i: int|
                0 <= i < lo ==> unicode_white_space(#[trigger] t[i])) && (lo < t.len()
                ==> !unicode_white_space(t[lo]));
        assert(t.subrange(lo, t.len() as int) =~= s.subrange(lo + 1, s.len() as int));
        assert forall|i: int| 0 <= i < lo + 1 implies unicode_white_space(#[trigger] s[i]) by {
            if i > 0 {
                assert(s[i] == t[i - 1]);
            }
        }
        assert(lo + 1 < s.len() ==> s[lo + 1] == t[lo]);
    } else {
        assert(s.subrange(0, s.len() as int) =~= s);
    }
}

/// Removing trailing whitespace drops a run of whitespace from the back and
/// stops at the last other character.
proof fn lemma_trim_end_shape(s: Seq<char>)
    ensures
        exists|hi: int|
            0 <= hi <= s.len() && trim_end(s) == s.subrange(0, hi) && (forall|i: int|
                hi <= i < s.len() ==> unicode_white_space(#[trigger] s[i])) && (hi > 0
                ==> !unicode_white_space(s[hi - 1])),
    decreases s.len(),
{
    if s.len() > 0 && unicode_white_space(s.last()) {
        lemma_trim_end_shape(s.drop_last());
        let t = s.drop_last();
        let hi = choose|hi: int|
            0 <= hi <= t.len() && trim_end(t) == t.subrange(0, hi) && (forall|i: int|
                hi <= i < t.len() ==> unicode_white_space(#[trigger] t[i])) && (hi > 0
                ==> !unicode_white_space(t[hi - 1]));
        assert(t.subrange(0, hi) =~= s.subrange(0, hi));
        assert forall|i: int| hi <= i < s.len() implies unicode_white_space(#[trigger] s[i]) by {
            if i < s.len() - 1 {
                assert(s[i] == t[i]);
            }
        }
        assert(hi > 0 ==> s[hi - 1] == t[hi - 1]);
    } else {
        assert(s.subrange(0, s.len() as int) =~= s);
    }
}

/// Trimming keeps a contiguous middle part of the text: everything removed
/// before and after it is whitespace, and the part kept, when not empty,
/// neither begins nor ends with whitespace.
pub proof fn lemma_trim_shape(s: Seq<char>)
    ensures
        exists|lo: int, hi: int|
            0 <= lo <= hi <= s.len() && trim(s) == s.subrange(lo, hi) && (forall|i: int|
                0 <= i < lo ==> unicode_white_space(#[trigger] s[i])) && (forall|i: int|
                hi <= i < s.len() ==> unicode_white_space(#[trigger] s[i])) && (lo < hi ==> (
            !unicode_white_space(s[lo]) && !unicode_white_space(s[hi - 1]))),
{
    lemma_trim_start_shape(s);
    let lo = choose|lo: int|
        0 <= lo <= s.len() && trim_start(s) == s.subrange(lo, s.len() as int) && (forall|i: int|
            0 <= i < lo ==> unicode_white_space(#[trigger] s[i])) && (lo < s.len()
            ==> !unicode_white_space(s[lo]));
    let t = trim_start(s);
    lemma_trim_end_shape(t);
    let h = choose|hi: int|
        0 <= hi <= t.len() && trim_end(t) == t.subrange(0, hi) && (forall|i: int|
            hi <= i < t.len() ==> unicode_white_space(#[trigger] t[i])) && (hi > 0
            ==> !unicode_white_space(t[hi - 1]));
    let hi = lo + h;
    assert(t.subrange(0, h) =~= s.subrange(lo, hi));
    assert forall|i: int| hi <= i < s.len() implies unicode_white_space(#[trigger] s[i]) by {
        assert(s[i] == t[i - lo]);
    }
    assert(lo < hi ==> s[lo] == t[0] && s[hi - 1] == t[h - 1]);
}

/// Every character of `w` is whitespace.
pub open spec fn all_white_space(w: Seq<char>) -> bool {
    forall|i: int| 0 <= i < w.len() ==> unicode_white_space(#[trigger] w[i])
}

proof fn lemma_trim_start_prefix(w: Seq<char>, s: Seq<char>)
    requires
        all_white_space(w),
    ensures
        trim_start(w + s) == trim_start(s),
    decreases w.len(),
{
    if w.len() > 0 {
        assert((w + s)[0] == w[0]);
        assert((w + s).drop_first() =~= w.drop_first() + s);
        assert(all_white_space(w.drop_first())) by {
            assert forall|i: int| 0 <= i < w.drop_first().len() implies unicode_white_space(
                #[trigger] w.drop_first()[i],
            ) by {
                assert(w.drop_first()[i] == w[i + 1]);
            }
        }
        lemma_trim_start_prefix(w.drop_first(), s);
    } else {
        assert(w + s =~= s);
    }
}

proof fn lemma_trim_end_suffix(s: Seq<char>, w: Seq<char>)
    requires
        all_white_space(w),
    ensures
        trim_end(s + w) == trim_end(s),
    decreases w.len(),
{
    if w.len() > 0 {
        assert((s + w).last() == w.last());
        assert((s + w).drop_last() =~= s + w.drop_last());
        assert(all_white_space(w.drop_last())) by {
            assert forall|i: int| 0 <= i < w.drop_last().len() implies unicode_white_space(
                #[trigger] w.drop_last()[i],
            ) by {
                assert(w.drop_last()[i] == w[i]);
            }
        }
        lemma_trim_end_suffix(s, w.drop_last());
    } else {
        assert(s + w =~= s);
    }
}

/// Trimming from the front and then adding whitespace at the back: either
/// the front removal stops inside `s`, or it takes all of `s` and the
/// added whitespace too.
proof fn lemma_trim_start_then_suffix(s: Seq<char>, w: Seq<char>)
    requires
        all_white_space(w),
    ensures
        trim_start(s).len() > 0 ==> trim_start(s + w) == trim_start(s) + w,
        trim_start(s).len() == 0 ==> trim_start(s + w).len() == 0,
    decreases s.len(),
{
    if s.len() > 0 && unicode_white_space(s[0]) {
        assert((s + w)[0] == s[0]);
        assert((s + w).drop_first() =~= s.drop_first() + w);
        lemma_trim_start_then_suffix(s.drop_first(), w);
    } else if s.len() > 0 {
        assert((s + w)[0] == s[0]);
    } else {
        assert(s + w =~= w);
        lemma_trim_start_prefix(w, Seq::<char>::empty());
        assert(w + Seq::<char>::empty() =~= w);
    }
}

/// Whitespace added before and after a text does not change what trimming
/// keeps of it.
pub proof fn lemma_trim_ignores_surrounding_whitespace(w1: Seq<char>, s: Seq<char>, w2: Seq<char>)
    requires
        all_white_space(w1),
        all_white_space(w2),
    ensures
        trim(w1 + s + w2) == trim(s),
{
    assert(w1 + s + w2 =~= w1 + (s + w2));
    lemma_trim_start_prefix(w1, s + w2);
    lemma_trim_start_then_suffix(s, w2);
    if trim_start(s).len() > 0 {
        lemma_trim_end_suffix(trim_start(s), w2);
    } else {
        assert(trim_start(s) =~= Seq::<char>::empty());
        assert(trim_start(s + w2) =~= Seq::<char>::empty());
    }
}

} // verus!
