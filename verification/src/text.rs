//! Text handling shared by the configuration and the request checks.

use vstd::prelude::*;

verus! {

/// The lower-case form of `s` that `str::to_lowercase` returns.
pub uninterp spec fn lowercase_of(s: Seq<char>) -> Seq<char>;

/// `s` without leading and trailing white space, as `str::trim` returns it.
pub uninterp spec fn trimmed(s: Seq<char>) -> Seq<char>;

/// `str::to_lowercase`: the result is named [`lowercase_of`]; it depends on
/// the text alone, through the Unicode tables built into the standard library.
pub assume_specification[ str::to_lowercase ](s: &str) -> (lower: String)
    ensures
        lower@ == lowercase_of(s@),
;

/// `str::trim`: the result is named [`trimmed`]; it depends on the text alone.
pub assume_specification[ str::trim ](s: &str) -> (inner: &str)
    ensures
        inner@ == trimmed(s@),
;

/// `s` without the run of `c` it starts with.
pub open spec fn strip_leading(s: Seq<char>, c: char) -> Seq<char>
    decreases s.len(),
{
    if s.len() > 0 && s[0] == c {
        strip_leading(s.drop_first(), c)
    } else {
        s
    }
}

/// `s` ends with the characters of `tail`.
pub open spec fn ends_with(s: Seq<char>, tail: Seq<char>) -> bool {
    s.len() >= tail.len() && s.subrange(s.len() - tail.len(), s.len() as int) == tail
}

/// The views of a list of strings.
pub open spec fn texts(v: Seq<String>) -> Seq<Seq<char>> {
    v.map_values(|t: String| t@)
}

/// Skipping `k` leading occurrences of `c` does not change what is left once
/// the whole run is stripped.
proof fn lemma_strip_leading_skip(s: Seq<char>, c: char, k: int)
    requires
        0 <= k <= s.len(),
        forall|j: int| 0 <= j < k ==> s[j] == c,
    ensures
        strip_leading(s, c) == strip_leading(s.skip(k), c),
    decreases k,
{
    if k == 0 {
        assert(s.skip(0) =~= s);
    } else {
        lemma_strip_leading_skip(s.drop_first(), c, k - 1);
        assert(s.drop_first().skip(k - 1) =~= s.skip(k));
    }
}

/// Whether `s` starts with `@`.
pub fn starts_with_at(s: &str) -> (yes: bool)
    ensures
        yes == (s@.len() > 0 && s@[0] == '@'),
{
    s.unicode_len() > 0 && s.get_char(0) == '@'
}

/// `s` without the `@` signs it starts with.
pub fn trim_start_at(s: &str) -> (rest: &str)
    ensures
        rest@ == strip_leading(s@, '@'),
{
    let n = s.unicode_len();
    let mut i: usize = 0;
    while i < n && s.get_char(i) == '@'
        invariant
            i <= n,
            n == s@.len(),
            forall|j: int| 0 <= j < i ==> s@[j] == '@',
        decreases n - i,
    {
        i += 1;
    }
    proof {
        lemma_strip_leading_skip(s@, '@', i as int);
        assert(s@.skip(i as int) =~= s@.subrange(i as int, n as int));
    }
    s.substring_char(i, n)
}

/// Whether `s` ends with `bot`.
pub fn ends_with_bot(s: &str) -> (yes: bool)
    ensures
        yes == ends_with(s@, seq!['b', 'o', 't']),
{
    let n = s.unicode_len();
    if n < 3 {
        return false;
    }
    let yes = s.get_char(n - 3) == 'b' && s.get_char(n - 2) == 'o' && s.get_char(n - 1) == 't';
    proof {
        let tail = s@.subrange(n - 3, n as int);
        if yes {
            assert(tail =~= seq!['b', 'o', 't']);
        } else {
            assert(tail[0] == s@[n - 3] && tail[1] == s@[n - 2] && tail[2] == s@[n - 1]);
        }
    }
    yes
}

/// Whether `needle` is one of `list`.
pub fn contains_text(list: &Vec<String>, needle: &str) -> (found: bool)
    ensures
        found == texts(list@).contains(needle@),
{
    let wanted = needle.to_owned();
    let n = list.len();
    let mut i: usize = 0;
    while i < n
        invariant
            i <= n,
            n == list@.len(),
            wanted@ == needle@,
            forall|j: int| 0 <= j < i ==> texts(list@)[j] != needle@,
        decreases n - i,
    {
        if list[i] == wanted {
            assert(texts(list@)[i as int] == needle@);
            return true;
        }
        i += 1;
    }
    false
}

} // verus!
