//! Character-sequence searching over strings.
//!
//! The rest of the library needs three things from a string: whether it
//! contains a given substring (the opt-out marker), where a character last
//! occurs (the final path separator of a URL), and where the `n + 1`-th
//! occurrence of a character sits (the query delimiter, the origin cut).

use vstd::prelude::*;

verus! {

/// The needle `n` occurs in the haystack `h` starting at position `i`.
pub open spec fn is_match_at(h: Seq<char>, n: Seq<char>, i: int) -> bool {
    0 <= i && i + n.len() <= h.len() && h.subrange(i, i + n.len() as int) == n
}

/// The needle `n` occurs somewhere in the haystack `h`.
pub open spec fn contains_seq(h: Seq<char>, n: Seq<char>) -> bool {
    exists|i: int| is_match_at(h, n, i)
}

/// Index of the last occurrence of `c` in `s`, or `-1` when `c` does not
/// occur.
pub open spec fn last_occ(s: Seq<char>, c: char) -> int
    decreases s.len(),
{
    if s.len() == 0 {
        -1
    } else if s.last() == c {
        s.len() - 1
    } else {
        last_occ(s.drop_last(), c)
    }
}

/// Index of the `n + 1`-th occurrence of `c` in `s`, or `s.len()` when `c`
/// occurs at most `n` times.
pub open spec fn nth_occ(s: Seq<char>, c: char, n: nat) -> int
    decreases s.len(),
{
    if s.len() == 0 {
        0
    } else if s[0] == c {
        if n == 0 {
            0
        } else {
            1 + nth_occ(s.drop_first(), c, (n - 1) as nat)
        }
    } else {
        1 + nth_occ(s.drop_first(), c, n)
    }
}

pub proof fn lemma_last_occ_bounds(s: Seq<char>, c: char)
    ensures
        -1 <= last_occ(s, c) < s.len(),
    decreases s.len(),
{
    if s.len() > 0 && s.last() != c {
        lemma_last_occ_bounds(s.drop_last(), c);
    }
}

pub proof fn lemma_nth_occ_bounds(s: Seq<char>, c: char, n: nat)
    ensures
        0 <= nth_occ(s, c, n) <= s.len(),
    decreases s.len(),
{
    if s.len() > 0 {
        if s[0] == c {
            if n > 0 {
                lemma_nth_occ_bounds(s.drop_first(), c, (n - 1) as nat);
            }
        } else {
            lemma_nth_occ_bounds(s.drop_first(), c, n);
        }
    }
}

/// Whether `h[i..]` matches the whole needle `n`.
fn match_at(h: &str, n: &str, i: usize, hlen: usize, nlen: usize) -> (r: bool)
    requires
        hlen == h@.len(),
        nlen == n@.len(),
        i + nlen <= hlen,
    ensures
        r == is_match_at(h@, n@, i as int),
{
    let mut j: usize = 0;
    while j < nlen
        invariant
            hlen == h@.len(),
            nlen == n@.len(),
            i + nlen <= hlen,
            j <= nlen,
            forall|k: int| 0 <= k < j ==> h@[i + k] == n@[k],
        decreases nlen - j,
    {
        if h.get_char(i + j) != n.get_char(j) {
            proof {
                assert(h@.subrange(i as int, i + nlen as int)[j as int] != n@[j as int]);
            }
            return false;
        }
        j += 1;
    }
    proof {
        assert(h@.subrange(i as int, i + nlen as int) =~= n@);
    }
    true
}

/// Whether the haystack `h` contains the needle `n` as a contiguous
/// substring.
pub fn contains_str(h: &str, n: &str) -> (r: bool)
    ensures
        r == contains_seq(h@, n@),
{
    let hlen = h.unicode_len();
    let nlen = n.unicode_len();
    if nlen == 0 {
        proof {
            assert(h@.subrange(0, 0) =~= n@);
            assert(is_match_at(h@, n@, 0));
        }
        return true;
    }
    if nlen > hlen {
        proof {
            assert(forall|i: int| !is_match_at(h@, n@, i));
        }
        return false;
    }
    let mut i: usize = 0;
    while i <= hlen - nlen
        invariant
            hlen == h@.len(),
            nlen == n@.len(),
            1 <= nlen <= hlen,
            i <= hlen - nlen + 1,
            forall|k: int| 0 <= k < i ==> !is_match_at(h@, n@, k),
        decreases hlen - nlen + 1 - i,
    {
        if match_at(h, n, i, hlen, nlen) {
            return true;
        }
        i += 1;
    }
    proof {
        assert(forall|k: int| is_match_at(h@, n@, k) ==> 0 <= k <= hlen - nlen);
    }
    false
}

/// Index of the last occurrence of `c` within the first `j` characters of
/// `s`, or `None` when `c` does not occur there.
pub fn last_occ_upto(s: &str, c: char, j: usize) -> (r: Option<usize>)
    requires
        j <= s@.len(),
    ensures
        match r {
            None => last_occ(s@.take(j as int), c) == -1,
            Some(k) => k < j && k as int == last_occ(s@.take(j as int), c),
        },
    decreases j,
{
    if j == 0 {
        proof {
            assert(s@.take(0) =~= Seq::<char>::empty());
        }
        None
    } else {
        let ch = s.get_char(j - 1);
        proof {
            assert(s@.take(j as int).last() == s@[j - 1]);
            assert(s@.take(j as int).drop_last() =~= s@.take(j - 1));
        }
        if ch == c {
            Some(j - 1)
        } else {
            last_occ_upto(s, c, j - 1)
        }
    }
}

/// Index of the `n + 1`-th occurrence of `c` in `s` at or after position
/// `i`, counting occurrences from position `i` on; `slen` when there are at
/// most `n` such occurrences.
pub fn nth_occ_from(s: &str, c: char, n: usize, i: usize, slen: usize) -> (r: usize)
    requires
        i <= slen,
        slen == s@.len(),
    ensures
        i <= r <= slen,
        r as int == i + nth_occ(s@.subrange(i as int, slen as int), c, n as nat),
    decreases slen - i,
{
    if i == slen {
        proof {
            assert(s@.subrange(i as int, slen as int) =~= Seq::<char>::empty());
        }
        i
    } else {
        let ch = s.get_char(i);
        proof {
            assert(s@.subrange(i as int, slen as int)[0] == s@[i as int]);
            assert(s@.subrange(i as int, slen as int).drop_first() =~= s@.subrange(
                i + 1,
                slen as int,
            ));
            lemma_nth_occ_bounds(s@.subrange(i as int, slen as int), c, n as nat);
        }
        if ch == c {
            if n == 0 {
                i
            } else {
                nth_occ_from(s, c, n - 1, i + 1, slen)
            }
        } else {
            nth_occ_from(s, c, n, i + 1, slen)
        }
    }
}

} // verus!
