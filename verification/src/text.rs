//! Byte-level helpers for ASCII-oriented string handling.

use vstd::prelude::*;

verus! {

/// The ASCII lower-case form of one byte; other bytes are unchanged.
pub open spec fn ascii_lower(b: u8) -> u8 {
    if 65 <= b <= 90 { (b + 32) as u8 } else { b }
}

/// The byte sequence with every ASCII upper-case letter lowered.
pub open spec fn lower_bytes(s: Seq<u8>) -> Seq<u8> {
    Seq::new(s.len(), |i: int| ascii_lower(s[i]))
}

/// Two byte sequences are equal when ASCII letter case is ignored.
pub open spec fn eq_ignore_case(a: Seq<u8>, b: Seq<u8>) -> bool {
    lower_bytes(a) == lower_bytes(b)
}

/// ASCII whitespace as `u8::is_ascii_whitespace` defines it.
pub open spec fn is_ascii_ws(b: u8) -> bool {
    b == 32 || b == 9 || b == 10 || b == 12 || b == 13
}

/// A byte that continues a multi-byte UTF-8 encoding.
pub open spec fn is_continuation(b: u8) -> bool {
    128 <= b < 192
}

/// `n` splits the bytes of a string between two characters.
pub open spec fn splits_chars(s: Seq<u8>, n: int) -> bool {
    n == 0 || n == s.len() || (0 < n < s.len() && !is_continuation(s[n]))
}

/// `needle` occurs in `hay` starting at `i`.
pub open spec fn occurs_at(hay: Seq<u8>, needle: Seq<u8>, i: int) -> bool {
    0 <= i && i + needle.len() <= hay.len() && hay.subrange(i, i + needle.len()) == needle
}

/// `needle` occurs somewhere in `hay`.
pub open spec fn contains_bytes(hay: Seq<u8>, needle: Seq<u8>) -> bool {
    exists|i: int| occurs_at(hay, needle, i)
}

/// `hay[i..j]` is one of the words that splitting `hay` on ASCII whitespace
/// yields: it is not empty, holds no whitespace, and is bounded by whitespace
/// or the ends of `hay`.
pub open spec fn is_word(hay: Seq<u8>, i: int, j: int) -> bool {
    &&& 0 <= i < j <= hay.len()
    &&& (i == 0 || is_ascii_ws(hay[i - 1]))
    &&& (j == hay.len() || is_ascii_ws(hay[j]))
    &&& forall|k: int| i <= k < j ==> !is_ascii_ws(#[trigger] hay[k])
}

pub fn lower_byte(b: u8) -> (r: u8)
    ensures
        r == ascii_lower(b),
{
    if 65 <= b && b <= 90 {
        b + 32
    } else {
        b
    }
}

pub fn is_ascii_whitespace_byte(b: u8) -> (r: bool)
    ensures
        r == is_ascii_ws(b),
{
    b == 32 || b == 9 || b == 10 || b == 12 || b == 13
}

/// Compares `a[a_start..a_start + len]` with `b[b_start..b_start + len]`,
/// ignoring ASCII case when `ignore_case` holds.
pub fn range_eq(a: &[u8], a_start: usize, b: &[u8], b_start: usize, len: usize, ignore_case: bool) -> (r: bool)
    requires
        a_start + len <= a@.len(),
        b_start + len <= b@.len(),
    ensures
        ignore_case ==> (r == eq_ignore_case(
            a@.subrange(a_start as int, a_start + len),
            b@.subrange(b_start as int, b_start + len),
        )),
        !ignore_case ==> (r == (a@.subrange(a_start as int, a_start + len) == b@.subrange(
            b_start as int,
            b_start + len,
        ))),
{
    let ghost sa = a@.subrange(a_start as int, a_start + len);
    let ghost sb = b@.subrange(b_start as int, b_start + len);
    let mut k: usize = 0;
    while k < len
        invariant
            k <= len,
            a_start + len <= a.len(),
            b_start + len <= b.len(),
            sa == a@.subrange(a_start as int, a_start + len),
            sb == b@.subrange(b_start as int, b_start + len),
            ignore_case ==> forall|m: int| 0 <= m < k ==> ascii_lower(sa[m]) == ascii_lower(sb[m]),
            !ignore_case ==> forall|m: int| 0 <= m < k ==> sa[m] == sb[m],
        decreases len - k,
    {
        let x = a[a_start + k];
        let y = b[b_start + k];
        let same = if ignore_case {
            lower_byte(x) == lower_byte(y)
        } else {
            x == y
        };
        if !same {
            proof {
                if ignore_case {
                    assert(lower_bytes(sa)[k as int] != lower_bytes(sb)[k as int]);
                } else {
                    assert(sa[k as int] != sb[k as int]);
                }
            }
            return false;
        }
        k = k + 1;
    }
    proof {
        if ignore_case {
            assert(lower_bytes(sa) =~= lower_bytes(sb));
        } else {
            assert(sa =~= sb);
        }
    }
    true
}

/// Whether `needle` occurs in `hay`, ignoring ASCII case when asked.
pub fn find_bytes(hay: &[u8], needle: &[u8], ignore_case: bool) -> (r: bool)
    ensures
        ignore_case ==> (r == contains_bytes(lower_bytes(hay@), lower_bytes(needle@))),
        !ignore_case ==> (r == contains_bytes(hay@, needle@)),
{
    let ghost h = if ignore_case { lower_bytes(hay@) } else { hay@ };
    let ghost n = if ignore_case { lower_bytes(needle@) } else { needle@ };
    if needle.len() > hay.len() {
        proof {
            assert forall|i: int| !occurs_at(h, n, i) by {}
        }
        return false;
    }
    let last = hay.len() - needle.len();
    let mut i: usize = 0;
    while i <= last
        invariant
            last == hay@.len() - needle@.len(),
            needle@.len() <= hay@.len(),
            h == (if ignore_case { lower_bytes(hay@) } else { hay@ }),
            n == (if ignore_case { lower_bytes(needle@) } else { needle@ }),
            forall|m: int| 0 <= m < i ==> !occurs_at(h, n, m),
        decreases last + 1 - i,
    {
        let found = range_eq(hay, i, needle, 0, needle.len(), ignore_case);
        proof {
            assert(needle@.subrange(0, needle@.len() as int) =~= needle@);
            if ignore_case {
                assert(lower_bytes(hay@).subrange(i as int, i + needle@.len()) =~= lower_bytes(
                    hay@.subrange(i as int, i + needle@.len()),
                ));
            }
        }
        if found {
            proof {
                assert(occurs_at(h, n, i as int));
            }
            return true;
        }
        if i == last {
            proof {
                assert forall|m: int| !occurs_at(h, n, m) by {
                    if 0 <= m < i { } else if m == i { } else { }
                }
            }
            return false;
        }
        i = i + 1;
    }
    false
}


/// `hay[i..j]` equals `needle`, ignoring ASCII case when asked.
pub open spec fn word_eq(hay: Seq<u8>, i: int, j: int, needle: Seq<u8>, ignore_case: bool) -> bool {
    if ignore_case {
        eq_ignore_case(needle, hay.subrange(i, j))
    } else {
        hay.subrange(i, j) == needle
    }
}

/// One of the whitespace-separated words of `hay` equals `needle`.
pub open spec fn has_matching_word(hay: Seq<u8>, needle: Seq<u8>, ignore_case: bool) -> bool {
    exists|i: int, j: int| is_word(hay, i, j) && #[trigger] word_eq(hay, i, j, needle, ignore_case)
}

/// Whether one of the whitespace-separated words of `hay` equals `needle`.
pub fn contains_word(hay: &[u8], needle: &[u8], ignore_case: bool) -> (r: bool)
    ensures
        r == has_matching_word(hay@, needle@, ignore_case),
{
    let n = hay.len();
    let mut i: usize = 0;
    while i < n
        invariant
            n == hay@.len(),
            i <= n,
            i == 0 || i == n || is_ascii_ws(hay@[i - 1]) || is_ascii_ws(hay@[i as int]),
            forall|a: int, b: int|
                is_word(hay@, a, b) && a < i ==> !#[trigger] word_eq(hay@, a, b, needle@, ignore_case),
        decreases n - i,
    {
        if is_ascii_whitespace_byte(hay[i]) {
            proof {
                assert forall|a: int, b: int|
                    is_word(hay@, a, b) && a < i + 1 implies !#[trigger] word_eq(hay@, a, b, needle@, ignore_case) by {
                    if a == i {
                        assert(!is_ascii_ws(hay@[a]));
                    }
                }
            }
            i = i + 1;
        } else {
            let mut j: usize = i;
            while j < n && !is_ascii_whitespace_byte(hay[j])
                invariant
                    n == hay@.len(),
                    i <= j <= n,
                    forall|k: int| i <= k < j ==> !is_ascii_ws(#[trigger] hay@[k]),
                decreases n - j,
            {
                j = j + 1;
            }
            proof {
                assert(i == 0 || is_ascii_ws(hay@[i - 1]));
                assert(is_word(hay@, i as int, j as int));
                assert forall|a: int, b: int| is_word(hay@, a, b) && i < a < j implies false by {
                    assert(!is_ascii_ws(hay@[a - 1]));
                }
                assert forall|b: int| is_word(hay@, i as int, b) implies b == j by {
                    if b < j {
                        assert(!is_ascii_ws(hay@[b]));
                    } else if b > j {
                        assert(!is_ascii_ws(hay@[j as int]));
                    }
                }
            }
            let len = j - i;
            if len == needle.len() {
                let eq = range_eq(needle, 0, hay, i, len, ignore_case);
                proof {
                    assert(needle@.subrange(0, len as int) =~= needle@);
                }
                if eq {
                    proof {
                        if ignore_case {
                            assert(word_eq(hay@, i as int, j as int, needle@, ignore_case));
                        } else {
                            assert(word_eq(hay@, i as int, j as int, needle@, ignore_case));
                        }
                    }
                    return true;
                }
            }
            proof {
                assert forall|a: int, b: int|
                    is_word(hay@, a, b) && a < j implies !#[trigger] word_eq(hay@, a, b, needle@, ignore_case) by {
                    if a >= i {
                        if a > i {
                        } else {
                            assert(b == j);
                            if len == needle@.len() {
                            } else {
                                assert(hay@.subrange(a, b).len() != needle@.len());
                                if ignore_case {
                                    assert(lower_bytes(needle@).len() != lower_bytes(hay@.subrange(a, b)).len());
                                }
                            }
                        }
                    }
                }
            }
            i = j;
        }
    }
    false
}

} // verus!
