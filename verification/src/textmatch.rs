//! Whitelist matching over the raw payload text.
//!
//! A payload counts as public when any whitelisted marker occurs in its hex
//! text as a substring. This is deliberately a substring search, not a
//! structural decode: a marker anywhere in the text matches, even outside
//! the method-selector position, which is a known weakness of the scheme
//! and is stated here exactly as implemented.

use vstd::prelude::*;

verus! {

/// The needle occurs in the haystack starting at position `i`.
pub open spec fn matches_at(hay: Seq<char>, needle: Seq<char>, i: int) -> bool {
    0 <= i && i + needle.len() <= hay.len() && hay.subrange(i, i + needle.len()) == needle
}

/// The needle occurs somewhere in the haystack.
pub open spec fn contains_substring(hay: Seq<char>, needle: Seq<char>) -> bool {
    exists|i: int| matches_at(hay, needle, i)
}

/// Some marker of the whitelist occurs in the payload text.
pub open spec fn spec_is_public(markers: Seq<String>, payload: Seq<char>) -> bool {
    exists|k: int| 0 <= k < markers.len() && contains_substring(payload, markers[k]@)
}

/// Whether the needle occurs in the haystack at position `i` exactly.
fn matches_at_pos(hay: &str, needle: &str, i: usize, hlen: usize, nlen: usize) -> (r: bool)
    requires
        hlen == hay@.len(),
        nlen == needle@.len(),
        i + nlen <= hlen,
    ensures
        r == matches_at(hay@, needle@, i as int),
{
    let mut j: usize = 0;
    while j < nlen
        invariant
            hlen == hay@.len(),
            nlen == needle@.len(),
            i + nlen <= hlen,
            j <= nlen,
            forall|t: int| 0 <= t < j ==> hay@[i + t] == needle@[t],
        decreases nlen - j,
    {
        if hay.get_char(i + j) != needle.get_char(j) {
            proof {
                if hay@.subrange(i as int, i + nlen) == needle@ {
                    assert(hay@.subrange(i as int, i + nlen)[j as int] == needle@[j as int]);
                }
            }
            return false;
        }
        j = j + 1;
    }
    proof {
        assert(hay@.subrange(i as int, i + nlen) =~= needle@);
    }
    true
}

/// Whether the needle occurs anywhere in the haystack, by a direct scan of
/// every starting position.
pub fn contains_marker(hay: &str, needle: &str) -> (r: bool)
    ensures
        r == contains_substring(hay@, needle@),
{
    let hlen = hay.unicode_len();
    let nlen = needle.unicode_len();
    if nlen == 0 {
        proof {
            assert(hay@.subrange(0, 0) =~= needle@);
            assert(matches_at(hay@, needle@, 0));
        }
        return true;
    }
    if nlen > hlen {
        proof {
            if contains_substring(hay@, needle@) {
                let i = choose|i: int| matches_at(hay@, needle@, i);
                assert(matches_at(hay@, needle@, i));
            }
        }
        return false;
    }
    let bound = hlen - nlen;
    let mut i: usize = 0;
    while i <= bound
        invariant
            hlen == hay@.len(),
            nlen == needle@.len(),
            0 < nlen <= hlen,
            bound == hlen - nlen,
            i <= bound + 1,
            forall|k: int| 0 <= k < i ==> !matches_at(hay@, needle@, k),
        decreases bound + 1 - i,
    {
        if matches_at_pos(hay, needle, i, hlen, nlen) {
            proof {
                assert(matches_at(hay@, needle@, i as int));
            }
            return true;
        }
        i = i + 1;
    }
    proof {
        if contains_substring(hay@, needle@) {
            let k = choose|k: int| matches_at(hay@, needle@, k);
            assert(matches_at(hay@, needle@, k));
            assert(!matches_at(hay@, needle@, k));
        }
    }
    false
}

/// Whether any whitelisted marker occurs in the payload text.
pub fn is_public_payload(markers: &Vec<String>, payload: &str) -> (r: bool)
    ensures
        r == spec_is_public(markers@, payload@),
{
    let n = markers.len();
    let mut k: usize = 0;
    while k < n
        invariant
            n == markers@.len(),
            k <= n,
            forall|t: int| 0 <= t < k ==> !contains_substring(payload@, (#[trigger] markers@[t])@),
        decreases n - k,
    {
        if contains_marker(payload, markers[k].as_str()) {
            proof {
                assert(contains_substring(payload@, markers@[k as int]@));
            }
            return true;
        }
        k = k + 1;
    }
    proof {
        if spec_is_public(markers@, payload@) {
            let t = choose|t: int| 0 <= t < markers@.len() && contains_substring(
                payload@,
                markers@[t]@,
            );
            assert(!contains_substring(payload@, markers@[t]@));
        }
    }
    false
}

} // verus!
