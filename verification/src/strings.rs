//! Byte-level text helpers used by the validation and search rules:
//! ASCII-case-insensitive substring matching, blank detection, and a few
//! verified cloning and equality helpers for strings.

use vstd::prelude::*;
use vstd::std_specs::iter::IteratorSpec;
use vstd::string::StringSliceAdditionalSpecFns;
use vstd::utf8::encode_utf8_decode_utf8;

verus! {

/// ASCII lower-casing of a single byte; bytes outside `A..=Z` are unchanged.
pub open spec fn lower_byte(b: u8) -> u8 {
    if 65 <= b <= 90 {
        (b + 32) as u8
    } else {
        b
    }
}

/// `pat` occurs in `hay` at offset `k`, comparing bytes ASCII-case-insensitively.
pub open spec fn ci_match_at(hay: Seq<u8>, pat: Seq<u8>, k: int) -> bool {
    &&& 0 <= k
    &&& k + pat.len() <= hay.len()
    &&& forall|j: int| 0 <= j < pat.len() ==> lower_byte(hay[k + j]) == lower_byte(pat[j])
}

/// `pat` occurs somewhere in `hay`, ignoring ASCII case.
pub open spec fn ci_contains(hay: Seq<u8>, pat: Seq<u8>) -> bool {
    exists|k: int| ci_match_at(hay, pat, k)
}

/// ASCII whitespace, the characters that blank-name detection ignores.
pub open spec fn is_space_byte(b: u8) -> bool {
    b == 32 || b == 9 || b == 10 || b == 11 || b == 12 || b == 13
}

/// A text is blank when every byte of it is ASCII whitespace.
pub open spec fn is_blank(s: Seq<u8>) -> bool {
    forall|i: int| 0 <= i < s.len() ==> is_space_byte(s[i])
}

fn byte_lower(b: u8) -> (r: u8)
    ensures
        r == lower_byte(b),
{
    if 65 <= b && b <= 90 {
        b + 32
    } else {
        b
    }
}

/// Byte-for-byte equality of two slices.
pub fn bytes_eq(a: &[u8], b: &[u8]) -> (r: bool)
    ensures
        r == (a@ == b@),
{
    if a.len() != b.len() {
        return false;
    }
    let n = a.len();
    let mut i: usize = 0;
    while i < n
        invariant
            n == a@.len() == b@.len(),
            0 <= i <= n,
            forall|j: int| 0 <= j < i ==> a@[j] == b@[j],
        decreases n - i,
    {
        if a[i] != b[i] {
            return false;
        }
        i += 1;
    }
    proof {
        assert(a@ =~= b@);
    }
    true
}

/// Equality of two string slices as character sequences.
pub fn str_eq(a: &str, b: &str) -> (r: bool)
    ensures
        r == (a@ == b@),
{
    let r = bytes_eq(a.as_bytes(), b.as_bytes());
    proof {
        if a.spec_bytes() == b.spec_bytes() {
            encode_utf8_decode_utf8(a@);
            encode_utf8_decode_utf8(b@);
        }
    }
    r
}

/// Whether `s` consists of ASCII whitespace only (so its trimmed form is empty).
pub fn str_is_blank(s: &str) -> (r: bool)
    ensures
        r == is_blank(s.spec_bytes()),
{
    let bytes = s.as_bytes();
    let n = bytes.len();
    let mut i: usize = 0;
    while i < n
        invariant
            n == bytes@.len(),
            bytes@ == s.spec_bytes(),
            0 <= i <= n,
            forall|j: int| 0 <= j < i ==> is_space_byte(bytes@[j]),
        decreases n - i,
    {
        let b = bytes[i];
        if !(b == 32 || b == 9 || b == 10 || b == 11 || b == 12 || b == 13) {
            return false;
        }
        i += 1;
    }
    true
}

fn ci_match_at_exec(hay: &[u8], pat: &[u8], k: usize) -> (r: bool)
    requires
        k + pat@.len() <= hay@.len(),
    ensures
        r == ci_match_at(hay@, pat@, k as int),
{
    let n = hay.len();
    let m = pat.len();
    let mut j: usize = 0;
    while j < m
        invariant
            n == hay@.len(),
            m == pat@.len(),
            k + m <= hay@.len(),
            0 <= j <= m,
            forall|jj: int| 0 <= jj < j ==> lower_byte(hay@[k + jj]) == lower_byte(pat@[jj]),
        decreases m - j,
    {
        if byte_lower(hay[k + j]) != byte_lower(pat[j]) {
            return false;
        }
        j += 1;
    }
    true
}

/// Whether `pat` occurs in `hay`, comparing ASCII-case-insensitively.
pub fn str_contains_ci(hay: &str, pat: &str) -> (r: bool)
    ensures
        r == ci_contains(hay.spec_bytes(), pat.spec_bytes()),
{
    let h = hay.as_bytes();
    let p = pat.as_bytes();
    if p.len() > h.len() {
        proof {
            assert(forall|k: int| !ci_match_at(h@, p@, k));
        }
        return false;
    }
    if p.is_empty() {
        proof {
            assert(ci_match_at(h@, p@, 0));
        }
        return true;
    }
    let last = h.len() - p.len();
    let mut k: usize = 0;
    while k <= last
        invariant
            h@ == hay.spec_bytes(),
            p@ == pat.spec_bytes(),
            1 <= p@.len() <= h@.len(),
            h@.len() <= usize::MAX,
            last == h@.len() - p@.len(),
            0 <= k <= last + 1,
            forall|kk: int| 0 <= kk < k ==> !ci_match_at(h@, p@, kk),
        decreases last + 1 - k,
    {
        if ci_match_at_exec(h, p, k) {
            proof {
                assert(ci_match_at(h@, p@, k as int));
                assert(ci_contains(h@, p@));
            }
            return true;
        }
        k += 1;
    }
    proof {
        assert(forall|kk: int| ci_match_at(h@, p@, kk) ==> 0 <= kk <= last);
    }
    false
}

/// The characters of a string slice, as a vector.
pub fn chars_of(s: &str) -> (r: Vec<char>)
    ensures
        r@ == s@,
{
    broadcast use vstd::string::axiom_spec_iter, vstd::string::next_postcondition;

    let mut it = s.chars();
    let mut out: Vec<char> = Vec::new();
    loop
        invariant
            it.obeys_prophetic_iter_laws(),
            it.decrease() is Some,
            out@ + it.remaining() == s@,
        decreases it.decrease().unwrap(),
    {
        match it.next() {
            Some(c) => {
                out.push(c);
                proof {
                    assert(out@ + it.remaining() =~= s@);
                }
            },
            None => {
                proof {
                    assert(out@ =~= s@);
                }
                return out;
            },
        }
    }
}

/// Whether `s` holds more than `limit` characters; counting stops as soon
/// as the limit is passed.
pub fn str_longer_than(s: &str, limit: usize) -> (r: bool)
    requires
        limit < usize::MAX,
    ensures
        r == (s@.len() > limit),
{
    broadcast use vstd::string::axiom_spec_iter, vstd::string::next_postcondition;

    let mut it = s.chars();
    let mut count: usize = 0;
    loop
        invariant
            limit < usize::MAX,
            it.obeys_prophetic_iter_laws(),
            it.decrease() is Some,
            count <= limit,
            count + it.remaining().len() == s@.len(),
        decreases it.decrease().unwrap(),
    {
        match it.next() {
            Some(_) => {
                count += 1;
                if count > limit {
                    return true;
                }
            },
            None => {
                return false;
            },
        }
    }
}

/// A copy of a string that is known to keep its characters.
pub fn clone_string(s: &String) -> (r: String)
    ensures
        r@ == s@,
{
    s.clone()
}

/// A copy of an optional string that keeps its characters.
pub fn clone_opt_string(s: &Option<String>) -> (r: Option<String>)
    ensures
        r.deep_view() == s.deep_view(),
{
    match s {
        None => None,
        Some(v) => Some(v.clone()),
    }
}

/// A copy of an optional list of optional strings (the shape of the media
/// columns) that keeps every character.
pub fn clone_string_list(s: &Option<Vec<Option<String>>>) -> (r: Option<Vec<Option<String>>>)
    ensures
        r.deep_view() == s.deep_view(),
{
    match s {
        None => None,
        Some(v) => {
            let mut out: Vec<Option<String>> = Vec::new();
            let n = v.len();
            let mut i: usize = 0;
            while i < n
                invariant
                    n == v@.len(),
                    0 <= i <= n,
                    out@.len() == i,
                    forall|j: int| 0 <= j < i ==> out@[j].deep_view() == v@[j].deep_view(),
                decreases n - i,
            {
                out.push(clone_opt_string(&v[i]));
                i += 1;
            }
            proof {
                assert(out.deep_view() =~~= v.deep_view());
            }
            Some(out)
        },
    }
}

} // verus!
