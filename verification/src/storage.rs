//! The pure part of upload handling: turning an uploaded file's name into a
//! safe object-name fragment. The stem of the name — the last path component
//! without its extension — is kept, and every character that is not
//! alphanumeric, '-' or '_' becomes '_'.

use vstd::prelude::*;
use vstd::string::StringSliceAdditionalSpecFns;

use crate::strings::chars_of;

verus! {

/// Whether a character counts as alphanumeric under Unicode.
pub uninterp spec fn is_unicode_alnum(c: char) -> bool;

/// Relies on char::is_alphanumeric: a deterministic classification of the
/// character alone.
pub assume_specification[ char::is_alphanumeric ](c: char) -> (b: bool)
    ensures
        b == is_unicode_alnum(c),
;

/// Relies on String::push: appending one character.
#[verifier::external_body]
fn push_char(s: &mut String, c: char)
    ensures
        final(s)@ == old(s)@.push(c),
{
    s.push(c);
}

/// The suffix of `s` after its last '/' (the whole of `s` when it has none).
pub open spec fn after_last_slash(s: Seq<char>) -> Seq<char>
    decreases s.len(),
{
    if s.len() == 0 {
        s
    } else if s.last() == '/' {
        Seq::empty()
    } else {
        after_last_slash(s.drop_last()).push(s.last())
    }
}

/// The prefix of `s` before its last '.'.
pub open spec fn before_last_dot(s: Seq<char>) -> Seq<char>
    decreases s.len(),
{
    if s.len() == 0 {
        s
    } else if s.last() == '.' {
        s.drop_last()
    } else {
        before_last_dot(s.drop_last())
    }
}

/// The stem of a file name: its last path component, cut before its last
/// '.' when one occurs past the first position (so a lone leading dot, as
/// in a hidden file's name, is kept). A name that ends in '/' has an empty
/// last component, and so an empty stem.
pub open spec fn stem_of(s: Seq<char>) -> Seq<char> {
    let base = after_last_slash(s);
    if exists|i: int| 1 <= i < base.len() && base[i] == '.' {
        before_last_dot(base)
    } else {
        base
    }
}

/// One character of the sanitized stem.
pub open spec fn sanitize_char(c: char) -> char {
    if is_unicode_alnum(c) || c == '-' || c == '_' {
        c
    } else {
        '_'
    }
}

/// The sanitized form of a file name: its stem, with every character that
/// is not alphanumeric, '-' or '_' replaced by '_'.
pub open spec fn sanitized(s: Seq<char>) -> Seq<char> {
    stem_of(s).map_values(|c: char| sanitize_char(c))
}

/// `after_last_slash` is the suffix that starts right after the last '/'.
proof fn lemma_after_last_slash(s: Seq<char>, k: int)
    requires
        0 <= k <= s.len(),
        k == 0 || s[k - 1] == '/',
        forall|j: int| k <= j < s.len() ==> s[j] != '/',
    ensures
        after_last_slash(s) == s.subrange(k, s.len() as int),
    decreases s.len(),
{
    if s.len() == 0 {
        assert(after_last_slash(s) =~= s.subrange(0, 0));
    } else if s.last() == '/' {
        assert(k == s.len());
        assert(after_last_slash(s) =~= s.subrange(k, s.len() as int));
    } else {
        lemma_after_last_slash(s.drop_last(), k);
        assert(after_last_slash(s) =~= s.subrange(k, s.len() as int));
    }
}

/// `before_last_dot` is the prefix that ends at the last '.'.
proof fn lemma_before_last_dot(s: Seq<char>, d: int)
    requires
        0 <= d < s.len(),
        s[d] == '.',
        forall|j: int| d < j < s.len() ==> s[j] != '.',
    ensures
        before_last_dot(s) == s.subrange(0, d),
    decreases s.len(),
{
    if s.last() == '.' {
        assert(d == s.len() - 1);
        assert(before_last_dot(s) =~= s.subrange(0, d));
    } else {
        lemma_before_last_dot(s.drop_last(), d);
        assert(s.drop_last().subrange(0, d) =~= s.subrange(0, d));
    }
}

/// A safe object-name fragment made from an uploaded file's name: the stem
/// of the name with every character that is not alphanumeric, '-' or '_'
/// replaced by '_'.
pub fn sanitize_filename(filename: &str) -> (r: String)
    ensures
        r@ == sanitized(filename@),
{
    let cs = chars_of(filename);
    let n = cs.len();
    // The start of the last path component.
    let mut start: usize = 0;
    let mut i: usize = 0;
    #[verifier::loop_isolation(false)]
    while i < n
        invariant
            0 <= start <= i <= n,
            start == 0 || cs@[start - 1] == '/',
            forall|j: int| start <= j < i ==> cs@[j] != '/',
        decreases n - i,
    {
        if cs[i] == '/' {
            start = i + 1;
        }
        i += 1;
    }
    proof {
        lemma_after_last_slash(cs@, start as int);
    }
    let ghost base = after_last_slash(cs@);
    // The last '.' past the first position of the component, if any.
    let mut dot: usize = 0;
    let mut has_dot = false;
    let mut k: usize = start;
    #[verifier::loop_isolation(false)]
    while k < n
        invariant
            start <= k <= n,
            has_dot ==> start < dot < k && cs@[dot as int] == '.',
            forall|j: int| (if has_dot { dot as int } else { start as int }) < j < k ==> cs@[j] != '.',
        decreases n - k,
    {
        if cs[k] == '.' && k > start {
            dot = k;
            has_dot = true;
        }
        k += 1;
    }
    let end: usize = if has_dot {
        dot
    } else {
        n
    };
    proof {
        if has_dot {
            assert(base[dot - start] == '.');
            assert(exists|i2: int| 1 <= i2 < base.len() && base[i2] == '.');
            lemma_before_last_dot(base, dot - start);
            assert(stem_of(cs@) =~= cs@.subrange(start as int, end as int));
        } else {
            assert forall|i2: int| 1 <= i2 < base.len() implies base[i2] != '.' by {
                assert(base[i2] == cs@[start + i2]);
            }
            assert(stem_of(cs@) =~= cs@.subrange(start as int, end as int));
        }
    }
    let mut out = String::new();
    let mut t: usize = start;
    #[verifier::loop_isolation(false)]
    while t < end
        invariant
            start <= t <= end <= n,
            out@ == cs@.subrange(start as int, t as int).map_values(|c: char| sanitize_char(c)),
        decreases end - t,
    {
        let c = cs[t];
        let kept = c.is_alphanumeric() || c == '-' || c == '_';
        push_char(&mut out, if kept { c } else { '_' });
        proof {
            assert(out@ =~= cs@.subrange(start as int, t + 1).map_values(
                |c2: char| sanitize_char(c2),
            ));
        }
        t += 1;
    }
    proof {
        assert(out@ =~= sanitized(filename@));
    }
    out
}

} // verus!
