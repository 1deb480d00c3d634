//! Validation and normalization of asset paths.
//!
//! Objects reference their visual asset by a path relative to the asset root.
//! A stored path must be relative and traversal-free: absolute paths (Unix
//! `/...`, Windows drive letters and UNC prefixes), `..` segments and empty
//! segments are rejected, and accepted paths have their backslashes rewritten
//! to forward slashes so the stored form is consistent.

use vstd::prelude::*;
use vstd::string::StrSliceExecFns;

verus! {

/// Path separator characters; Windows separators are accepted on input and
/// normalized away before storage.
pub open spec fn is_sep_char(c: char) -> bool {
    c == '/' || c == '\\'
}

/// The Unicode `White_Space` characters, the set that trimming removes.
pub open spec fn is_space_char(c: char) -> bool {
    let u = c as u32;
    ||| u == 0x20
    ||| (0x09 <= u && u <= 0x0D)
    ||| u == 0x85
    ||| u == 0xA0
    ||| u == 0x1680
    ||| (0x2000 <= u && u <= 0x200A)
    ||| u == 0x2028
    ||| u == 0x2029
    ||| u == 0x202F
    ||| u == 0x205F
    ||| u == 0x3000
}

/// ASCII letters, the characters that can open a Windows drive prefix.
pub open spec fn is_ascii_alpha_char(c: char) -> bool {
    let u = c as u32;
    (0x41 <= u && u <= 0x5A) || (0x61 <= u && u <= 0x7A)
}

/// The string with its leading whitespace removed.
pub open spec fn trim_start_spec(s: Seq<char>) -> Seq<char>
    decreases s.len(),
{
    if s.len() > 0 && is_space_char(s[0]) {
        trim_start_spec(s.drop_first())
    } else {
        s
    }
}

/// The string with its trailing whitespace removed.
pub open spec fn trim_end_spec(s: Seq<char>) -> Seq<char>
    decreases s.len(),
{
    if s.len() > 0 && is_space_char(s.last()) {
        trim_end_spec(s.drop_last())
    } else {
        s
    }
}

/// The string with leading and trailing whitespace removed.
pub open spec fn trim_spec(s: Seq<char>) -> Seq<char> {
    trim_end_spec(trim_start_spec(s))
}

/// Index of the first character that survives trimming.
pub open spec fn trim_lo(s: Seq<char>) -> int {
    s.len() - trim_start_spec(s).len()
}

/// Index one past the last character that survives trimming.
pub open spec fn trim_hi(s: Seq<char>) -> int {
    trim_lo(s) + trim_spec(s).len()
}

/// Trimming keeps a suffix: the removed prefix is whitespace and the first
/// kept character, if any, is not.
proof fn lemma_trim_start_shape(s: Seq<char>)
    ensures
        trim_start_spec(s).len() <= s.len(),
        trim_start_spec(s) =~= s.subrange(s.len() - trim_start_spec(s).len(), s.len() as int),
        forall|j: int| 0 <= j < s.len() - trim_start_spec(s).len() ==> is_space_char(#[trigger] s[j]),
        trim_start_spec(s).len() > 0 ==> !is_space_char(trim_start_spec(s)[0]),
    decreases s.len(),
{
    if s.len() > 0 && is_space_char(s[0]) {
        let rest = s.drop_first();
        lemma_trim_start_shape(rest);
        let t = trim_start_spec(s);
        assert(t == trim_start_spec(rest));
        assert(t =~= s.subrange(s.len() - t.len(), s.len() as int)) by {
            assert(t =~= rest.subrange(rest.len() - t.len(), rest.len() as int));
            assert(forall|k: int|
                0 <= k < t.len() ==> s.subrange(s.len() - t.len(), s.len() as int)[k]
                    == #[trigger] rest.subrange(rest.len() - t.len(), rest.len() as int)[k]);
        }
        assert forall|j: int| 0 <= j < s.len() - t.len() implies is_space_char(#[trigger] s[j]) by {
            if j > 0 {
                assert(is_space_char(rest[j - 1]));
                assert(rest[j - 1] == s[j]);
            }
        }
    }
}

/// Trimming keeps a prefix: the removed suffix is whitespace and the last
/// kept character, if any, is not.
proof fn lemma_trim_end_shape(s: Seq<char>)
    ensures
        trim_end_spec(s).len() <= s.len(),
        trim_end_spec(s) =~= s.subrange(0, trim_end_spec(s).len() as int),
        forall|j: int| trim_end_spec(s).len() <= j < s.len() ==> is_space_char(#[trigger] s[j]),
        trim_end_spec(s).len() > 0 ==> !is_space_char(s[trim_end_spec(s).len() - 1]),
    decreases s.len(),
{
    if s.len() > 0 && is_space_char(s.last()) {
        let rest = s.drop_last();
        lemma_trim_end_shape(rest);
        let t = trim_end_spec(s);
        assert(t == trim_end_spec(rest));
        assert(t =~= s.subrange(0, t.len() as int)) by {
            assert(t =~= rest.subrange(0, t.len() as int));
        }
        assert forall|j: int| t.len() <= j < s.len() implies is_space_char(#[trigger] s[j]) by {
            if j < s.len() - 1 {
                assert(is_space_char(rest[j]));
                assert(rest[j] == s[j]);
            }
        }
        if t.len() > 0 {
            assert(s[t.len() - 1] == rest[t.len() - 1]);
        }
    }
}

/// The trimmed string is the contiguous slice `[trim_lo, trim_hi)` of the
/// original: everything outside it is whitespace and its two end characters,
/// when it is non-empty, are not.
pub proof fn lemma_trim_shape(s: Seq<char>)
    ensures
        0 <= trim_lo(s) <= trim_hi(s) <= s.len(),
        trim_spec(s) =~= s.subrange(trim_lo(s), trim_hi(s)),
        forall|j: int| 0 <= j < trim_lo(s) ==> is_space_char(#[trigger] s[j]),
        forall|j: int| trim_hi(s) <= j < s.len() ==> is_space_char(#[trigger] s[j]),
        trim_spec(s).len() > 0 ==> !is_space_char(s[trim_lo(s)]) && !is_space_char(s[trim_hi(s) - 1]),
        trim_spec(s).len() == 0 ==> trim_lo(s) == s.len() && trim_hi(s) == s.len(),
{
    let ts = trim_start_spec(s);
    let t = trim_spec(s);
    let lo = trim_lo(s);
    let hi = trim_hi(s);
    lemma_trim_start_shape(s);
    lemma_trim_end_shape(ts);
    assert(t =~= s.subrange(lo, hi)) by {
        assert(t =~= ts.subrange(0, t.len() as int));
        assert(forall|k: int| 0 <= k < t.len() ==> ts.subrange(0, t.len() as int)[k] == #[trigger] s.subrange(lo, hi)[k]);
    }
    assert forall|j: int| hi <= j < s.len() implies is_space_char(#[trigger] s[j]) by {
        if j < s.len() - ts.len() {
            // impossible: hi >= lo == s.len() - ts.len()
            assert(false);
        } else {
            let k = j - lo;
            assert(is_space_char(ts[k]));
            assert(ts[k] == s[j]);
        }
    }
    if t.len() > 0 {
        assert(!is_space_char(ts[0]));
        assert(ts[0] == s[lo]);
        assert(!is_space_char(ts[t.len() - 1]));
        assert(ts[t.len() - 1] == s[hi - 1]);
    } else {
        // an empty result means even trim_start removed everything
        if ts.len() > 0 {
            assert(is_space_char(ts[0]));
            assert(false);
        }
    }
}

/// The trimmed string is absolute: a Unix root, a UNC prefix, or a Windows
/// drive letter.
pub open spec fn starts_absolute(t: Seq<char>) -> bool {
    ||| (t.len() >= 1 && t[0] == '/')
    ||| (t.len() >= 2 && t[0] == '\\' && t[1] == '\\')
    ||| (t.len() >= 2 && is_ascii_alpha_char(t[0]) && t[1] == ':')
}

/// Splitting on separators yields an empty segment: the string begins or
/// ends with a separator, or two separators are adjacent.
pub open spec fn has_empty_segment(t: Seq<char>) -> bool {
    ||| (t.len() > 0 && is_sep_char(t[0]))
    ||| (t.len() > 0 && is_sep_char(t[t.len() - 1]))
    ||| exists|i: int| 0 <= i && i + 1 < t.len() && is_sep_char(#[trigger] t[i]) && is_sep_char(t[i + 1])
}

/// A `..` path segment stands at positions `i` and `i + 1`: the two dots are
/// bounded by separators or by the ends of the string.
pub open spec fn dotdot_segment_at(t: Seq<char>, i: int) -> bool {
    &&& 0 <= i
    &&& i + 2 <= t.len()
    &&& t[i] == '.'
    &&& t[i + 1] == '.'
    &&& (i == 0 || is_sep_char(t[i - 1]))
    &&& (i + 2 == t.len() || is_sep_char(t[i + 2]))
}

/// Some path segment is exactly `..`.
pub open spec fn has_dotdot_segment(t: Seq<char>) -> bool {
    exists|i: int| dotdot_segment_at(t, i)
}

/// A user-supplied asset path is stored when its trimmed form is non-empty,
/// relative (not absolute in any of the recognized shapes) and traversal-free
/// (no `..` segment, no empty segment).
pub open spec fn valid_asset_path(s: Seq<char>) -> bool {
    let t = trim_spec(s);
    &&& t.len() > 0
    &&& !starts_absolute(t)
    &&& !has_empty_segment(t)
    &&& !has_dotdot_segment(t)
}

/// The path with every backslash rewritten to a forward slash.
pub open spec fn normalize_seps(s: Seq<char>) -> Seq<char> {
    s.map_values(|c: char| if c == '\\' { '/' } else { c })
}

fn is_space(c: char) -> (r: bool)
    ensures
        r == is_space_char(c),
{
    let u = c as u32;
    u == 0x20 || (0x09 <= u && u <= 0x0D) || u == 0x85 || u == 0xA0 || u == 0x1680 || (0x2000 <= u
        && u <= 0x200A) || u == 0x2028 || u == 0x2029 || u == 0x202F || u == 0x205F || u == 0x3000
}

fn is_sep(c: char) -> (r: bool)
    ensures
        r == is_sep_char(c),
{
    c == '/' || c == '\\'
}

fn is_ascii_alpha(c: char) -> (r: bool)
    ensures
        r == is_ascii_alpha_char(c),
{
    let u = c as u32;
    (0x41 <= u && u <= 0x5A) || (0x61 <= u && u <= 0x7A)
}

/// Whether a user-supplied string may be stored as an asset path: non-empty
/// after trimming, relative, and free of `..` and empty segments.
#[verifier::loop_isolation(false)]
pub fn is_valid_relative_asset_path(path: &str) -> (r: bool)
    ensures
        r == valid_asset_path(path@),
{
    let ghost s = path@;
    proof {
        lemma_trim_shape(s);
    }
    let n = path.unicode_len();

    // Find the bounds of the trimmed slice.
    let mut lo: usize = 0;
    while lo < n && is_space(path.get_char(lo))
        invariant
            0 <= lo <= n,
            forall|j: int| 0 <= j < lo ==> is_space_char(#[trigger] s[j]),
        decreases n - lo,
    {
        lo = lo + 1;
    }
    let mut hi: usize = n;
    while hi > lo && is_space(path.get_char(hi - 1))
        invariant
            lo <= hi <= n,
            forall|j: int| hi <= j < n ==> is_space_char(#[trigger] s[j]),
        decreases hi,
    {
        hi = hi - 1;
    }
    proof {
        lemma_trim_bounds_unique(s, lo as int, hi as int);
    }
    let ghost t = trim_spec(s);

    if hi == lo {
        return false;
    }
    let trimmed = path.substring_char(lo, hi);
    assert(trimmed@ =~= t);
    let tlen = hi - lo;

    // Absolute paths: Unix root, UNC prefix, drive letter.
    let c0 = trimmed.get_char(0);
    if c0 == '/' {
        return false;
    }
    if tlen >= 2 {
        let c1 = trimmed.get_char(1);
        if c0 == '\\' && c1 == '\\' {
            return false;
        }
        if is_ascii_alpha(c0) && c1 == ':' {
            return false;
        }
    }

    // Empty segments at the ends.
    if is_sep(c0) {
        return false;
    }
    if is_sep(trimmed.get_char(tlen - 1)) {
        return false;
    }

    // Empty segments and `..` segments inside.
    let mut i: usize = 0;
    while i < tlen - 1
        invariant
            0 <= i <= tlen,
            forall|k: int| 0 <= k < i && k + 1 < tlen ==> !(is_sep_char(#[trigger] t[k]) && is_sep_char(t[k + 1])),
            forall|k: int| 0 <= k < i ==> !dotdot_segment_at(t, k),
        decreases tlen - i,
    {
        let a = trimmed.get_char(i);
        let b = trimmed.get_char(i + 1);
        if is_sep(a) && is_sep(b) {
            assert(has_empty_segment(t));
            return false;
        }
        if a == '.' && b == '.' {
            let left_ok = i == 0 || is_sep(trimmed.get_char(i - 1));
            let right_ok = i + 2 == tlen || is_sep(trimmed.get_char(i + 2));
            if left_ok && right_ok {
                assert(dotdot_segment_at(t, i as int));
                return false;
            }
        }
        i = i + 1;
    }
    assert(!has_empty_segment(t));
    assert forall|k: int| !dotdot_segment_at(t, k) by {
        if 0 <= k && k + 2 <= t.len() {
            assert(k < i);
        }
    }
    true
}

/// Whether a path string is absolute in the same filesystem-agnostic sense
/// the validator uses: Unix root, UNC prefix, or drive letter.
pub fn is_absolute_path(path: &str) -> (r: bool)
    ensures
        r == starts_absolute(path@),
{
    let n = path.unicode_len();
    if n == 0 {
        return false;
    }
    let c0 = path.get_char(0);
    if c0 == '/' {
        return true;
    }
    if n >= 2 {
        let c1 = path.get_char(1);
        if c0 == '\\' && c1 == '\\' {
            return true;
        }
        if is_ascii_alpha(c0) && c1 == ':' {
            return true;
        }
    }
    false
}

/// The stored form of an asset path: every backslash rewritten to a forward
/// slash, all other characters kept.
pub fn normalize_asset_path(path: &str) -> (r: String)
    ensures
        r@ == normalize_seps(path@),
{
    let ghost s = path@;
    let n = path.unicode_len();
    let mut out = String::new();
    let mut i: usize = 0;
    while i < n
        invariant
            0 <= i <= n,
            n == s.len(),
            s == path@,
            out@ == normalize_seps(s.subrange(0, i as int)),
        decreases n - i,
    {
        let c = path.get_char(i);
        if c == '\\' {
            out.append("/");
            proof {
                reveal_strlit("/");
            }
        } else {
            let piece = path.substring_char(i, i + 1);
            out.append(piece);
        }
        proof {
            assert(out@ =~= normalize_seps(s.subrange(0, i as int + 1)));
        }
        i = i + 1;
    }
    proof {
        assert(s.subrange(0, n as int) =~= s);
    }
    out
}

/// Rejection law: a string that contains a `..` path segment, or that starts
/// with a Unix root `/`, a UNC prefix `\\`, or a drive letter, is never
/// accepted by the validator.
pub proof fn lemma_rejects_traversal_and_absolute(s: Seq<char>)
    requires
        ({
            ||| has_dotdot_segment(s)
            ||| (s.len() >= 1 && s[0] == '/')
            ||| (s.len() >= 2 && s[0] == '\\' && s[1] == '\\')
            ||| (s.len() >= 2 && is_ascii_alpha_char(s[0]) && s[1] == ':')
        }),
    ensures
        !valid_asset_path(s),
{
    lemma_trim_shape(s);
    let t = trim_spec(s);
    let lo = trim_lo(s);
    let hi = trim_hi(s);
    if has_dotdot_segment(s) {
        let i = choose|i: int| dotdot_segment_at(s, i);
        assert(dotdot_segment_at(s, i));
        assert(!is_space_char(s[i]));
        assert(!is_space_char(s[i + 1]));
        assert(lo <= i) by {
            if i < lo {
                assert(is_space_char(s[i]));
            }
        }
        assert(i + 2 <= hi) by {
            if hi <= i + 1 {
                assert(is_space_char(s[i + 1]));
            }
        }
        assert(dotdot_segment_at(t, i - lo)) by {
            assert(t[i - lo] == s[i]);
            assert(t[i - lo + 1] == s[i + 1]);
            if i - lo != 0 {
                assert(i >= 1);
                assert(is_sep_char(s[i - 1]));
                assert(!is_space_char(s[i - 1]));
                assert(lo <= i - 1);
                assert(t[i - lo - 1] == s[i - 1]);
            }
            if i - lo + 2 != t.len() {
                assert(i + 2 < hi);
                assert(i + 2 < s.len());
                assert(is_sep_char(s[i + 2]));
                assert(t[i - lo + 2] == s[i + 2]);
            }
        }
        assert(has_dotdot_segment(t));
    } else if s.len() >= 1 && s[0] == '/' {
        assert(!is_space_char(s[0]));
        assert(lo == 0 && hi >= 1) by {
            if hi < 1 {
                assert(is_space_char(s[0]));
            }
        }
        assert(t[0] == s[0]);
        assert(starts_absolute(t));
    } else {
        assert(!is_space_char(s[0]));
        assert(!is_space_char(s[1]));
        assert(lo == 0 && hi >= 2) by {
            if hi < 2 {
                assert(is_space_char(s[1]));
            }
        }
        assert(t[0] == s[0]);
        assert(t[1] == s[1]);
        assert(starts_absolute(t));
    }
}

/// Acceptance law: a non-empty path with no surrounding whitespace, no
/// absolute prefix, no empty segment and no `..` segment is accepted by the
/// validator, and normalization only rewrites its backslashes to forward
/// slashes, leaving every other character in place.
pub proof fn lemma_accepts_relative_paths(s: Seq<char>)
    requires
        s.len() > 0,
        !is_space_char(s[0]),
        !is_space_char(s[s.len() - 1]),
        !starts_absolute(s),
        !has_empty_segment(s),
        !has_dotdot_segment(s),
    ensures
        valid_asset_path(s),
        normalize_seps(s).len() == s.len(),
        forall|i: int|
            0 <= i < s.len() ==> normalize_seps(s)[i] == (if s[i] == '\\' {
                '/'
            } else {
                s[i]
            }),
{
    lemma_trim_shape(s);
    assert(trim_lo(s) == 0) by {
        if trim_lo(s) > 0 {
            assert(is_space_char(s[0]));
        }
    }
    assert(trim_hi(s) == s.len()) by {
        if trim_hi(s) < s.len() {
            assert(is_space_char(s[s.len() - 1]));
        }
    }
    assert(trim_spec(s) =~= s.subrange(0, s.len() as int));
    assert(s.subrange(0, s.len() as int) =~= s);
    assert(trim_spec(s) == s);
}

/// The bounds found by scanning are exactly the trim bounds.
proof fn lemma_trim_bounds_unique(s: Seq<char>, lo: int, hi: int)
    requires
        0 <= lo <= hi <= s.len(),
        forall|j: int| 0 <= j < lo ==> is_space_char(#[trigger] s[j]),
        forall|j: int| hi <= j < s.len() ==> is_space_char(#[trigger] s[j]),
        lo == s.len() || !is_space_char(s[lo]),
        hi == lo || !is_space_char(s[hi - 1]),
    ensures
        lo == trim_lo(s),
        hi == trim_hi(s),
        trim_spec(s) =~= s.subrange(lo, hi),
{
    lemma_trim_shape(s);
    let tl = trim_lo(s);
    let th = trim_hi(s);
    if tl == th {
        // the whole string is whitespace, so the scan reached the end
        assert(tl == s.len());
        assert(lo == s.len()) by {
            if lo < s.len() {
                assert(is_space_char(s[lo]));
                assert(!is_space_char(s[lo]));
            }
        }
        assert(hi == lo);
    } else {
        assert(!is_space_char(s[tl]));
        assert(!is_space_char(s[th - 1]));
        assert(lo == tl) by {
            if lo < tl {
                assert(is_space_char(s[lo])) by { assert(0 <= lo < tl); }
                assert(lo < s.len());
            }
            if tl < lo {
                assert(is_space_char(s[tl]));
            }
        }
        assert(hi == th) by {
            if hi < th {
                assert(th - 1 >= hi);
                assert(is_space_char(s[th - 1]));
            }
            if th < hi {
                assert(hi != lo);
                assert(!is_space_char(s[hi - 1]));
                assert(th <= hi - 1);
                assert(is_space_char(s[hi - 1]));
            }
        }
    }
}

} // verus!
