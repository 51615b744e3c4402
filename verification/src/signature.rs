//! Signature matching: a required prefix and an optional required suffix.

use vstd::prelude::*;

verus! {

/// View of an optional byte slice.
pub open spec fn opt_view(suffix: Option<&[u8]>) -> Option<Seq<u8>> {
    match suffix {
        Some(t) => Some(t@),
        None => None,
    }
}

/// `s` carries the signature: it is long enough to hold the prefix and the
/// suffix side by side, it starts with the prefix and, where a suffix is
/// asked for, it ends with the suffix.
pub open spec fn spec_match_signature(s: Seq<u8>, prefix: Seq<u8>, suffix: Option<Seq<u8>>) -> bool {
    match suffix {
        None => prefix.is_prefix_of(s),
        Some(t) => prefix.len() + t.len() <= s.len() && prefix.is_prefix_of(s) && t.is_suffix_of(s),
    }
}

/// A buffer that carries a signature holds the prefix byte for byte, and is
/// at least as long as prefix and suffix together.
pub proof fn lemma_signature_bytes(s: Seq<u8>, prefix: Seq<u8>, suffix: Option<Seq<u8>>)
    requires
        spec_match_signature(s, prefix, suffix),
    ensures
        prefix.len() <= s.len(),
        suffix matches Some(t) ==> prefix.len() + t.len() <= s.len(),
        forall|i: int| 0 <= i < prefix.len() ==> s[i] == prefix[i],
        suffix matches Some(t) ==> forall|i: int|
            0 <= i < t.len() ==> s[s.len() - t.len() + i] == t[i],
{
}

/// Do the bytes of `bytes` from `start` on spell out `pattern`?
pub(crate) fn equal_at(bytes: &[u8], start: usize, pattern: &[u8]) -> (b: bool)
    requires
        start + pattern@.len() <= bytes@.len(),
    ensures
        b == (bytes@.subrange(start as int, start + pattern@.len()) == pattern@),
{
    let n = pattern.len();
    let len = bytes.len();
    let mut k: usize = 0;
    while k < n
        invariant
            n == pattern@.len(),
            len == bytes@.len(),
            start + n <= len,
            k <= n,
            forall|j: int| 0 <= j < k ==> bytes@[start + j] == pattern@[j],
        decreases n - k,
    {
        if bytes[start + k] != pattern[k] {
            return false;
        }
        k += 1;
    }
    assert(bytes@.subrange(start as int, start + n) =~= pattern@);
    true
}

/// True iff `bytes` is at least as long as prefix and suffix together,
/// begins with `prefix` and, where `suffix` is given, ends with it. The
/// length is tested before any byte is compared.
pub fn match_signature(bytes: &[u8], prefix: &[u8], suffix: Option<&[u8]>) -> (b: bool)
    ensures
        b == spec_match_signature(bytes@, prefix@, opt_view(suffix)),
{
    let len = bytes.len();
    if len < prefix.len() {
        return false;
    }
    match suffix {
        None => equal_at(bytes, 0, prefix),
        Some(t) => {
            if len - prefix.len() < t.len() {
                return false;
            }
            equal_at(bytes, 0, prefix) && equal_at(bytes, len - t.len(), t)
        },
    }
}

} // verus!
