use vstd::prelude::*;
use vstd::slice::slice_subrange;
use vstd::string::StringSliceAdditionalSpecFns;

verus! {

/// The UTF-8 bytes of a character sequence.
pub open spec fn str_bytes(s: Seq<char>) -> Seq<u8> {
    vstd::utf8::encode_utf8(s)
}

/// Index of the first occurrence of `b` in `s` at or after `start`, or
/// `s.len()` when there is none.
pub open spec fn find_from(s: Seq<u8>, b: u8, start: int) -> int
    decreases s.len() - start,
{
    if start < 0 || start >= s.len() {
        s.len() as int
    } else if s[start] == b {
        start
    } else {
        find_from(s, b, start + 1)
    }
}

/// What `find_from` returns: a position between `start` and the length,
/// holding `b` when inside the sequence, with no occurrence before it.
pub proof fn lemma_find_from(s: Seq<u8>, b: u8, start: int)
    requires
        0 <= start <= s.len(),
    ensures
        start <= find_from(s, b, start) <= s.len(),
        find_from(s, b, start) < s.len() ==> s[find_from(s, b, start)] == b,
        forall|j: int| start <= j < find_from(s, b, start) ==> s[j] != b,
    decreases s.len() - start,
{
    if start < s.len() && s[start] != b {
        lemma_find_from(s, b, start + 1);
    }
}

/// First occurrence of `sep` in `bytes` at or after `start`, or the
/// length when there is none.
pub fn find_byte_from(bytes: &[u8], sep: u8, start: usize) -> (r: usize)
    requires
        start <= bytes@.len(),
    ensures
        r as int == find_from(bytes@, sep, start as int),
        start <= r <= bytes@.len(),
        r < bytes@.len() ==> bytes@[r as int] == sep,
        forall|j: int| start <= j < r ==> bytes@[j] != sep,
{
    let n = bytes.len();
    let mut i = start;
    while i < n
        invariant
            start <= i <= n == bytes@.len(),
            find_from(bytes@, sep, start as int) == find_from(bytes@, sep, i as int),
            forall|j: int| start <= j < i ==> bytes@[j] != sep,
        decreases n - i,
    {
        if bytes[i] == sep {
            return i;
        }
        i = i + 1;
    }
    i
}

/// Byte-wise equality of two slices.
pub fn bytes_eq(a: &[u8], b: &[u8]) -> (r: bool)
    ensures
        r == (a@ == b@),
{
    if a.len() != b.len() {
        proof {
            if a@ == b@ {
                assert(a@.len() == b@.len());
            }
        }
        return false;
    }
    let n = a.len();
    let mut i: usize = 0;
    while i < n
        invariant
            i <= n == a@.len() == b@.len(),
            forall|j: int| 0 <= j < i ==> a@[j] == b@[j],
        decreases n - i,
    {
        if a[i] != b[i] {
            proof {
                if a@ == b@ {
                    assert(a@[i as int] == b@[i as int]);
                }
            }
            return false;
        }
        i = i + 1;
    }
    proof {
        assert(a@ =~= b@);
    }
    true
}

/// Equality of two string slices, by their views.
pub fn str_eq(a: &str, b: &str) -> (r: bool)
    ensures
        r == (a@ == b@),
{
    let r = bytes_eq(a.as_bytes(), b.as_bytes());
    proof {
        if a.spec_bytes() == b.spec_bytes() {
            vstd::utf8::encode_utf8_decode_utf8(a@);
            vstd::utf8::encode_utf8_decode_utf8(b@);
            assert(a@ == b@);
        }
    }
    r
}

/// Copy of the byte range `from..to` of a slice.
pub fn bytes_range(bytes: &[u8], from: usize, to: usize) -> (r: Vec<u8>)
    requires
        from <= to <= bytes@.len(),
    ensures
        r@ == bytes@.subrange(from as int, to as int),
{
    vstd::slice::slice_to_vec(slice_subrange(bytes, from, to))
}

} // verus!
