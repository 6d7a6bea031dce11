use vstd::prelude::*;
use vstd::slice::slice_subrange;

use crate::strutil::{bytes_eq, find_byte_from, find_from, lemma_find_from};

verus! {

/// ASCII hex digit, either case.
pub open spec fn is_hex_byte(b: u8) -> bool {
    ||| 48 <= b <= 57
    ||| 65 <= b <= 70
    ||| 97 <= b <= 102
}

/// Value of an ASCII hex digit.
pub open spec fn hex_value(b: u8) -> u8
    recommends
        is_hex_byte(b),
{
    if 48 <= b <= 57 {
        (b - 48) as u8
    } else if 65 <= b <= 70 {
        (b - 55) as u8
    } else {
        (b - 87) as u8
    }
}

fn is_hex_exec(b: u8) -> (r: bool)
    ensures
        r == is_hex_byte(b),
{
    (48 <= b && b <= 57) || (65 <= b && b <= 70) || (97 <= b && b <= 102)
}

fn hex_value_exec(b: u8) -> (r: u8)
    requires
        is_hex_byte(b),
    ensures
        r == hex_value(b),
{
    if 48 <= b && b <= 57 {
        b - 48
    } else if 65 <= b && b <= 70 {
        b - 55
    } else {
        b - 87
    }
}

/// Decoding of a www-form-urlencoded byte sequence: a percent followed
/// by two hex digits becomes that byte, a plus becomes a space, and
/// anything else stays as it is.
pub open spec fn pct_decode(s: Seq<u8>) -> Seq<u8>
    decreases s.len(),
{
    if s.len() == 0 {
        Seq::empty()
    } else if s[0] == 37 && s.len() >= 3 && is_hex_byte(s[1]) && is_hex_byte(s[2]) {
        seq![(hex_value(s[1]) * 16 + hex_value(s[2])) as u8] + pct_decode(s.skip(3))
    } else if s[0] == 43 {
        seq![32u8] + pct_decode(s.skip(1))
    } else {
        seq![s[0]] + pct_decode(s.skip(1))
    }
}

/// Decodes a www-form-urlencoded byte sequence.
pub fn pct_decode_exec(s: &[u8]) -> (r: Vec<u8>)
    ensures
        r@ == pct_decode(s@),
{
    let n = s.len();
    let mut out: Vec<u8> = Vec::new();
    let mut i: usize = 0;
    proof {
        assert(s@.skip(0) =~= s@);
    }
    while i < n
        invariant
            i <= n == s@.len(),
            pct_decode(s@) == out@ + pct_decode(s@.skip(i as int)),
        decreases n - i,
    {
        let ghost rem = s@.skip(i as int);
        let ghost out_old = out@;
        let b = s[i];
        proof {
            assert(rem.len() == n - i);
            assert(rem[0] == s@[i as int]);
        }
        if b == 37 && n - i > 2 && is_hex_exec(s[i + 1]) && is_hex_exec(s[i + 2]) {
            let h1 = s[i + 1];
            let h2 = s[i + 2];
            out.push(hex_value_exec(h1) * 16 + hex_value_exec(h2));
            proof {
                assert(rem[1] == h1 && rem[2] == h2);
                assert(rem.skip(3) =~= s@.skip(i + 3));
                assert(pct_decode(rem) == seq![(hex_value(h1) * 16 + hex_value(h2)) as u8]
                    + pct_decode(s@.skip(i + 3)));
                assert(out@ + pct_decode(s@.skip(i + 3)) =~= out_old + pct_decode(rem));
            }
            i = i + 3;
        } else if b == 43 {
            out.push(32);
            proof {
                assert(rem.skip(1) =~= s@.skip(i + 1));
                assert(pct_decode(rem) == seq![32u8] + pct_decode(s@.skip(i + 1)));
                assert(out@ + pct_decode(s@.skip(i + 1)) =~= out_old + pct_decode(rem));
            }
            i = i + 1;
        } else {
            out.push(b);
            proof {
                assert(rem.skip(1) =~= s@.skip(i + 1));
                assert(pct_decode(rem) == seq![b] + pct_decode(s@.skip(i + 1)));
                assert(out@ + pct_decode(s@.skip(i + 1)) =~= out_old + pct_decode(rem));
            }
            i = i + 1;
        }
    }
    proof {
        assert(s@.skip(n as int) =~= Seq::<u8>::empty());
        assert(out@ =~= pct_decode(s@));
    }
    out
}

/// One `name=value` segment, decoded: the name is everything before the
/// first equals sign, the value everything after it, or empty when
/// there is none.
pub open spec fn split_pair(seg: Seq<u8>) -> (Seq<u8>, Seq<u8>) {
    let eq = find_from(seg, 61u8, 0);
    if eq == seg.len() {
        (pct_decode(seg), Seq::empty())
    } else {
        (pct_decode(seg.take(eq)), pct_decode(seg.skip(eq + 1)))
    }
}

/// The decoded `name=value` pairs of a query string: segments split on
/// ampersands, empty segments dropped.
pub open spec fn query_pairs(s: Seq<u8>) -> Seq<(Seq<u8>, Seq<u8>)>
    decreases s.len(),
    via query_pairs_decreases
{
    if s.len() == 0 {
        Seq::empty()
    } else {
        let amp = find_from(s, 38u8, 0);
        if amp == s.len() {
            seq![split_pair(s)]
        } else if amp == 0 {
            query_pairs(s.skip(1))
        } else {
            seq![split_pair(s.take(amp))] + query_pairs(s.skip(amp + 1))
        }
    }
}

#[via_fn]
proof fn query_pairs_decreases(s: Seq<u8>) {
    if s.len() > 0 {
        lemma_find_from(s, 38u8, 0);
    }
}

/// The value of the last pair with the given name, if any.
pub open spec fn last_value(pairs: Seq<(Seq<u8>, Seq<u8>)>, key: Seq<u8>) -> Option<Seq<u8>>
    decreases pairs.len(),
{
    if pairs.len() == 0 {
        None
    } else {
        match last_value(pairs.drop_first(), key) {
            Some(v) => Some(v),
            None => if pairs[0].0 == key {
                Some(pairs[0].1)
            } else {
                None
            },
        }
    }
}

/// The decoded value of the last occurrence of a parameter in a query
/// string, if any.
pub open spec fn spec_query_param(q: Seq<u8>, key: Seq<u8>) -> Option<Seq<u8>> {
    last_value(query_pairs(q), key)
}

/// The first of two options, or the second when the first is `None`.
pub open spec fn or_else(a: Option<Seq<u8>>, b: Option<Seq<u8>>) -> Option<Seq<u8>> {
    match a {
        Some(v) => Some(v),
        None => b,
    }
}

proof fn lemma_find_from_unique(s: Seq<u8>, b: u8, start: int, r: int)
    requires
        0 <= start <= r <= s.len(),
        r < s.len() ==> s[r] == b,
        forall|j: int| start <= j < r ==> s[j] != b,
    ensures
        find_from(s, b, start) == r,
    decreases r - start,
{
    if start < r {
        lemma_find_from_unique(s, b, start + 1, r);
    }
}

/// Searching a suffix finds the same occurrence, shifted.
proof fn lemma_find_from_skip(s: Seq<u8>, b: u8, pos: int)
    requires
        0 <= pos <= s.len(),
    ensures
        find_from(s.skip(pos), b, 0) == find_from(s, b, pos) - pos,
{
    let r = find_from(s, b, pos);
    lemma_find_from(s, b, pos);
    let t = s.skip(pos);
    assert(forall|j: int| 0 <= j < t.len() ==> t[j] == s[j + pos]);
    lemma_find_from_unique(t, b, 0, r - pos);
}

/// Extracts the decoded value of the last occurrence of `key` in the
/// query string `q`, exactly as `spec_query_param` describes it.
pub fn query_param(q: &[u8], key: &[u8]) -> (r: Option<Vec<u8>>)
    ensures
        match r {
            None => spec_query_param(q@, key@) is None,
            Some(v) => spec_query_param(q@, key@) == Some(v@),
        },
{
    let n = q.len();
    let mut pos: usize = 0;
    let mut acc: Option<Vec<u8>> = None;
    proof {
        assert(q@.skip(0) =~= q@);
    }
    while pos < n
        invariant
            pos <= n == q@.len(),
            key@ == key@,
            spec_query_param(q@, key@) == or_else(
                last_value(query_pairs(q@.skip(pos as int)), key@),
                match acc {
                    Some(a) => Some(a@),
                    None => None::<Seq<u8>>,
                },
            ),
        decreases n - pos,
    {
        let ghost s = q@.skip(pos as int);
        let ghost acc_old = acc;
        proof {
            lemma_find_from(q@, 38u8, pos as int);
            lemma_find_from_skip(q@, 38u8, pos as int);
            assert(s.len() == n - pos);
        }
        let amp = find_byte_from(q, 38u8, pos);
        proof {
            assert(find_from(s, 38u8, 0) == amp - pos);
        }
        if amp == pos {
            // empty segment: dropped
            proof {
                assert(s.skip(1) =~= q@.skip(pos + 1));
                assert(query_pairs(s) == query_pairs(q@.skip(pos + 1)));
            }
            pos = pos + 1;
        } else {
            let seg = slice_subrange(q, pos, amp);
            proof {
                assert(seg@ =~= s.take(amp - pos));
                if amp == n {
                    assert(s.take(amp - pos) =~= s);
                }
            }
            let eqix = find_byte_from(seg, 61u8, 0);
            let kb = pct_decode_exec(slice_subrange(seg, 0, eqix));
            let vb = if eqix == seg.len() {
                Vec::new()
            } else {
                pct_decode_exec(slice_subrange(seg, eqix + 1, seg.len()))
            };
            let ghost p = split_pair(seg@);
            proof {
                assert(seg@.take(eqix as int) =~= seg@.subrange(0, eqix as int));
                if eqix == seg@.len() {
                    assert(seg@.take(eqix as int) =~= seg@);
                } else {
                    assert(seg@.skip(eqix + 1) =~= seg@.subrange(eqix + 1, seg@.len() as int));
                }
                assert(kb@ == p.0 && vb@ == p.1);
            }
            if bytes_eq(kb.as_slice(), key) {
                acc = Some(vb);
            }
            proof {
                let pairs = query_pairs(s);
                if amp == n {
                    assert(seg@ =~= s);
                    assert(p == split_pair(s));
                    assert(find_from(s, 38u8, 0) == s.len());
                    assert(pairs == seq![p]);
                    assert(pairs.drop_first() =~= Seq::<(Seq<u8>, Seq<u8>)>::empty());
                    assert(pairs[0] == p);
                    assert(last_value(pairs.drop_first(), key@) is None);
                    assert(last_value(pairs, key@) == (if p.0 == key@ {
                        Some(p.1)
                    } else {
                        None::<Seq<u8>>
                    }));
                    assert(q@.skip(n as int) =~= Seq::<u8>::empty());
                } else {
                    assert(s.skip(amp - pos + 1) =~= q@.skip(amp + 1));
                    let rest = query_pairs(q@.skip(amp + 1));
                    assert(pairs == seq![p] + rest);
                    assert((seq![p] + rest).drop_first() =~= rest);
                    assert((seq![p] + rest)[0] == p);
                    assert(last_value(pairs, key@) == (match last_value(rest, key@) {
                        Some(v) => Some(v),
                        None => if p.0 == key@ {
                            Some(p.1)
                        } else {
                            None::<Seq<u8>>
                        },
                    }));
                }
            }
            if amp == n {
                pos = n;
            } else {
                pos = amp + 1;
            }
        }
    }
    proof {
        assert(q@.skip(n as int) =~= Seq::<u8>::empty());
    }
    acc
}

} // verus!
