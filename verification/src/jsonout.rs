use vstd::prelude::*;
use vstd::string::StrSliceExecFns;

use crate::urlenc::{ascii_chars, ascii_to_string, hex_upper, hex_upper_exec};

verus! {

/// The four ASCII hex digits of a value below 65536, most significant
/// first.
pub open spec fn hex4(n: u32) -> Seq<u8>
    recommends
        n < 65536,
{
    seq![
        hex_upper((n / 4096) as u8),
        hex_upper(((n / 256) % 16) as u8),
        hex_upper(((n / 16) % 16) as u8),
        hex_upper((n % 16) as u8),
    ]
}

/// JSON escaping of one character, as ASCII bytes: quote and backslash
/// get a backslash escape, control characters and everything beyond
/// ASCII become `\u` escapes (a surrogate pair above the basic plane),
/// and the printable ASCII rest stands as it is.
pub open spec fn esc_char(c: char) -> Seq<u8> {
    let u = c as u32;
    if u == 34 {
        seq![92u8, 34u8]
    } else if u == 92 {
        seq![92u8, 92u8]
    } else if u < 32 {
        seq![92u8, 117u8] + hex4(u)
    } else if u < 128 {
        seq![u as u8]
    } else if u < 65536 {
        seq![92u8, 117u8] + hex4(u)
    } else {
        seq![92u8, 117u8] + hex4((55296 + (u - 65536) / 1024) as u32) + seq![92u8, 117u8] + hex4(
            (56320 + (u - 65536) % 1024) as u32,
        )
    }
}

/// JSON escaping of a character sequence, as ASCII bytes.
pub open spec fn esc_chars(s: Seq<char>) -> Seq<u8>
    decreases s.len(),
{
    if s.len() == 0 {
        Seq::empty()
    } else {
        esc_char(s[0]) + esc_chars(s.drop_first())
    }
}

pub proof fn lemma_esc_chars_concat(a: Seq<char>, b: Seq<char>)
    ensures
        esc_chars(a + b) == esc_chars(a) + esc_chars(b),
    decreases a.len(),
{
    if a.len() == 0 {
        assert(a + b =~= b);
        assert(esc_chars(a) + esc_chars(b) =~= esc_chars(b));
    } else {
        assert((a + b)[0] == a[0]);
        assert((a + b).drop_first() =~= a.drop_first() + b);
        lemma_esc_chars_concat(a.drop_first(), b);
        assert(esc_char(a[0]) + (esc_chars(a.drop_first()) + esc_chars(b)) =~= (esc_char(a[0])
            + esc_chars(a.drop_first())) + esc_chars(b));
    }
}

pub proof fn lemma_hex4_ascii(n: u32)
    requires
        n < 65536,
    ensures
        forall|i: int| 0 <= i < hex4(n).len() ==> hex4(n)[i] < 128,
{
}

pub proof fn lemma_esc_char_ascii(c: char)
    ensures
        forall|i: int| 0 <= i < esc_char(c).len() ==> esc_char(c)[i] < 128,
{
    let u = c as u32;
    if u < 32 || (128 <= u && u < 65536) {
        lemma_hex4_ascii(u);
    } else if u >= 65536 {
        lemma_hex4_ascii((55296 + (u - 65536) / 1024) as u32);
        lemma_hex4_ascii((56320 + (u - 65536) % 1024) as u32);
    }
}

pub proof fn lemma_esc_chars_ascii(s: Seq<char>)
    ensures
        forall|i: int| 0 <= i < esc_chars(s).len() ==> esc_chars(s)[i] < 128,
    decreases s.len(),
{
    if s.len() > 0 {
        lemma_esc_char_ascii(s[0]);
        lemma_esc_chars_ascii(s.drop_first());
        let head = esc_char(s[0]);
        let tail = esc_chars(s.drop_first());
        assert(esc_chars(s) == head + tail);
        assert forall|i: int| 0 <= i < esc_chars(s).len() implies esc_chars(s)[i] < 128 by {
            if i < head.len() {
                assert(esc_chars(s)[i] == head[i]);
            } else {
                assert(esc_chars(s)[i] == tail[i - head.len()]);
            }
        }
    }
}

fn push_hex4(out: &mut Vec<u8>, n: u32)
    requires
        n < 65536,
    ensures
        final(out)@ == old(out)@ + hex4(n),
{
    out.push(hex_upper_exec((n / 4096) as u8));
    out.push(hex_upper_exec(((n / 256) % 16) as u8));
    out.push(hex_upper_exec(((n / 16) % 16) as u8));
    out.push(hex_upper_exec((n % 16) as u8));
    proof {
        assert(final(out)@ =~= old(out)@ + hex4(n));
    }
}

fn push_esc_char(out: &mut Vec<u8>, c: char)
    ensures
        final(out)@ == old(out)@ + esc_char(c),
{
    proof {
        vstd::utf8::char_is_scalar(c);
    }
    let u = c as u32;
    if u == 34 {
        out.push(92);
        out.push(34);
        proof {
            assert(final(out)@ =~= old(out)@ + esc_char(c));
        }
    } else if u == 92 {
        out.push(92);
        out.push(92);
        proof {
            assert(final(out)@ =~= old(out)@ + esc_char(c));
        }
    } else if u < 32 {
        out.push(92);
        out.push(117);
        push_hex4(out, u);
        proof {
            assert(final(out)@ =~= old(out)@ + esc_char(c));
        }
    } else if u < 128 {
        out.push(u as u8);
        proof {
            assert(final(out)@ =~= old(out)@ + esc_char(c));
        }
    } else if u < 65536 {
        out.push(92);
        out.push(117);
        push_hex4(out, u);
        proof {
            assert(final(out)@ =~= old(out)@ + esc_char(c));
        }
    } else {
        out.push(92);
        out.push(117);
        push_hex4(out, 55296 + (u - 65536) / 1024);
        out.push(92);
        out.push(117);
        push_hex4(out, 56320 + (u - 65536) % 1024);
        proof {
            assert(final(out)@ =~= old(out)@ + esc_char(c));
        }
    }
}

/// JSON escaping of a string's characters, without the surrounding
/// quotes: the ASCII bytes of `esc_chars`, read as characters.
pub fn escape_json_chars(s: &str) -> (r: String)
    ensures
        r@ == ascii_chars(esc_chars(s@)),
{
    let n = s.unicode_len();
    let mut out: Vec<u8> = Vec::new();
    let mut i: usize = 0;
    proof {
        assert(s@.take(0) =~= Seq::<char>::empty());
    }
    while i < n
        invariant
            i <= n == s@.len(),
            out@ == esc_chars(s@.take(i as int)),
        decreases n - i,
    {
        let c = s.get_char(i);
        push_esc_char(&mut out, c);
        proof {
            assert(s@.take(i + 1) =~= s@.take(i as int) + seq![s@[i as int]]);
            lemma_esc_chars_concat(s@.take(i as int), seq![s@[i as int]]);
            let single = seq![s@[i as int]];
            assert(single.drop_first() =~= Seq::<char>::empty());
            assert(esc_chars(single) == esc_char(single[0]) + esc_chars(single.drop_first()));
            assert(esc_chars(single) =~= esc_char(s@[i as int]));
            assert(out@ =~= esc_chars(s@.take(i as int)) + esc_char(s@[i as int]));
        }
        i = i + 1;
    }
    proof {
        assert(s@.take(n as int) =~= s@);
        lemma_esc_chars_ascii(s@);
    }
    ascii_to_string(out)
}

} // verus!
