use vstd::prelude::*;
use vstd::string::StringSliceAdditionalSpecFns;

verus! {

/// Bytes that www-form-urlencoding leaves unchanged: ASCII alphanumerics
/// and `*`, `-`, `.`, `_`.
pub open spec fn is_unreserved(b: u8) -> bool {
    ||| b == 42
    ||| b == 45
    ||| b == 46
    ||| 48 <= b <= 57
    ||| 65 <= b <= 90
    ||| b == 95
    ||| 97 <= b <= 122
}

/// The ASCII code of the uppercase hex digit for a value below 16.
pub open spec fn hex_upper(n: u8) -> u8
    recommends
        n < 16,
{
    if n < 10 {
        (48 + n) as u8
    } else {
        (55 + n) as u8
    }
}

/// www-form-urlencoding of one byte: unchanged, `+` for a space, or a
/// percent escape with uppercase hex digits.
pub open spec fn enc_byte(b: u8) -> Seq<u8> {
    if is_unreserved(b) {
        seq![b]
    } else if b == 32 {
        seq![43u8]
    } else {
        seq![37u8, hex_upper(b / 16), hex_upper(b % 16)]
    }
}

/// www-form-urlencoding of a byte sequence.
pub open spec fn enc_bytes(s: Seq<u8>) -> Seq<u8>
    decreases s.len(),
{
    if s.len() == 0 {
        Seq::empty()
    } else {
        enc_byte(s[0]) + enc_bytes(s.drop_first())
    }
}

/// ASCII bytes read as the characters with the same code points.
pub open spec fn ascii_chars(s: Seq<u8>) -> Seq<char> {
    s.map_values(|b: u8| b as char)
}

/// www-form-urlencoding of a byte sequence, as characters.
pub open spec fn enc_chars(s: Seq<u8>) -> Seq<char> {
    ascii_chars(enc_bytes(s))
}

pub proof fn lemma_enc_bytes_concat(a: Seq<u8>, b: Seq<u8>)
    ensures
        enc_bytes(a + b) == enc_bytes(a) + enc_bytes(b),
    decreases a.len(),
{
    if a.len() == 0 {
        assert(a + b =~= b);
        assert(enc_bytes(a) + enc_bytes(b) =~= enc_bytes(b));
    } else {
        assert((a + b)[0] == a[0]);
        assert((a + b).drop_first() =~= a.drop_first() + b);
        lemma_enc_bytes_concat(a.drop_first(), b);
        assert(enc_byte(a[0]) + (enc_bytes(a.drop_first()) + enc_bytes(b)) =~= (enc_byte(a[0])
            + enc_bytes(a.drop_first())) + enc_bytes(b));
    }
}

pub proof fn lemma_enc_bytes_ascii(s: Seq<u8>)
    ensures
        forall|i: int| 0 <= i < enc_bytes(s).len() ==> enc_bytes(s)[i] < 128,
    decreases s.len(),
{
    if s.len() > 0 {
        lemma_enc_bytes_ascii(s.drop_first());
        let head = enc_byte(s[0]);
        let tail = enc_bytes(s.drop_first());
        assert(enc_bytes(s) == head + tail);
        assert forall|i: int| 0 <= i < enc_bytes(s).len() implies enc_bytes(s)[i] < 128 by {
            if i < head.len() {
                assert(enc_bytes(s)[i] == head[i]);
            } else {
                assert(enc_bytes(s)[i] == tail[i - head.len()]);
            }
        }
    }
}

/// Relies on `String::from_utf8`: ASCII bytes are valid UTF-8 and decode
/// to the characters with the same code points.
#[verifier::external_body]
pub(crate) fn ascii_to_string(bytes: Vec<u8>) -> (r: String)
    requires
        forall|i: int| 0 <= i < bytes@.len() ==> bytes@[i] < 128,
    ensures
        r@ == ascii_chars(bytes@),
{
    String::from_utf8(bytes).unwrap_or_default()
}

/// Relies on `String::from_utf8_lossy`: valid UTF-8 decodes to its
/// characters; invalid sequences are replaced, so some string always
/// comes back.
#[verifier::external_body]
pub(crate) fn bytes_to_string_lossy(bytes: &[u8]) -> (r: String)
    ensures
        r@ == utf8_lossy_of(bytes@),
        vstd::utf8::valid_utf8(bytes@) ==> r@ == vstd::utf8::decode_utf8(bytes@),
{
    String::from_utf8_lossy(bytes).into_owned()
}

/// What lossy UTF-8 decoding yields on a byte sequence: a function of
/// the input alone.
pub uninterp spec fn utf8_lossy_of(bytes: Seq<u8>) -> Seq<char>;

/// www-form-urlencoding of a string's UTF-8 bytes.
pub fn form_urlencode(s: &str) -> (r: String)
    ensures
        r@ == enc_chars(s.spec_bytes()),
{
    let bytes = s.as_bytes();
    let n = bytes.len();
    let mut out: Vec<u8> = Vec::new();
    let mut i: usize = 0;
    proof {
        assert(bytes@.take(0) =~= Seq::<u8>::empty());
    }
    while i < n
        invariant
            i <= n == bytes@.len(),
            out@ == enc_bytes(bytes@.take(i as int)),
        decreases n - i,
    {
        let b = bytes[i];
        if (48 <= b && b <= 57) || (65 <= b && b <= 90) || (97 <= b && b <= 122) || b == 42 || b
            == 45 || b == 46 || b == 95 {
            out.push(b);
        } else if b == 32 {
            out.push(43);
        } else {
            out.push(37);
            out.push(hex_upper_exec(b / 16));
            out.push(hex_upper_exec(b % 16));
        }
        proof {
            assert(bytes@.take(i + 1).drop_last() =~= bytes@.take(i as int));
            assert(bytes@.take(i + 1) =~= bytes@.take(i as int) + seq![bytes@[i as int]]);
            lemma_enc_bytes_concat(bytes@.take(i as int), seq![bytes@[i as int]]);
            let single = seq![bytes@[i as int]];
            assert(single.drop_first() =~= Seq::<u8>::empty());
            assert(enc_bytes(single) == enc_byte(single[0]) + enc_bytes(single.drop_first()));
            assert(enc_bytes(single) =~= enc_byte(bytes@[i as int]));
            assert(out@ =~= enc_bytes(bytes@.take(i as int)) + enc_byte(bytes@[i as int]));
        }
        i = i + 1;
    }
    proof {
        assert(bytes@.take(n as int) =~= bytes@);
        lemma_enc_bytes_ascii(bytes@);
    }
    ascii_to_string(out)
}

/// The uppercase hex digit for a value below 16.
pub fn hex_upper_exec(n: u8) -> (r: u8)
    requires
        n < 16,
    ensures
        r == hex_upper(n),
{
    if n < 10 {
        48 + n
    } else {
        55 + n
    }
}

/// The decimal digits of a number, as ASCII bytes.
pub open spec fn dec_digits(n: nat) -> Seq<u8>
    decreases n,
{
    if n < 10 {
        seq![(48 + n) as u8]
    } else {
        dec_digits(n / 10) + seq![(48 + n % 10) as u8]
    }
}

pub proof fn lemma_dec_digits_ascii(n: nat)
    ensures
        forall|i: int| 0 <= i < dec_digits(n).len() ==> dec_digits(n)[i] < 128,
    decreases n,
{
    if n >= 10 {
        lemma_dec_digits_ascii(n / 10);
        let head = dec_digits(n / 10);
        let tail = seq![(48 + n % 10) as u8];
        assert(dec_digits(n) == head + tail);
        assert forall|i: int| 0 <= i < dec_digits(n).len() implies dec_digits(n)[i] < 128 by {
            if i < head.len() {
                assert(dec_digits(n)[i] == head[i]);
            } else {
                assert(dec_digits(n)[i] == tail[i - head.len()]);
            }
        }
    }
}

/// The decimal digits of a port number, as ASCII bytes.
pub fn dec_bytes_u16(n: u16) -> (r: Vec<u8>)
    ensures
        r@ == dec_digits(n as nat),
    decreases n,
{
    if n < 10 {
        let mut v: Vec<u8> = Vec::new();
        v.push(48 + (n as u8));
        proof {
            assert(v@ =~= dec_digits(n as nat));
        }
        v
    } else {
        let mut v = dec_bytes_u16(n / 10);
        v.push(48 + ((n % 10) as u8));
        proof {
            assert(v@ =~= dec_digits(n as nat));
        }
        v
    }
}

/// Decimal rendering of a port number.
pub fn u16_to_string(n: u16) -> (r: String)
    ensures
        r@ == ascii_chars(dec_digits(n as nat)),
{
    let v = dec_bytes_u16(n);
    proof {
        lemma_dec_digits_ascii(n as nat);
    }
    ascii_to_string(v)
}

} // verus!
