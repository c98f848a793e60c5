//! Byte and text encodings: standard Base64 (RFC 4648 alphabet, with
//! padding) and the lossy UTF-8 reading of decrypted bytes.

use vstd::prelude::*;
use vstd::utf8::*;
use base64::Engine;

verus! {

/// The symbol of the standard Base64 alphabet for the six-bit value `v`:
/// `A`-`Z`, `a`-`z`, `0`-`9`, `+`, `/`.
pub open spec fn base64_symbol(v: int) -> char {
    if v < 26 {
        (65 + v) as char
    } else if v < 52 {
        (97 + (v - 26)) as char
    } else if v < 62 {
        (48 + (v - 52)) as char
    } else if v == 62 {
        '+'
    } else {
        '/'
    }
}

/// The standard, padded Base64 encoding of `d`: every group of three bytes
/// becomes four symbols, and a final group of one or two bytes is completed
/// with `=`.
pub open spec fn base64_encode_spec(d: Seq<u8>) -> Seq<char>
    decreases d.len(),
{
    if d.len() == 0 {
        seq![]
    } else if d.len() == 1 {
        seq![base64_symbol(d[0] as int / 4), base64_symbol((d[0] as int % 4) * 16), '=', '=']
    } else if d.len() == 2 {
        seq![
            base64_symbol(d[0] as int / 4),
            base64_symbol((d[0] as int % 4) * 16 + d[1] as int / 16),
            base64_symbol((d[1] as int % 16) * 4),
            '=',
        ]
    } else {
        seq![
            base64_symbol(d[0] as int / 4),
            base64_symbol((d[0] as int % 4) * 16 + d[1] as int / 16),
            base64_symbol((d[1] as int % 16) * 4 + d[2] as int / 64),
            base64_symbol(d[2] as int % 64),
        ] + base64_encode_spec(d.skip(3))
    }
}

/// The length of a padded Base64 encoding of `n` bytes.
pub open spec fn base64_encoded_len(n: nat) -> nat {
    ((n + 2) / 3 * 4) as nat
}

proof fn lemma_symbol_injective(a: int, b: int)
    requires
        0 <= a < 64,
        0 <= b < 64,
        base64_symbol(a) == base64_symbol(b),
    ensures
        a == b,
{
}

proof fn lemma_symbol_not_pad(a: int)
    requires
        0 <= a < 64,
    ensures
        base64_symbol(a) != '=',
{
}

/// The Base64 encoding of `n` bytes has `base64_encoded_len(n)` symbols.
pub proof fn lemma_encode_len(d: Seq<u8>)
    ensures
        base64_encode_spec(d).len() == base64_encoded_len(d.len()),
    decreases d.len(),
{
    if d.len() >= 3 {
        lemma_encode_len(d.skip(3));
    }
}

proof fn lemma_group_determined(a0: int, a1: int, a2: int, b0: int, b1: int, b2: int)
    requires
        0 <= a0 < 256,
        0 <= a1 < 256,
        0 <= a2 < 256,
        0 <= b0 < 256,
        0 <= b1 < 256,
        0 <= b2 < 256,
        a0 / 4 == b0 / 4,
        (a0 % 4) * 16 + a1 / 16 == (b0 % 4) * 16 + b1 / 16,
        (a1 % 16) * 4 + a2 / 64 == (b1 % 16) * 4 + b2 / 64,
        a2 % 64 == b2 % 64,
    ensures
        a0 == b0,
        a1 == b1,
        a2 == b2,
{
}

/// Distinct byte strings have distinct Base64 encodings.
pub proof fn lemma_base64_encode_injective(d1: Seq<u8>, d2: Seq<u8>)
    requires
        base64_encode_spec(d1) == base64_encode_spec(d2),
    ensures
        d1 == d2,
    decreases d1.len(),
{
    let e = base64_encode_spec(d1);
    lemma_encode_len(d1);
    lemma_encode_len(d2);
    if d1.len() == 0 || d2.len() == 0 {
        assert(d1 =~= d2);
    } else {
        // The third and fourth symbols tell a final group of one or two
        // bytes from a full group.
        if d1.len() >= 2 {
            lemma_symbol_not_pad((d1[1] as int % 16) * 4 + (if d1.len() >= 3 { d1[2] as int / 64 } else { 0 }));
        }
        if d2.len() >= 2 {
            lemma_symbol_not_pad((d2[1] as int % 16) * 4 + (if d2.len() >= 3 { d2[2] as int / 64 } else { 0 }));
        }
        if d1.len() >= 3 {
            lemma_symbol_not_pad(d1[2] as int % 64);
        }
        if d2.len() >= 3 {
            lemma_symbol_not_pad(d2[2] as int % 64);
        }
        assert(d1.len() >= 3 <==> d2.len() >= 3);
        assert(d1.len() == 1 <==> d2.len() == 1);
        let f = base64_encode_spec(d2);
        let x0 = d1[0] as int;
        let y0 = d2[0] as int;
        assert(e[0] == base64_symbol(x0 / 4));
        assert(f[0] == base64_symbol(y0 / 4));
        lemma_symbol_injective(x0 / 4, y0 / 4);
        if d1.len() == 1 {
            lemma_symbol_injective((x0 % 4) * 16, (y0 % 4) * 16);
            assert(d1 =~= d2);
        } else if d1.len() == 2 {
            let x1 = d1[1] as int;
            let y1 = d2[1] as int;
            lemma_symbol_injective((x0 % 4) * 16 + x1 / 16, (y0 % 4) * 16 + y1 / 16);
            lemma_symbol_injective((x1 % 16) * 4, (y1 % 16) * 4);
            lemma_group_determined(x0, x1, 0, y0, y1, 0);
            assert(d1 =~= d2);
        } else {
            let x1 = d1[1] as int;
            let y1 = d2[1] as int;
            let x2 = d1[2] as int;
            let y2 = d2[2] as int;
            assert(e[1] == base64_symbol((x0 % 4) * 16 + x1 / 16));
            assert(f[1] == base64_symbol((y0 % 4) * 16 + y1 / 16));
            assert(e[2] == base64_symbol((x1 % 16) * 4 + x2 / 64));
            assert(f[2] == base64_symbol((y1 % 16) * 4 + y2 / 64));
            assert(e[3] == base64_symbol(x2 % 64));
            assert(f[3] == base64_symbol(y2 % 64));
            lemma_symbol_injective((x0 % 4) * 16 + x1 / 16, (y0 % 4) * 16 + y1 / 16);
            lemma_symbol_injective((x1 % 16) * 4 + x2 / 64, (y1 % 16) * 4 + y2 / 64);
            lemma_symbol_injective(x2 % 64, y2 % 64);
            lemma_group_determined(x0, x1, x2, y0, y1, y2);
            assert(base64_encode_spec(d1.skip(3)) =~= e.skip(4));
            assert(base64_encode_spec(d2.skip(3)) =~= e.skip(4));
            lemma_base64_encode_injective(d1.skip(3), d2.skip(3));
            assert(d1 =~= d2) by {
                assert forall|i: int| 0 <= i < d1.len() implies d1[i] == d2[i] by {
                    if i >= 3 {
                        assert(d1[i] == d1.skip(3)[i - 3]);
                        assert(d2[i] == d2.skip(3)[i - 3]);
                    }
                }
            }
        }
    }
}

/// A symbol of the standard Base64 alphabet: `A`-`Z`, `a`-`z`, `0`-`9`,
/// `+` or `/`.
pub open spec fn is_base64_alphabet(c: char) -> bool {
    ('A' <= c && c <= 'Z') || ('a' <= c && c <= 'z') || ('0' <= c && c <= '9') || c == '+' || c
        == '/'
}

/// The number of `=` that pad the encoding of `n` bytes.
pub open spec fn base64_pad_len(n: nat) -> nat {
    ((3 - n % 3) % 3) as nat
}

proof fn lemma_symbol_in_alphabet(v: int)
    requires
        0 <= v < 64,
    ensures
        is_base64_alphabet(base64_symbol(v)),
{
}

/// The Base64 encoding of `d` is made of alphabet symbols followed by the
/// padding `=`, one for a final group of two bytes and two for a final
/// group of one.
pub proof fn lemma_base64_encode_shape(d: Seq<u8>)
    ensures
        forall|i: int|
            0 <= i < base64_encode_spec(d).len() - base64_pad_len(d.len()) ==> is_base64_alphabet(
                #[trigger] base64_encode_spec(d)[i],
            ),
        forall|i: int|
            base64_encode_spec(d).len() - base64_pad_len(d.len()) <= i < base64_encode_spec(d).len()
                ==> #[trigger] base64_encode_spec(d)[i] == '=',
    decreases d.len(),
{
    let s = base64_encode_spec(d);
    lemma_encode_len(d);
    if d.len() == 0 {
    } else if d.len() == 1 {
        lemma_symbol_in_alphabet(d[0] as int / 4);
        lemma_symbol_in_alphabet((d[0] as int % 4) * 16);
        assert(s[0] == base64_symbol(d[0] as int / 4));
        assert(s[1] == base64_symbol((d[0] as int % 4) * 16));
    } else if d.len() == 2 {
        let x0 = d[0] as int;
        let x1 = d[1] as int;
        lemma_symbol_in_alphabet(x0 / 4);
        lemma_symbol_in_alphabet((x0 % 4) * 16 + x1 / 16);
        lemma_symbol_in_alphabet((x1 % 16) * 4);
        assert(s[0] == base64_symbol(x0 / 4));
        assert(s[1] == base64_symbol((x0 % 4) * 16 + x1 / 16));
        assert(s[2] == base64_symbol((x1 % 16) * 4));
    } else {
        let x0 = d[0] as int;
        let x1 = d[1] as int;
        let x2 = d[2] as int;
        lemma_symbol_in_alphabet(x0 / 4);
        lemma_symbol_in_alphabet((x0 % 4) * 16 + x1 / 16);
        lemma_symbol_in_alphabet((x1 % 16) * 4 + x2 / 64);
        lemma_symbol_in_alphabet(x2 % 64);
        let rest = base64_encode_spec(d.skip(3));
        lemma_base64_encode_shape(d.skip(3));
        lemma_encode_len(d.skip(3));
        assert(base64_pad_len(d.skip(3).len()) == base64_pad_len(d.len()));
        assert forall|i: int| 0 <= i < s.len() implies #[trigger] s[i] == if i < 4 {
            seq![
                base64_symbol(x0 / 4),
                base64_symbol((x0 % 4) * 16 + x1 / 16),
                base64_symbol((x1 % 16) * 4 + x2 / 64),
                base64_symbol(x2 % 64),
            ][i]
        } else {
            rest[i - 4]
        } by {}
    }
}

/// What standard Base64 decoding gives for the text `s`: the bytes whose
/// encoding `s` is, or `None` where `s` is no such encoding.
pub open spec fn base64_decode_spec(s: Seq<char>) -> Option<Seq<u8>> {
    if exists|d: Seq<u8>| base64_encode_spec(d) == s {
        Some(choose|d: Seq<u8>| base64_encode_spec(d) == s)
    } else {
        None
    }
}

/// Decoding the Base64 encoding of `d` gives `d` back.
pub proof fn lemma_base64_decode_encode(d: Seq<u8>)
    ensures
        base64_decode_spec(base64_encode_spec(d)) == Some(d),
{
    let s = base64_encode_spec(d);
    assert(exists|x: Seq<u8>| base64_encode_spec(x) == s);
    let c = choose|x: Seq<u8>| base64_encode_spec(x) == s;
    lemma_base64_encode_injective(c, d);
}

/// `Engine::encode` of the `base64` crate with the `STANDARD` engine: the
/// standard alphabet, with padding. It panics where the length of the
/// encoding overflows `usize`, which `requires` leaves out.
#[verifier::external_body]
pub(crate) fn base64_encode(input: &[u8]) -> (encoded: String)
    requires
        base64_encoded_len(input@.len()) <= usize::MAX,
    ensures
        encoded@ == base64_encode_spec(input@),
{
    base64::engine::general_purpose::STANDARD.encode(input)
}

/// `Engine::decode` of the `base64` crate with the `STANDARD` engine, whose
/// configuration demands canonical padding and zero trailing bits: it
/// accepts exactly the texts that `encode` gives, and gives back the bytes
/// encoded.
#[verifier::external_body]
pub(crate) fn base64_decode(input: &str) -> (decoded: Option<Vec<u8>>)
    ensures
        decoded matches Some(d) ==> base64_encode_spec(d@) == input@,
        decoded is None ==> forall|d: Seq<u8>| base64_encode_spec(d) != input@,
{
    match base64::engine::general_purpose::STANDARD.decode(input) {
        Ok(d) => Some(d),
        Err(_) => None,
    }
}

/// Decodes standard Base64.
pub(crate) fn decode_base64(input: &str) -> (decoded: Option<Vec<u8>>)
    ensures
        decoded matches Some(d) ==> base64_decode_spec(input@) == Some(d@),
        decoded is None ==> base64_decode_spec(input@) is None,
{
    let decoded = base64_decode(input);
    proof {
        if decoded is Some {
            lemma_base64_decode_encode(decoded->0@);
        }
    }
    decoded
}

/// The text that `String::from_utf8_lossy` reads from `bytes`: their UTF-8
/// decoding, with each invalid sequence replaced by U+FFFD.
pub uninterp spec fn utf8_lossy(bytes: Seq<u8>) -> Seq<char>;

/// `String::from_utf8_lossy` of std, made an owned `String`. Of valid UTF-8
/// it gives the decoded text.
#[verifier::external_body]
pub(crate) fn from_utf8_lossy(bytes: &[u8]) -> (text: String)
    ensures
        text@ == utf8_lossy(bytes@),
        valid_utf8(bytes@) ==> text@ == decode_utf8(bytes@),
{
    String::from_utf8_lossy(bytes).into_owned()
}

/// The text read from `bytes`: their decoding where they are valid UTF-8,
/// else what `String::from_utf8_lossy` reads.
pub open spec fn text_of(bytes: Seq<u8>) -> Seq<char> {
    if valid_utf8(bytes) {
        decode_utf8(bytes)
    } else {
        utf8_lossy(bytes)
    }
}

/// Reads text from bytes, replacing each invalid UTF-8 sequence by U+FFFD.
pub(crate) fn read_text(bytes: &[u8]) -> (text: String)
    ensures
        text@ == text_of(bytes@),
{
    from_utf8_lossy(bytes)
}

} // verus!
