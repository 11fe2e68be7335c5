use vstd::prelude::*;
use base64::Engine;

verus! {

/// The lowercase hexadecimal digit of a value below 16.
pub open spec fn hex_digit(v: int) -> char {
    if v < 10 {
        (48 + v) as char
    } else {
        (87 + v) as char
    }
}

/// Lowercase hexadecimal text of bytes: two digits per byte, high half first.
pub open spec fn hex_lower(bytes: Seq<u8>) -> Seq<char>
    decreases bytes.len(),
{
    if bytes.len() == 0 {
        Seq::empty()
    } else {
        seq![hex_digit(bytes[0] as int / 16), hex_digit(bytes[0] as int % 16)] + hex_lower(bytes.drop_first())
    }
}

/// Calls `hex::encode`, which writes each byte as two lowercase hexadecimal
/// digits, high half first. Longer input would overflow the text's capacity.
#[verifier::external_body]
pub(crate) fn hex_encode(bytes: &[u8]) -> (res: String)
    requires
        2 * bytes@.len() <= isize::MAX,
    ensures
        res@ == hex_lower(bytes@),
{
    hex::encode(bytes)
}

/// The character of a 6-bit value in the standard Base64 alphabet.
pub open spec fn base64_digit(v: int) -> char {
    if v < 26 {
        (65 + v) as char
    } else if v < 52 {
        (71 + v) as char
    } else if v < 62 {
        (v - 4) as char
    } else if v == 62 {
        '+'
    } else {
        '/'
    }
}

/// Standard Base64 with `=` padding: each group of three bytes becomes four
/// characters; a final group of one or two bytes is padded to four.
pub open spec fn base64_standard(bytes: Seq<u8>) -> Seq<char>
    decreases bytes.len(),
{
    if bytes.len() == 0 {
        Seq::empty()
    } else {
        let b0 = bytes[0] as int;
        if bytes.len() == 1 {
            seq![base64_digit(b0 / 4), base64_digit((b0 % 4) * 16), '=', '=']
        } else {
            let b1 = bytes[1] as int;
            if bytes.len() == 2 {
                seq![
                    base64_digit(b0 / 4),
                    base64_digit((b0 % 4) * 16 + b1 / 16),
                    base64_digit((b1 % 16) * 4),
                    '=',
                ]
            } else {
                let b2 = bytes[2] as int;
                seq![
                    base64_digit(b0 / 4),
                    base64_digit((b0 % 4) * 16 + b1 / 16),
                    base64_digit((b1 % 16) * 4 + b2 / 64),
                    base64_digit(b2 % 64),
                ] + base64_standard(bytes.subrange(3, bytes.len() as int))
            }
        }
    }
}

/// Calls `STANDARD.encode` of the `base64` crate: standard alphabet with `=`
/// padding. It panics when the encoded length overflows, so that input is left out.
#[verifier::external_body]
pub(crate) fn base64_encode(bytes: &[u8]) -> (res: String)
    requires
        (bytes@.len() + 2) / 3 * 4 <= isize::MAX,
    ensures
        res@ == base64_standard(bytes@),
{
    base64::engine::general_purpose::STANDARD.encode(bytes)
}

/// The 6-bit value of a character of the standard Base64 alphabet.
pub open spec fn base64_value(c: char) -> int {
    let n = c as int;
    if 65 <= n <= 90 {
        n - 65
    } else if 97 <= n <= 122 {
        n - 71
    } else if 48 <= n <= 57 {
        n + 4
    } else if c == '+' {
        62
    } else {
        63
    }
}

/// Standard Base64 decoding of padded text: each group of four characters
/// gives three bytes, or fewer where it ends in `=` padding.
pub open spec fn base64_standard_decode(text: Seq<char>) -> Seq<u8>
    decreases text.len(),
{
    if text.len() < 4 {
        Seq::empty()
    } else {
        let v0 = base64_value(text[0]);
        let v1 = base64_value(text[1]);
        let v2 = base64_value(text[2]);
        let v3 = base64_value(text[3]);
        let b0 = (v0 * 4 + v1 / 16) as u8;
        let b1 = ((v1 % 16) * 16 + v2 / 4) as u8;
        let b2 = ((v2 % 4) * 64 + v3) as u8;
        if text[2] == '=' {
            seq![b0]
        } else if text[3] == '=' {
            seq![b0, b1]
        } else {
            seq![b0, b1, b2] + base64_standard_decode(text.subrange(4, text.len() as int))
        }
    }
}

proof fn lemma_base64_digit(v: int)
    requires
        0 <= v < 64,
    ensures
        base64_value(base64_digit(v)) == v,
        base64_digit(v) != '=',
{
}

/// Law: Base64 loses nothing: decoding the standard encoding of any bytes
/// gives them back.
pub proof fn law_base64_round_trip(bytes: Seq<u8>)
    ensures
        base64_standard_decode(base64_standard(bytes)) == bytes,
    decreases bytes.len(),
{
    if bytes.len() == 0 {
        return;
    }
    let b0 = bytes[0] as int;
    lemma_base64_digit(b0 / 4);
    lemma_base64_digit((b0 % 4) * 16);
    if bytes.len() == 1 {
        assert(base64_standard_decode(base64_standard(bytes)) =~= bytes);
        return;
    }
    let b1 = bytes[1] as int;
    lemma_base64_digit((b0 % 4) * 16 + b1 / 16);
    lemma_base64_digit((b1 % 16) * 4);
    if bytes.len() == 2 {
        assert(base64_standard_decode(base64_standard(bytes)) =~= bytes);
        return;
    }
    let b2 = bytes[2] as int;
    lemma_base64_digit((b1 % 16) * 4 + b2 / 64);
    lemma_base64_digit(b2 % 64);
    let rest = bytes.subrange(3, bytes.len() as int);
    law_base64_round_trip(rest);
    let head = seq![
        base64_digit(b0 / 4),
        base64_digit((b0 % 4) * 16 + b1 / 16),
        base64_digit((b1 % 16) * 4 + b2 / 64),
        base64_digit(b2 % 64),
    ];
    let text = head + base64_standard(rest);
    assert(base64_standard(bytes) == text);
    assert(text.subrange(4, text.len() as int) =~= base64_standard(rest));
    assert(bytes =~= seq![bytes[0], bytes[1], bytes[2]] + rest);
}

} // verus!
