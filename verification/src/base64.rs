//! Decoding of standard Base64 (`A-Za-z0-9+/` with `=` padding), the wire
//! format of memory blobs.

use vstd::prelude::*;
use vstd::string::StringSliceAdditionalSpecFns;

verus! {

/// The padding byte `=`.
pub const PAD: u8 = 61;

/// The 6-bit value of one Base64 alphabet byte, or `None` for any other byte.
pub open spec fn base64_digit_value(c: u8) -> Option<u8> {
    if 65 <= c <= 90 {
        // 'A'..='Z'
        Some((c - 65) as u8)
    } else if 97 <= c <= 122 {
        // 'a'..='z'
        Some((c - 97 + 26) as u8)
    } else if 48 <= c <= 57 {
        // '0'..='9'
        Some((c - 48 + 52) as u8)
    } else if c == 43 {
        // '+'
        Some(62)
    } else if c == 47 {
        // '/'
        Some(63)
    } else {
        None
    }
}

/// The alphabet byte that encodes the 6-bit value `d`.
pub open spec fn base64_alphabet(d: u8) -> u8 {
    if d < 26 {
        (65 + d) as u8
    } else if d < 52 {
        (97 + d - 26) as u8
    } else if d < 62 {
        (48 + d - 52) as u8
    } else if d == 62 {
        43
    } else {
        47
    }
}

/// Puts `prefix` in front of the bytes of a successful result; errors pass through.
pub open spec fn prepend_bytes(prefix: Seq<u8>, r: Result<Seq<u8>, Seq<char>>) -> Result<
    Seq<u8>,
    Seq<char>,
> {
    match r {
        Ok(rest) => Ok(prefix + rest),
        Err(e) => Err(e),
    }
}

/// Decodes the groups of four bytes at the front of `s`, in order.
///
/// A group whose third byte is `=` must end in `=` and yields one byte; a group whose
/// fourth byte is `=` yields two bytes; either one ends the decoding, whatever follows.
/// A full group yields three bytes and decoding goes on with the next group.
pub open spec fn base64_groups(s: Seq<u8>) -> Result<Seq<u8>, Seq<char>>
    decreases s.len(),
{
    if s.len() < 4 {
        Ok(Seq::empty())
    } else {
        match (base64_digit_value(s[0]), base64_digit_value(s[1])) {
            (Some(b0), Some(b1)) => {
                let o0 = (b0 << 2u8) | (b1 >> 4u8);
                if s[2] == PAD {
                    if s[3] != PAD {
                        Err("invalid base64 padding"@)
                    } else {
                        Ok(seq![o0])
                    }
                } else {
                    match base64_digit_value(s[2]) {
                        None => Err("invalid base64 character"@),
                        Some(b2) => {
                            let o1 = ((b1 & 15u8) << 4u8) | (b2 >> 2u8);
                            if s[3] == PAD {
                                Ok(seq![o0, o1])
                            } else {
                                match base64_digit_value(s[3]) {
                                    None => Err("invalid base64 character"@),
                                    Some(b3) => {
                                        let o2 = ((b2 & 3u8) << 6u8) | b3;
                                        prepend_bytes(seq![o0, o1, o2], base64_groups(s.skip(4)))
                                    },
                                }
                            }
                        },
                    }
                }
            },
            _ => Err("invalid base64 character"@),
        }
    }
}

/// What decoding the bytes `s` gives: the decoded bytes, or the error message.
pub open spec fn base64_decoding(s: Seq<u8>) -> Result<Seq<u8>, Seq<char>> {
    if s.len() % 4 != 0 {
        Err("invalid base64 length"@)
    } else {
        base64_groups(s)
    }
}

/// Standard Base64 encoding of `b`, padded with `=` to a multiple of four bytes.
pub open spec fn base64_encoding(b: Seq<u8>) -> Seq<u8>
    decreases b.len(),
{
    if b.len() == 0 {
        Seq::empty()
    } else if b.len() == 1 {
        seq![base64_alphabet(b[0] >> 2u8), base64_alphabet((b[0] & 3u8) << 4u8), PAD, PAD]
    } else if b.len() == 2 {
        seq![
            base64_alphabet(b[0] >> 2u8),
            base64_alphabet(((b[0] & 3u8) << 4u8) | (b[1] >> 4u8)),
            base64_alphabet((b[1] & 15u8) << 2u8),
            PAD,
        ]
    } else {
        seq![
            base64_alphabet(b[0] >> 2u8),
            base64_alphabet(((b[0] & 3u8) << 4u8) | (b[1] >> 4u8)),
            base64_alphabet(((b[1] & 15u8) << 2u8) | (b[2] >> 6u8)),
            base64_alphabet(b[2] & 63u8),
        ] + base64_encoding(b.skip(3))
    }
}

/// Maps one Base64 alphabet character to its 6-bit value.
pub fn decode_base64_digit(byte: u8) -> (r: Result<u8, &'static str>)
    ensures
        match base64_digit_value(byte) {
            Some(v) => r == Ok::<u8, &'static str>(v),
            None => r matches Err(m) && m@ == "invalid base64 character"@,
        },
{
    if 65 <= byte && byte <= 90 {
        Ok(byte - 65)
    } else if 97 <= byte && byte <= 122 {
        Ok(byte - 97 + 26)
    } else if 48 <= byte && byte <= 57 {
        Ok(byte - 48 + 52)
    } else if byte == 43 {
        Ok(62)
    } else if byte == 47 {
        Ok(63)
    } else {
        Err("invalid base64 character")
    }
}

proof fn lemma_prepend_twice(a: Seq<u8>, b: Seq<u8>, r: Result<Seq<u8>, Seq<char>>)
    ensures
        prepend_bytes(a, prepend_bytes(b, r)) == prepend_bytes(a + b, r),
{
    if let Ok(rest) = r {
        assert(a + (b + rest) =~= (a + b) + rest);
    }
}

proof fn lemma_alphabet_digit(d: u8)
    requires
        d < 64,
    ensures
        base64_digit_value(base64_alphabet(d)) == Some(d),
        base64_alphabet(d) != PAD,
{
}

/// Every Base64 encoding has a length that is a multiple of four.
pub proof fn lemma_encoding_length(b: Seq<u8>)
    ensures
        base64_encoding(b).len() % 4 == 0,
    decreases b.len(),
{
    if b.len() >= 3 {
        lemma_encoding_length(b.skip(3));
    }
}

/// Decoding the Base64 encoding of any byte sequence gives that sequence back.
pub proof fn lemma_base64_round_trip(b: Seq<u8>)
    ensures
        base64_decoding(base64_encoding(b)) == Ok::<Seq<u8>, Seq<char>>(b),
    decreases b.len(),
{
    let s = base64_encoding(b);
    lemma_encoding_length(b);
    if b.len() == 0 {
        assert(b =~= Seq::<u8>::empty());
    } else if b.len() == 1 {
        let x = b[0];
        assert((x >> 2u8) < 64u8) by (bit_vector);
        assert(((x & 3u8) << 4u8) < 64u8) by (bit_vector);
        assert((((x >> 2u8) << 2u8) | (((x & 3u8) << 4u8) >> 4u8)) == x) by (bit_vector);
        lemma_alphabet_digit(x >> 2u8);
        lemma_alphabet_digit((x & 3u8) << 4u8);
        assert(seq![x] =~= b);
    } else if b.len() == 2 {
        let x = b[0];
        let y = b[1];
        let d1 = ((x & 3u8) << 4u8) | (y >> 4u8);
        assert((x >> 2u8) < 64u8) by (bit_vector);
        assert((((x & 3u8) << 4u8) | (y >> 4u8)) < 64u8) by (bit_vector);
        assert(((y & 15u8) << 2u8) < 64u8) by (bit_vector);
        assert((((x >> 2u8) << 2u8) | ((((x & 3u8) << 4u8) | (y >> 4u8)) >> 4u8)) == x)
            by (bit_vector);
        assert((((((x & 3u8) << 4u8) | (y >> 4u8)) & 15u8) << 4u8 | (((y & 15u8) << 2u8)
            >> 2u8)) == y) by (bit_vector);
        lemma_alphabet_digit(x >> 2u8);
        lemma_alphabet_digit(d1);
        lemma_alphabet_digit((y & 15u8) << 2u8);
        assert(seq![x, y] =~= b);
    } else {
        let x = b[0];
        let y = b[1];
        let z = b[2];
        let d1 = ((x & 3u8) << 4u8) | (y >> 4u8);
        let d2 = ((y & 15u8) << 2u8) | (z >> 6u8);
        assert((x >> 2u8) < 64u8) by (bit_vector);
        assert((((x & 3u8) << 4u8) | (y >> 4u8)) < 64u8) by (bit_vector);
        assert((((y & 15u8) << 2u8) | (z >> 6u8)) < 64u8) by (bit_vector);
        assert((z & 63u8) < 64u8) by (bit_vector);
        assert((((x >> 2u8) << 2u8) | ((((x & 3u8) << 4u8) | (y >> 4u8)) >> 4u8)) == x)
            by (bit_vector);
        assert((((((x & 3u8) << 4u8) | (y >> 4u8)) & 15u8) << 4u8 | ((((y & 15u8) << 2u8) | (
        z >> 6u8)) >> 2u8)) == y) by (bit_vector);
        assert((((((y & 15u8) << 2u8) | (z >> 6u8)) & 3u8) << 6u8 | (z & 63u8)) == z)
            by (bit_vector);
        lemma_alphabet_digit(x >> 2u8);
        lemma_alphabet_digit(d1);
        lemma_alphabet_digit(d2);
        lemma_alphabet_digit(z & 63u8);
        let rest = base64_encoding(b.skip(3));
        lemma_base64_round_trip(b.skip(3));
        lemma_encoding_length(b.skip(3));
        assert(s.skip(4) =~= rest);
        assert(seq![x, y, z] + b.skip(3) =~= b);
    }
}

/// Decodes the Base64 bytes `input`.
pub fn decode_base64_bytes(input: &[u8]) -> (r: Result<Vec<u8>, &'static str>)
    ensures
        match base64_decoding(input@) {
            Ok(bytes) => r matches Ok(v) && v@ == bytes,
            Err(message) => r matches Err(m) && m@ == message,
        },
{
    let len = input.len();
    if len % 4 != 0 {
        return Err("invalid base64 length");
    }
    assert(len / 4 * 3 <= len) by (nonlinear_arith);
    let mut out: Vec<u8> = Vec::with_capacity(len / 4 * 3);
    let mut i: usize = 0;
    proof {
        assert(input@.skip(0) =~= input@);
        if let Ok(rest) = base64_groups(input@) {
            assert(Seq::<u8>::empty() + rest =~= rest);
        }
    }
    while i < len
        invariant
            len == input@.len(),
            len % 4 == 0,
            i <= len,
            (len - i) % 4 == 0,
            base64_groups(input@) == prepend_bytes(out@, base64_groups(input@.skip(i as int))),
        decreases len - i,
    {
        let ghost rest = input@.skip(i as int);
        assert(rest.len() >= 4);
        assert(rest[0] == input@[i as int] && rest[1] == input@[i + 1] && rest[2] == input@[i
            + 2] && rest[3] == input@[i + 3]);
        let b0 = match decode_base64_digit(input[i]) {
            Ok(v) => v,
            Err(e) => return Err(e),
        };
        let b1 = match decode_base64_digit(input[i + 1]) {
            Ok(v) => v,
            Err(e) => return Err(e),
        };
        let ghost before = out@;
        let o0: u8 = (b0 << 2u8) | (b1 >> 4u8);
        out.push(o0);
        if input[i + 2] == PAD {
            if input[i + 3] != PAD {
                return Err("invalid base64 padding");
            }
            assert(out@ =~= before + seq![o0]);
            return Ok(out);
        }
        let b2 = match decode_base64_digit(input[i + 2]) {
            Ok(v) => v,
            Err(e) => return Err(e),
        };
        let o1: u8 = ((b1 & 15u8) << 4u8) | (b2 >> 2u8);
        out.push(o1);
        if input[i + 3] == PAD {
            assert(out@ =~= before + seq![o0, o1]);
            return Ok(out);
        }
        let b3 = match decode_base64_digit(input[i + 3]) {
            Ok(v) => v,
            Err(e) => return Err(e),
        };
        let o2: u8 = ((b2 & 3u8) << 6u8) | b3;
        out.push(o2);
        proof {
            assert(out@ =~= before + seq![o0, o1, o2]);
            assert(rest.skip(4) =~= input@.skip(i + 4));
            lemma_prepend_twice(before, seq![o0, o1, o2], base64_groups(input@.skip(i + 4)));
        }
        i = i + 4;
    }
    proof {
        assert(input@.skip(i as int) =~= Seq::<u8>::empty());
        assert(out@ + Seq::<u8>::empty() =~= out@);
    }
    Ok(out)
}

/// Decodes standard Base64 (`A-Za-z0-9+/` with `=` padding) into bytes.
pub fn decode_base64(input: &str) -> (r: Result<Vec<u8>, &'static str>)
    ensures
        match base64_decoding(input.spec_bytes()) {
            Ok(bytes) => r matches Ok(v) && v@ == bytes,
            Err(message) => r matches Err(m) && m@ == message,
        },
{
    decode_base64_bytes(input.as_bytes())
}

} // verus!
