use vstd::prelude::*;
use crate::text::push_char;

verus! {

/// The character of the standard base64 alphabet (RFC 4648) that stands for
/// a six-bit value.
pub open spec fn sextet_char(v: int) -> char {
    if v < 26 {
        (v + 65) as char
    } else if v < 52 {
        (v - 26 + 97) as char
    } else if v < 62 {
        (v - 52 + 48) as char
    } else if v == 62 {
        '+'
    } else {
        '/'
    }
}

/// The byte at `i`, or zero past the end of `s`.
pub open spec fn byte_or_zero(s: Seq<u8>, i: int) -> u8 {
    if 0 <= i < s.len() {
        s[i]
    } else {
        0
    }
}

/// The four characters that encode one group of up to three bytes, of which
/// the first `n` are real; the missing ones are written as `=`.
pub open spec fn encode_group(b1: u8, b2: u8, b3: u8, n: int) -> Seq<char> {
    seq![
        sextet_char((b1 >> 2u8) as int),
        sextet_char((((b1 & 3u8) << 4u8) | (b2 >> 4u8)) as int),
        if n >= 2 {
            sextet_char((((b2 & 15u8) << 2u8) | (b3 >> 6u8)) as int)
        } else {
            '='
        },
        if n >= 3 {
            sextet_char((b3 & 63u8) as int)
        } else {
            '='
        },
    ]
}

/// Standard padded base64 of a byte sequence: each group of three bytes,
/// the last one possibly shorter, becomes four characters.
pub open spec fn base64_of(input: Seq<u8>) -> Seq<char>
    decreases input.len(),
{
    if input.len() == 0 {
        seq![]
    } else {
        let group = encode_group(
            input[0],
            byte_or_zero(input, 1),
            byte_or_zero(input, 2),
            input.len() as int,
        );
        if input.len() <= 3 {
            group
        } else {
            group + base64_of(input.skip(3))
        }
    }
}

fn sextet_to_char(v: u8) -> (c: char)
    requires
        v < 64,
    ensures
        c == sextet_char(v as int),
{
    if v < 26 {
        (v + 65) as char
    } else if v < 52 {
        (v - 26 + 97) as char
    } else if v < 62 {
        (v - 52 + 48) as char
    } else if v == 62 {
        '+'
    } else {
        '/'
    }
}

/// Encodes bytes as standard padded base64 (RFC 4648 alphabet, `=` padding).
pub fn encode_base64(input: &[u8]) -> (out: String)
    ensures
        out@ == base64_of(input@),
{
    let mut out = String::new();
    let len = input.len();
    let mut i: usize = 0;
    assert(input@.skip(0) =~= input@);
    while i < len
        invariant
            i <= len,
            len == input@.len(),
            out@ + base64_of(input@.skip(i as int)) == base64_of(input@),
        decreases len - i,
    {
        let ghost rest = input@.skip(i as int);
        let ghost before = out@;
        let b1 = input[i];
        let b2 = if len - i > 1 { input[i + 1] } else { 0 };
        let b3 = if len - i > 2 { input[i + 2] } else { 0 };

        let o1 = b1 >> 2;
        let o2 = ((b1 & 0b0000_0011) << 4) | (b2 >> 4);
        let o3 = ((b2 & 0b0000_1111) << 2) | (b3 >> 6);
        let o4 = b3 & 0b0011_1111;
        assert(o1 < 64 && o2 < 64 && o3 < 64 && o4 < 64) by (bit_vector)
            requires
                o1 == b1 >> 2u8,
                o2 == ((b1 & 3u8) << 4u8) | (b2 >> 4u8),
                o3 == ((b2 & 15u8) << 2u8) | (b3 >> 6u8),
                o4 == b3 & 63u8,
        ;

        let c1 = sextet_to_char(o1);
        let c2 = sextet_to_char(o2);
        let c3 = if len - i > 1 { sextet_to_char(o3) } else { '=' };
        let c4 = if len - i > 2 { sextet_to_char(o4) } else { '=' };
        push_char(&mut out, c1);
        push_char(&mut out, c2);
        push_char(&mut out, c3);
        push_char(&mut out, c4);

        let ghost group = encode_group(b1, b2, b3, rest.len() as int);
        assert(b2 == byte_or_zero(rest, 1));
        assert(b3 == byte_or_zero(rest, 2));
        assert(out@ =~= before + group);
        if len - i <= 3 {
            assert(base64_of(rest) == group);
            i = len;
            assert(input@.skip(i as int) =~= Seq::<u8>::empty());
            assert(out@ + base64_of(input@.skip(i as int)) =~= out@);
        } else {
            assert(rest.skip(3) =~= input@.skip(i + 3));
            assert(base64_of(rest) == group + base64_of(rest.skip(3)));
            i = i + 3;
            assert(out@ + base64_of(input@.skip(i as int)) =~= before + base64_of(rest));
        }
    }
    out
}

/// Whether `c` is one of the 64 characters of the standard base64 alphabet.
pub open spec fn is_alphabet_char(c: char) -> bool {
    ('A' <= c <= 'Z') || ('a' <= c <= 'z') || ('0' <= c <= '9') || c == '+' || c == '/'
}

/// How many `=` end the encoding of `n` bytes.
pub open spec fn padding_len(n: nat) -> int {
    (3 - (n % 3) as int) % 3
}

/// The six-bit value that an alphabet character stands for.
pub open spec fn char_sextet(c: char) -> u8 {
    if 'A' <= c <= 'Z' {
        (c as int - 65) as u8
    } else if 'a' <= c <= 'z' {
        (c as int - 71) as u8
    } else if '0' <= c <= '9' {
        (c as int + 4) as u8
    } else if c == '+' {
        62
    } else {
        63
    }
}

/// The bytes that a group of four characters stands for, as many as its
/// padding leaves.
pub open spec fn decode_group(g: Seq<char>) -> Seq<u8> {
    let a = char_sextet(g[0]);
    let b = char_sextet(g[1]);
    let c = char_sextet(g[2]);
    let d = char_sextet(g[3]);
    let v1 = (a << 2u8) | (b >> 4u8);
    let v2 = (b << 4u8) | (c >> 2u8);
    let v3 = (c << 6u8) | d;
    if g[2] == '=' {
        seq![v1]
    } else if g[3] == '=' {
        seq![v1, v2]
    } else {
        seq![v1, v2, v3]
    }
}

/// Reads padded base64 back, four characters at a time.
pub open spec fn base64_decoded(s: Seq<char>) -> Seq<u8>
    decreases s.len(),
{
    if s.len() < 4 {
        seq![]
    } else {
        decode_group(s.take(4)) + base64_decoded(s.skip(4))
    }
}

proof fn lemma_sextet_char(v: int)
    requires
        0 <= v < 64,
    ensures
        is_alphabet_char(sextet_char(v)),
        sextet_char(v) != '=',
        char_sextet(sextet_char(v)) == v,
{
}

proof fn lemma_group_bits(b1: u8, b2: u8, b3: u8)
    ensures
        ({
            let s1 = b1 >> 2u8;
            let s2 = ((b1 & 3u8) << 4u8) | (b2 >> 4u8);
            let s3 = ((b2 & 15u8) << 2u8) | (b3 >> 6u8);
            let s4 = b3 & 63u8;
            &&& s1 < 64 && s2 < 64 && s3 < 64 && s4 < 64
            &&& ((s1 << 2u8) | (s2 >> 4u8)) == b1
            &&& ((s2 << 4u8) | (s3 >> 2u8)) == b2
            &&& ((s3 << 6u8) | s4) == b3
        }),
{
    assert({
        let s1 = b1 >> 2u8;
        let s2 = ((b1 & 3u8) << 4u8) | (b2 >> 4u8);
        let s3 = ((b2 & 15u8) << 2u8) | (b3 >> 6u8);
        let s4 = b3 & 63u8;
        &&& s1 < 64 && s2 < 64 && s3 < 64 && s4 < 64
        &&& ((s1 << 2u8) | (s2 >> 4u8)) == b1
        &&& ((s2 << 4u8) | (s3 >> 2u8)) == b2
        &&& ((s3 << 6u8) | s4) == b3
    }) by (bit_vector);
}

proof fn lemma_group(b1: u8, b2: u8, b3: u8, n: int)
    requires
        1 <= n,
    ensures
        encode_group(b1, b2, b3, n).len() == 4,
        forall|j: int|
            0 <= j < 4 ==> (is_alphabet_char(#[trigger] encode_group(b1, b2, b3, n)[j])
                || encode_group(b1, b2, b3, n)[j] == '='),
        forall|j: int|
            0 <= j < 4 ==> (#[trigger] encode_group(b1, b2, b3, n)[j] == '=' <==> (j == 2 && n < 2)
                || (j == 3 && n < 3)),
        n == 1 ==> decode_group(encode_group(b1, b2, b3, n)) == seq![b1],
        n == 2 ==> decode_group(encode_group(b1, b2, b3, n)) == seq![b1, b2],
        n >= 3 ==> decode_group(encode_group(b1, b2, b3, n)) == seq![b1, b2, b3],
{
    lemma_group_bits(b1, b2, b3);
    let s1 = b1 >> 2u8;
    let s2 = ((b1 & 3u8) << 4u8) | (b2 >> 4u8);
    let s3 = ((b2 & 15u8) << 2u8) | (b3 >> 6u8);
    let s4 = b3 & 63u8;
    lemma_sextet_char(s1 as int);
    lemma_sextet_char(s2 as int);
    lemma_sextet_char(s3 as int);
    lemma_sextet_char(s4 as int);
    let g = encode_group(b1, b2, b3, n);
    assert(char_sextet(g[0]) == s1);
    assert(char_sextet(g[1]) == s2);
    if n >= 2 {
        assert(char_sextet(g[2]) == s3);
    }
    if n >= 3 {
        assert(char_sextet(g[3]) == s4);
    }
    if n == 1 {
        assert(decode_group(g) =~= seq![b1]);
    } else if n == 2 {
        assert(decode_group(g) =~= seq![b1, b2]);
    } else {
        assert(decode_group(g) =~= seq![b1, b2, b3]);
    }
}

/// The encoding of `n` bytes is `4 * ceil(n / 3)` characters long.
pub proof fn lemma_base64_len(input: Seq<u8>)
    ensures
        base64_of(input).len() == 4 * ((input.len() + 2) / 3),
    decreases input.len(),
{
    if input.len() > 3 {
        lemma_base64_len(input.skip(3));
    }
}

/// Every character of an encoding is of the base64 alphabet or `=`, and the
/// `=` characters are exactly the last `(3 - n % 3) % 3` of them.
pub proof fn lemma_base64_alphabet(input: Seq<u8>)
    ensures
        ({
            let out = base64_of(input);
            forall|j: int|
                0 <= j < out.len() ==> {
                    &&& is_alphabet_char(#[trigger] out[j]) || out[j] == '='
                    &&& (out[j] == '=' <==> j >= out.len() - padding_len(input.len()))
                }
        }),
    decreases input.len(),
{
    lemma_base64_len(input);
    if input.len() > 0 {
        let n = input.len() as int;
        let b2 = byte_or_zero(input, 1);
        let b3 = byte_or_zero(input, 2);
        lemma_group(input[0], b2, b3, n);
        let group = encode_group(input[0], b2, b3, n);
        if input.len() > 3 {
            let rest = input.skip(3);
            lemma_base64_alphabet(rest);
            lemma_base64_len(rest);
            assert(rest.len() % 3 == input.len() % 3);
            let out = base64_of(input);
            assert forall|j: int| 0 <= j < out.len() implies {
                &&& is_alphabet_char(#[trigger] out[j]) || out[j] == '='
                &&& (out[j] == '=' <==> j >= out.len() - padding_len(input.len()))
            } by {
                if j < 4 {
                    assert(out[j] == group[j]);
                } else {
                    assert(out[j] == base64_of(rest)[j - 4]);
                }
            }
        }
    }
}

/// Decoding an encoding gives the bytes back.
pub proof fn lemma_base64_round_trip(input: Seq<u8>)
    ensures
        base64_decoded(base64_of(input)) == input,
    decreases input.len(),
{
    if input.len() == 0 {
        assert(base64_decoded(base64_of(input)) =~= input);
    } else {
        let n = input.len() as int;
        let b2 = byte_or_zero(input, 1);
        let b3 = byte_or_zero(input, 2);
        lemma_group(input[0], b2, b3, n);
        let group = encode_group(input[0], b2, b3, n);
        let out = base64_of(input);
        if input.len() <= 3 {
            assert(out.take(4) =~= group);
            assert(out.skip(4) =~= Seq::<char>::empty());
            assert(base64_decoded(out.skip(4)) =~= Seq::<u8>::empty());
            assert(base64_decoded(out) =~= input);
        } else {
            let rest = input.skip(3);
            lemma_base64_round_trip(rest);
            assert(out.take(4) =~= group);
            assert(out.skip(4) =~= base64_of(rest));
            assert(input =~= seq![input[0], b2, b3] + rest);
            assert(base64_decoded(out) =~= input);
        }
    }
}

/// Two byte sequences with the same encoding are equal.
pub proof fn lemma_base64_injective(a: Seq<u8>, b: Seq<u8>)
    requires
        base64_of(a) == base64_of(b),
    ensures
        a == b,
{
    lemma_base64_round_trip(a);
    lemma_base64_round_trip(b);
}

} // verus!
