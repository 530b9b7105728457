use vstd::prelude::*;

verus! {

/// The character of the standard base64 alphabet (RFC 4648) for a six-bit
/// value: `A`-`Z`, `a`-`z`, `0`-`9`, `+`, `/`.
pub open spec fn sextet_char(v: int) -> char {
    if v < 26 {
        ('A' as int + v) as char
    } else if v < 52 {
        ('a' as int + (v - 26)) as char
    } else if v < 62 {
        ('0' as int + (v - 52)) as char
    } else if v == 62 {
        '+'
    } else {
        '/'
    }
}

/// The six-bit value of a character of the standard alphabet.
pub open spec fn sextet_value(c: char) -> int {
    let n = c as int;
    if 'A' as int <= n <= 'Z' as int {
        n - 'A' as int
    } else if 'a' as int <= n <= 'z' as int {
        n - 'a' as int + 26
    } else if '0' as int <= n <= '9' as int {
        n - '0' as int + 52
    } else if c == '+' {
        62
    } else {
        63
    }
}

/// Up to three bytes as a big-endian 24-bit number, missing bytes being zero.
pub open spec fn group_value(b: Seq<u8>) -> int {
    let b0 = if b.len() > 0 { b[0] as int } else { 0 };
    let b1 = if b.len() > 1 { b[1] as int } else { 0 };
    let b2 = if b.len() > 2 { b[2] as int } else { 0 };
    b0 * 65536 + b1 * 256 + b2
}

/// The base64 characters of one group of one to three bytes, without
/// padding: the leading `len + 1` sextets of its 24-bit value.
pub open spec fn encode_group(b: Seq<u8>) -> Seq<char> {
    let n = group_value(b);
    seq![
        sextet_char(n / 262144),
        sextet_char(n / 4096 % 64),
        sextet_char(n / 64 % 64),
        sextet_char(n % 64),
    ].take(b.len() + 1 as int)
}

/// Standard base64 without padding: each group of three bytes becomes four
/// characters, and a final group of one or two bytes becomes two or three.
pub open spec fn base64_unpadded(b: Seq<u8>) -> Seq<char>
    decreases b.len(),
{
    if b.len() == 0 {
        Seq::empty()
    } else if b.len() < 3 {
        encode_group(b)
    } else {
        encode_group(b.take(3)) + base64_unpadded(b.skip(3))
    }
}

/// Adds back the `=` padding that the length of an unpadded encoding implies.
pub open spec fn restore_padding(s: Seq<char>) -> Seq<char> {
    if s.len() % 4 == 2 {
        s + seq!['=', '=']
    } else if s.len() % 4 == 3 {
        s + seq!['=']
    } else {
        s
    }
}

/// The bytes of one padded block of four characters: three, or two when it
/// ends in `=`, or one when it ends in `==`.
pub open spec fn decode_block(q: Seq<char>) -> Seq<u8> {
    let v2 = if q[2] == '=' { 0 } else { sextet_value(q[2]) };
    let v3 = if q[3] == '=' { 0 } else { sextet_value(q[3]) };
    let n = sextet_value(q[0]) * 262144 + sextet_value(q[1]) * 4096 + v2 * 64 + v3;
    let bytes = seq![(n / 65536) as u8, (n / 256 % 256) as u8, (n % 256) as u8];
    if q[2] == '=' {
        bytes.take(1)
    } else if q[3] == '=' {
        bytes.take(2)
    } else {
        bytes
    }
}

/// Standard padded base64 decoding, block by block.
pub open spec fn decode_padded(s: Seq<char>) -> Seq<u8>
    decreases s.len(),
{
    if s.len() < 4 {
        Seq::empty()
    } else {
        decode_block(s.take(4)) + decode_padded(s.skip(4))
    }
}

proof fn lemma_sextet_round_trip(v: int)
    requires
        0 <= v < 64,
    ensures
        sextet_value(sextet_char(v)) == v,
        sextet_char(v) != '=',
{
}

proof fn lemma_group_bits(b0: u32, b1: u32, b2: u32, n: u32)
    by (bit_vector)
    requires
        b0 < 256,
        b1 < 256,
        b2 < 256,
        n == b0 * 65536 + b1 * 256 + b2,
    ensures
        n / 262144 < 64,
        (n / 262144) * 262144 + (n / 4096 % 64) * 4096 + (n / 64 % 64) * 64 + n % 64 == n,
        n / 65536 == b0,
        n / 256 % 256 == b1,
        n % 256 == b2,
        b2 == 0 ==> n % 64 == 0,
        b1 == 0 && b2 == 0 ==> n / 64 % 64 == 0,
{
}

proof fn lemma_group_round_trip(b: Seq<u8>)
    requires
        1 <= b.len() <= 3,
    ensures
        decode_block(restore_padding(encode_group(b))) == b,
{
    let n = group_value(b);
    let b0 = b[0] as u32;
    let b1 = if b.len() > 1 { b[1] as u32 } else { 0u32 };
    let b2 = if b.len() > 2 { b[2] as u32 } else { 0u32 };
    lemma_group_bits(b0, b1, b2, n as u32);
    lemma_sextet_round_trip(n / 262144);
    lemma_sextet_round_trip(n / 4096 % 64);
    lemma_sextet_round_trip(n / 64 % 64);
    lemma_sextet_round_trip(n % 64);
    let p = restore_padding(encode_group(b));
    assert(p.len() == 4);
    assert(decode_block(p) =~= b);
}

proof fn lemma_pad_concat(q: Seq<char>, rest: Seq<char>)
    requires
        q.len() == 4,
    ensures
        restore_padding(q + rest) == q + restore_padding(rest),
{
    assert((q + rest).len() % 4 == rest.len() % 4);
    assert(restore_padding(q + rest) =~= q + restore_padding(rest));
}

proof fn lemma_decode_concat(q: Seq<char>, rest: Seq<char>)
    requires
        q.len() == 4,
    ensures
        decode_padded(q + rest) == decode_block(q) + decode_padded(rest),
{
    let p = q + rest;
    assert(p.take(4) =~= q);
    assert(p.skip(4) =~= rest);
}

/// Decoding the unpadded encoding of any byte sequence, once the padding
/// implied by its length is restored, gives back exactly those bytes.
pub proof fn lemma_base64_round_trip(b: Seq<u8>)
    ensures
        decode_padded(restore_padding(base64_unpadded(b))) == b,
    decreases b.len(),
{
    if b.len() == 0 {
        assert(restore_padding(base64_unpadded(b)) =~= Seq::<char>::empty());
        assert(decode_padded(Seq::<char>::empty()) =~= b);
    } else if b.len() < 3 {
        lemma_group_round_trip(b);
        let p = restore_padding(encode_group(b));
        lemma_decode_concat(p, Seq::empty());
        assert(p + Seq::<char>::empty() =~= p);
        assert(decode_padded(Seq::<char>::empty()) =~= Seq::<u8>::empty());
        assert(decode_block(p) + Seq::<u8>::empty() =~= decode_block(p));
    } else {
        let head = b.take(3);
        let tail = b.skip(3);
        lemma_group_round_trip(head);
        lemma_base64_round_trip(tail);
        let q = encode_group(head);
        let rest = base64_unpadded(tail);
        assert(q.len() == 4);
        assert(restore_padding(q) == q);
        lemma_pad_concat(q, rest);
        lemma_decode_concat(q, restore_padding(rest));
        assert(head + tail =~= b);
    }
}

/// Whether the unpadded encoding of `len` bytes has a length that fits in
/// `usize`.
pub open spec fn encodable(len: nat) -> bool {
    len / 3 * 4 + 3 <= usize::MAX
}

/// Relies on base64's `Engine::encode` with the `STANDARD_NO_PAD` engine:
/// the standard alphabet without `=` padding. It panics only when the
/// encoded length overflows `usize`.
#[verifier::external_body]
pub(crate) fn encode_unpadded(bytes: &[u8]) -> (r: String)
    requires
        encodable(bytes@.len()),
    ensures
        r@ == base64_unpadded(bytes@),
{
    base64::Engine::encode(&base64::engine::general_purpose::STANDARD_NO_PAD, bytes)
}

} // verus!
