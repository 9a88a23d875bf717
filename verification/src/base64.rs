//! The Base64 text form of encrypted credentials (standard alphabet, `=` padding).
use vstd::prelude::*;

use crate::text::push_char;

verus! {

/// The character of the standard alphabet for a sextet `v < 64`.
pub open spec fn b64_char(v: nat) -> char {
    if v < 26 {
        ((v + 65) as u32) as char
    } else if v < 52 {
        ((v - 26 + 97) as u32) as char
    } else if v < 62 {
        ((v - 52 + 48) as u32) as char
    } else if v == 62 {
        '+'
    } else {
        '/'
    }
}

/// The sextet a character stands for, or `None` for characters outside the
/// alphabet (the decoder skips those).
pub open spec fn b64_value(c: char) -> Option<nat> {
    if 'A' <= c && c <= 'Z' {
        Some(((c as u32) - 65) as nat)
    } else if 'a' <= c && c <= 'z' {
        Some(((c as u32) - 97 + 26) as nat)
    } else if '0' <= c && c <= '9' {
        Some(((c as u32) - 48 + 52) as nat)
    } else if c == '+' {
        Some(62)
    } else if c == '/' {
        Some(63)
    } else {
        None
    }
}

/// The four characters for one input chunk of 1 to 3 bytes; missing bytes
/// count as zero and their positions are written as `=`.
pub open spec fn encode_chunk(c: Seq<u8>) -> Seq<char> {
    let b0 = c[0] as nat;
    let b1 = if c.len() > 1 { c[1] as nat } else { 0 };
    let b2 = if c.len() > 2 { c[2] as nat } else { 0 };
    seq![
        b64_char(b0 / 4),
        b64_char((b0 % 4) * 16 + b1 / 16),
        if c.len() > 1 { b64_char((b1 % 16) * 4 + b2 / 64) } else { '=' },
        if c.len() > 2 { b64_char(b2 % 64) } else { '=' },
    ]
}

/// Base64 encoding: each chunk of three bytes becomes four characters.
pub open spec fn base64_encode_spec(b: Seq<u8>) -> Seq<char>
    decreases b.len(),
{
    if b.len() == 0 {
        Seq::empty()
    } else if b.len() <= 3 {
        encode_chunk(b)
    } else {
        encode_chunk(b.subrange(0, 3)) + base64_encode_spec(b.subrange(3, b.len() as int))
    }
}

/// Decoder state: bytes produced, pending bits (as a number) and their count.
pub ghost struct DecodeState {
    pub out: Seq<u8>,
    pub buf: nat,
    pub bits: nat,
}

pub open spec fn pow_bits(k: nat) -> nat {
    if k == 0 {
        1
    } else if k == 2 {
        4
    } else if k == 4 {
        16
    } else {
        64
    }
}

/// One character of input: alphabet characters add six bits, and a byte is
/// emitted whenever eight or more bits are pending; other characters are skipped.
pub open spec fn decode_step(st: DecodeState, c: char) -> DecodeState {
    match b64_value(c) {
        None => st,
        Some(v) => {
            let buf = st.buf * 64 + v;
            let bits = st.bits + 6;
            if bits >= 8 {
                let k = (bits - 8) as nat;
                DecodeState {
                    out: st.out.push((buf / pow_bits(k)) as u8),
                    buf: buf % pow_bits(k),
                    bits: k,
                }
            } else {
                DecodeState { out: st.out, buf, bits }
            }
        },
    }
}

/// Runs the decoder over `s` from state `st`.
pub open spec fn decode_from(st: DecodeState, s: Seq<char>) -> DecodeState
    decreases s.len(),
{
    if s.len() == 0 {
        st
    } else {
        decode_from(decode_step(st, s[0]), s.subrange(1, s.len() as int))
    }
}

/// `s` without its trailing `=` characters (`trim_end_matches('=')`).
pub open spec fn strip_padding(s: Seq<char>) -> Seq<char>
    decreases s.len(),
{
    if s.len() > 0 && s[s.len() - 1] == '=' {
        strip_padding(s.subrange(0, s.len() - 1))
    } else {
        s
    }
}

pub open spec fn initial_state() -> DecodeState {
    DecodeState { out: Seq::empty(), buf: 0, bits: 0 }
}

/// Lenient Base64 decoding: trailing `=` removed, foreign characters skipped,
/// leftover bits dropped.
pub open spec fn base64_decode_spec(s: Seq<char>) -> Seq<u8> {
    decode_from(initial_state(), strip_padding(s)).out
}

pub open spec fn state_ok(st: DecodeState) -> bool {
    &&& (st.bits == 0 || st.bits == 2 || st.bits == 4 || st.bits == 6)
    &&& st.buf < pow_bits(st.bits)
}

// ---------------------------------------------------------------------------
// Encoding
// ---------------------------------------------------------------------------

fn alphabet_char(v: u8) -> (c: char)
    requires
        v < 64,
    ensures
        c == b64_char(v as nat),
{
    if v < 26 {
        (v + 65) as char
    } else if v < 52 {
        (v - 26 + 97) as char
    } else if v < 62 {
        (v - 52 + 48) as char
    } else if v == 62 {
        '+'
    } else {
        '/'
    }
}

/// Base64 text of `input`.
pub fn base64_encode(input: &[u8]) -> (r: String)
    ensures
        r@ == base64_encode_spec(input@),
{
    let mut s = String::new();
    let n = input.len();
    let mut i: usize = 0;
    assert(input@.subrange(0, n as int) =~= input@);
    assert(s@ + base64_encode_spec(input@) =~= base64_encode_spec(input@));
    while i < n
        invariant
            n == input@.len(),
            i <= n,
            base64_encode_spec(input@) == s@ + base64_encode_spec(
                input@.subrange(i as int, n as int),
            ),
        decreases n - i,
    {
        let rest = n - i;
        let b0 = input[i];
        let b1: u8 = if rest > 1 {
            input[i + 1]
        } else {
            0
        };
        let b2: u8 = if rest > 2 {
            input[i + 2]
        } else {
            0
        };
        let ghost chunk = if rest <= 3 {
            input@.subrange(i as int, n as int)
        } else {
            input@.subrange(i as int, i + 3)
        };
        let ghost old_s = s@;
        push_char(&mut s, alphabet_char(b0 / 4));
        push_char(&mut s, alphabet_char((b0 % 4) * 16 + b1 / 16));
        if rest > 1 {
            push_char(&mut s, alphabet_char((b1 % 16) * 4 + b2 / 64));
        } else {
            push_char(&mut s, '=');
        }
        if rest > 2 {
            push_char(&mut s, alphabet_char(b2 % 64));
        } else {
            push_char(&mut s, '=');
        }
        assert(s@ =~= old_s + encode_chunk(chunk));
        if rest <= 3 {
            assert(input@.subrange(n as int, n as int) =~= Seq::<u8>::empty());
            i = n;
        } else {
            assert(input@.subrange(i as int, n as int).subrange(0, 3) =~= chunk);
            assert(input@.subrange(i as int, n as int).subrange(3, (n - i) as int) =~= input@.subrange(
                i + 3,
                n as int,
            ));
            i = i + 3;
        }
    }
    assert(input@.subrange(n as int, n as int) =~= Seq::<u8>::empty());
    s
}

// ---------------------------------------------------------------------------
// Decoding
// ---------------------------------------------------------------------------

fn alphabet_value(c: char) -> (r: Option<u8>)
    ensures
        match r {
            Some(v) => b64_value(c) == Some(v as nat) && v < 64,
            None => b64_value(c) is None,
        },
{
    if 'A' <= c && c <= 'Z' {
        Some(((c as u32) - 65) as u8)
    } else if 'a' <= c && c <= 'z' {
        Some(((c as u32) - 97 + 26) as u8)
    } else if '0' <= c && c <= '9' {
        Some(((c as u32) - 48 + 52) as u8)
    } else if c == '+' {
        Some(62)
    } else if c == '/' {
        Some(63)
    } else {
        None
    }
}

fn pow_of(k: u32) -> (r: u32)
    ensures
        r == pow_bits(k as nat),
{
    if k == 0 {
        1
    } else if k == 2 {
        4
    } else if k == 4 {
        16
    } else {
        64
    }
}

/// Running the decoder over `a + b` is running it over `a`, then over `b`.
pub proof fn lemma_decode_from_concat(st: DecodeState, a: Seq<char>, b: Seq<char>)
    ensures
        decode_from(st, a + b) == decode_from(decode_from(st, a), b),
    decreases a.len(),
{
    if a.len() == 0 {
        assert(a + b =~= b);
    } else {
        assert((a + b).subrange(1, (a + b).len() as int) =~= a.subrange(1, a.len() as int) + b);
        lemma_decode_from_concat(decode_step(st, a[0]), a.subrange(1, a.len() as int), b);
    }
}

proof fn lemma_decode_step_ok(st: DecodeState, c: char)
    requires
        state_ok(st),
    ensures
        state_ok(decode_step(st, c)),
        decode_step(st, c).out.len() <= st.out.len() + 1,
{
    match b64_value(c) {
        None => {},
        Some(v) => {
            assert(v < 64);
            let buf = st.buf * 64 + v;
            assert(buf < pow_bits(st.bits) * 64) by (nonlinear_arith)
                requires
                    st.buf < pow_bits(st.bits),
                    v < 64,
                    buf == st.buf * 64 + v,
            ;
        },
    }
}

/// Lenient Base64 decoding (`=` padding ignored, foreign characters skipped).
pub fn base64_decode(input: &str) -> (r: Vec<u8>)
    ensures
        r@ == base64_decode_spec(input@),
{
    let v = crate::text::chars_of(input);
    let mut end = v.len();
    assert(input@.subrange(0, end as int) =~= input@);
    while end > 0 && v[end - 1] == '='
        invariant
            v@ == input@,
            end <= v.len(),
            strip_padding(input@) == strip_padding(input@.subrange(0, end as int)),
        decreases end,
    {
        assert(input@.subrange(0, end as int).subrange(0, end - 1) =~= input@.subrange(
            0,
            end - 1,
        ));
        end -= 1;
    }
    let ghost clean = input@.subrange(0, end as int);
    assert(strip_padding(input@) == clean);
    let mut out: Vec<u8> = Vec::new();
    let mut buf: u32 = 0;
    let mut bits: u32 = 0;
    let mut i: usize = 0;
    assert(clean.subrange(0, 0) =~= Seq::<char>::empty());
    while i < end
        invariant
            v@ == input@,
            end <= v.len(),
            clean == input@.subrange(0, end as int),
            i <= end,
            decode_from(initial_state(), clean.subrange(0, i as int)) == (DecodeState {
                out: out@,
                buf: buf as nat,
                bits: bits as nat,
            }),
            state_ok(DecodeState { out: out@, buf: buf as nat, bits: bits as nat }),
        decreases end - i,
    {
        let c = v[i];
        let ghost st = DecodeState { out: out@, buf: buf as nat, bits: bits as nat };
        proof {
            lemma_decode_from_concat(initial_state(), clean.subrange(0, i as int), seq![c]);
            assert(clean.subrange(0, i as int) + seq![c] =~= clean.subrange(0, i + 1));
            assert(decode_from(st, seq![c]) == decode_step(st, c)) by {
                assert(seq![c].subrange(1, 1) =~= Seq::<char>::empty());
                reveal_with_fuel(decode_from, 2);
            }
            lemma_decode_step_ok(st, c);
        }
        match alphabet_value(c) {
            None => {},
            Some(val) => {
                assert(buf * 64 + val < 4096) by (nonlinear_arith)
                    requires
                        buf < 64,
                        val < 64,
                ;
                buf = buf * 64 + (val as u32);
                bits = bits + 6;
                if bits >= 8 {
                    bits = bits - 8;
                    let p = pow_of(bits);
                    let byte = buf / p;
                    assert(byte < 256) by (nonlinear_arith)
                        requires
                            buf < p * 256,
                            p > 0,
                            byte == buf / p,
                    ;
                    out.push(byte as u8);
                    buf = buf % p;
                }
            },
        }
        i += 1;
    }
    assert(clean.subrange(0, end as int) =~= clean);
    out
}

// ---------------------------------------------------------------------------
// Decoding what was encoded
// ---------------------------------------------------------------------------

/// The encoding of `b` without its padding characters.
pub open spec fn encode_unpadded(b: Seq<u8>) -> Seq<char>
    decreases b.len(),
{
    if b.len() == 0 {
        Seq::empty()
    } else if b.len() == 1 {
        encode_chunk(b).subrange(0, 2)
    } else if b.len() == 2 {
        encode_chunk(b).subrange(0, 3)
    } else if b.len() == 3 {
        encode_chunk(b)
    } else {
        encode_chunk(b.subrange(0, 3)) + encode_unpadded(b.subrange(3, b.len() as int))
    }
}

proof fn lemma_b64_char_value(v: nat)
    requires
        v < 64,
    ensures
        b64_value(b64_char(v)) == Some(v),
        b64_char(v) != '=',
{
    if v < 26 {
        assert((((v + 65) as u32) as char) as u32 == (v + 65) as u32);
    } else if v < 52 {
        assert((((v - 26 + 97) as u32) as char) as u32 == (v - 26 + 97) as u32);
    } else if v < 62 {
        assert((((v - 52 + 48) as u32) as char) as u32 == (v - 52 + 48) as u32);
    }
}

proof fn lemma_strip_padding_concat(a: Seq<char>, e: Seq<char>)
    requires
        strip_padding(e).len() > 0,
    ensures
        strip_padding(a + e) == a + strip_padding(e),
    decreases e.len(),
{
    if e.len() > 0 && e[e.len() - 1] == '=' {
        let e2 = e.subrange(0, e.len() - 1);
        assert((a + e).subrange(0, (a + e).len() - 1) =~= a + e2);
        lemma_strip_padding_concat(a, e2);
    }
}

proof fn lemma_strip_encode(b: Seq<u8>)
    ensures
        strip_padding(base64_encode_spec(b)) == encode_unpadded(b),
        b.len() > 0 ==> encode_unpadded(b).len() > 0 && encode_unpadded(b)[encode_unpadded(b).len() - 1] != '=',
    decreases b.len(),
{
    if b.len() == 0 {
    } else if b.len() <= 3 {
        let c = encode_chunk(b);
        let b0 = b[0] as nat;
        let b1 = if b.len() > 1 { b[1] as nat } else { 0 };
        let b2 = if b.len() > 2 { b[2] as nat } else { 0 };
        lemma_b64_char_value(b0 / 4);
        lemma_b64_char_value((b0 % 4) * 16 + b1 / 16);
        lemma_b64_char_value((b1 % 16) * 4 + b2 / 64);
        lemma_b64_char_value(b2 % 64);
        reveal_with_fuel(strip_padding, 3);
        if b.len() == 1 {
            assert(c.subrange(0, 3).subrange(0, 2) =~= c.subrange(0, 2));
            assert(c.subrange(0, 4).subrange(0, 3) =~= c.subrange(0, 3));
            assert(c.subrange(0, 4) =~= c);
        } else if b.len() == 2 {
            assert(c.subrange(0, 4).subrange(0, 3) =~= c.subrange(0, 3));
            assert(c.subrange(0, 4) =~= c);
        }
    } else {
        let rest = b.subrange(3, b.len() as int);
        lemma_strip_encode(rest);
        lemma_strip_padding_concat(encode_chunk(b.subrange(0, 3)), base64_encode_spec(rest));
    }
}

proof fn lemma_decode_chunk(out: Seq<u8>, b: Seq<u8>)
    requires
        1 <= b.len() <= 3,
    ensures
        decode_from(DecodeState { out, buf: 0, bits: 0 }, encode_unpadded(b)).out == out + b,
        b.len() == 3 ==> decode_from(DecodeState { out, buf: 0, bits: 0 }, encode_unpadded(b))
            == (DecodeState { out: out + b, buf: 0, bits: 0 }),
{
    let b0 = b[0] as nat;
    let b1 = if b.len() > 1 { b[1] as nat } else { 0 };
    let b2 = if b.len() > 2 { b[2] as nat } else { 0 };
    let s0 = b0 / 4;
    let s1 = (b0 % 4) * 16 + b1 / 16;
    let s2 = (b1 % 16) * 4 + b2 / 64;
    let s3 = b2 % 64;
    lemma_b64_char_value(s0);
    lemma_b64_char_value(s1);
    lemma_b64_char_value(s2);
    lemma_b64_char_value(s3);
    let e = encode_unpadded(b);
    let st0 = DecodeState { out, buf: 0, bits: 0 };
    let st1 = decode_step(st0, b64_char(s0));
    assert(st1 == DecodeState { out, buf: s0, bits: 6 });
    let st2 = decode_step(st1, b64_char(s1));
    assert((s0 * 64 + s1) / 16 == b0 && (s0 * 64 + s1) % 16 == b1 / 16) by (nonlinear_arith)
        requires
            s0 == b0 / 4,
            s1 == (b0 % 4) * 16 + b1 / 16,
            b0 < 256,
            b1 < 256,
    ;
    assert(st2 == DecodeState { out: out.push(b0 as u8), buf: b1 / 16, bits: 4 });
    let st3 = decode_step(st2, b64_char(s2));
    assert(((b1 / 16) * 64 + s2) / 4 == b1 && ((b1 / 16) * 64 + s2) % 4 == b2 / 64) by (
    nonlinear_arith)
        requires
            s2 == (b1 % 16) * 4 + b2 / 64,
            b1 < 256,
            b2 < 256,
    ;
    assert(st3 == DecodeState {
        out: out.push(b0 as u8).push(b1 as u8),
        buf: b2 / 64,
        bits: 2,
    });
    let st4 = decode_step(st3, b64_char(s3));
    assert((b2 / 64) * 64 + s3 == b2) by (nonlinear_arith)
        requires
            s3 == b2 % 64,
    ;
    assert(st4 == DecodeState {
        out: out.push(b0 as u8).push(b1 as u8).push(b2 as u8),
        buf: 0,
        bits: 0,
    });
    if b.len() == 1 {
        assert(e =~= seq![b64_char(s0), b64_char(s1)]);
        reveal_with_fuel(decode_from, 3);
        assert(out + b =~= out.push(b0 as u8));
    } else if b.len() == 2 {
        assert(e =~= seq![b64_char(s0), b64_char(s1), b64_char(s2)]);
        reveal_with_fuel(decode_from, 4);
        assert(out + b =~= out.push(b0 as u8).push(b1 as u8));
    } else {
        assert(e =~= seq![b64_char(s0), b64_char(s1), b64_char(s2), b64_char(s3)]);
        reveal_with_fuel(decode_from, 5);
        assert(out + b =~= out.push(b0 as u8).push(b1 as u8).push(b2 as u8));
    }
}

proof fn lemma_decode_unpadded(out: Seq<u8>, b: Seq<u8>)
    ensures
        decode_from(DecodeState { out, buf: 0, bits: 0 }, encode_unpadded(b)).out == out + b,
    decreases b.len(),
{
    if b.len() == 0 {
        assert(out + b =~= out);
    } else if b.len() <= 3 {
        lemma_decode_chunk(out, b);
    } else {
        let first = b.subrange(0, 3);
        let rest = b.subrange(3, b.len() as int);
        assert(encode_unpadded(first) == encode_chunk(first));
        lemma_decode_from_concat(
            DecodeState { out, buf: 0, bits: 0 },
            encode_chunk(first),
            encode_unpadded(rest),
        );
        lemma_decode_chunk(out, first);
        lemma_decode_unpadded(out + first, rest);
        assert(out + first + rest =~= out + b);
    }
}

/// Decoding the Base64 text of any byte string gives that byte string back.
pub proof fn lemma_base64_roundtrip(b: Seq<u8>)
    ensures
        base64_decode_spec(base64_encode_spec(b)) == b,
{
    lemma_strip_encode(b);
    lemma_decode_unpadded(Seq::empty(), b);
    assert(Seq::<u8>::empty() + b =~= b);
}

/// The Base64 text of `n` bytes has `4 * ceil(n / 3)` characters.
pub proof fn lemma_base64_encode_len(b: Seq<u8>)
    ensures
        base64_encode_spec(b).len() == 4 * ((b.len() + 2) / 3),
    decreases b.len(),
{
    if b.len() > 3 {
        let rest = b.subrange(3, b.len() as int);
        lemma_base64_encode_len(rest);
        assert((rest.len() + 2) / 3 + 1 == (b.len() + 2) / 3);
    }
}

} // verus!
