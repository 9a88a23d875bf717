//! The text of PostgreSQL `NUMERIC` values from their binary form.
use vstd::prelude::*;

use crate::text::{append, decimal, digit, digit_char, push_char, push_decimal};

verus! {

/// The big-endian unsigned 16-bit number at `i`.
pub open spec fn be16(b: Seq<u8>, i: int) -> int {
    b[i] * 256 + b[i + 1]
}

/// A 16-bit pattern read as a signed number.
pub open spec fn as_i16(u: int) -> int {
    if u >= 32768 {
        u - 65536
    } else {
        u
    }
}

pub open spec fn num_ndigits(b: Seq<u8>) -> int {
    as_i16(be16(b, 0))
}

pub open spec fn num_weight(b: Seq<u8>) -> int {
    as_i16(be16(b, 2))
}

pub open spec fn num_sign(b: Seq<u8>) -> int {
    be16(b, 4)
}

pub open spec fn num_dscale(b: Seq<u8>) -> int {
    be16(b, 6)
}

/// The base-10000 digit at position `k` (counting from the most significant);
/// zero outside the stored digits.
pub open spec fn num_group(b: Seq<u8>, k: int) -> int {
    if 0 <= k < num_ndigits(b) {
        be16(b, 8 + 2 * k)
    } else {
        0
    }
}

pub open spec fn sign_ok(s: int) -> bool {
    s == 0 || s == 0x4000 || s == 0xC000 || s == 0xD000 || s == 0xF000
}

/// The wire form: `ndigits`, `weight`, `sign`, `dscale`, then `ndigits`
/// base-10000 digits, each below 10000.
pub open spec fn numeric_wf(b: Seq<u8>) -> bool {
    &&& b.len() >= 8
    &&& num_ndigits(b) >= 0
    &&& b.len() == 8 + 2 * num_ndigits(b)
    &&& sign_ok(num_sign(b))
    &&& forall|k: int| 0 <= k < num_ndigits(b) ==> #[trigger] num_group(b, k) < 10000
}

/// A base-10000 digit as four decimal digits.
pub open spec fn pad4(n: int) -> Seq<char> {
    seq![
        digit_char(((n / 1000) % 10) as nat),
        digit_char(((n / 100) % 10) as nat),
        digit_char(((n / 10) % 10) as nat),
        digit_char((n % 10) as nat),
    ]
}

/// The digits at positions `lo..hi`, four decimal digits each.
pub open spec fn groups_text(b: Seq<u8>, lo: int, hi: int) -> Seq<char>
    decreases hi - lo,
{
    if lo >= hi {
        Seq::empty()
    } else {
        groups_text(b, lo, hi - 1) + pad4(num_group(b, hi - 1))
    }
}

/// The integer part: `0` for a value below one, otherwise the leading digit
/// without leading zeros and the rest four decimal digits each.
pub open spec fn int_text(b: Seq<u8>) -> Seq<char> {
    if num_weight(b) < 0 {
        seq!['0']
    } else {
        decimal(num_group(b, 0) as nat) + groups_text(b, 1, num_weight(b) + 1)
    }
}

/// The fraction: none for scale 0, else `.` and exactly `dscale` digits.
pub open spec fn frac_text(b: Seq<u8>) -> Seq<char> {
    if num_dscale(b) == 0 {
        Seq::empty()
    } else {
        seq!['.'] + groups_text(b, num_weight(b) + 1, num_weight(b) + 1 + (num_dscale(b) + 3) / 4).take(
            num_dscale(b),
        )
    }
}

/// The text PostgreSQL writes for a `NUMERIC` in binary form, or `None` for
/// bytes that are not such a value.
pub open spec fn numeric_text(b: Seq<u8>) -> Option<Seq<char>> {
    if !numeric_wf(b) {
        None
    } else if num_sign(b) == 0xC000 {
        Some("NaN"@)
    } else if num_sign(b) == 0xD000 {
        Some("Infinity"@)
    } else if num_sign(b) == 0xF000 {
        Some("-Infinity"@)
    } else if num_sign(b) == 0x4000 {
        Some(seq!['-'] + int_text(b) + frac_text(b))
    } else {
        Some(int_text(b) + frac_text(b))
    }
}

fn read_be16(b: &Vec<u8>, i: usize) -> (r: u16)
    requires
        i < b.len(),
        i + 1 < b.len(),
    ensures
        r == be16(b@, i as int),
{
    let hi = b[i] as u16;
    let lo = b[i + 1] as u16;
    hi * 256 + lo
}

fn signed(u: u16) -> (r: i32)
    ensures
        r == as_i16(u as int),
{
    if u >= 32768 {
        (u as i32) - 65536
    } else {
        u as i32
    }
}

fn group_at(b: &Vec<u8>, ndigits: i32, k: i64) -> (r: u16)
    requires
        numeric_wf(b@),
        ndigits == num_ndigits(b@),
    ensures
        r == num_group(b@, k as int),
        r < 10000,
{
    if 0 <= k && k < ndigits as i64 {
        let i = 8 + 2 * (k as usize);
        let r = read_be16(b, i);
        assert(num_group(b@, k as int) < 10000);
        r
    } else {
        0
    }
}

fn push_pad4(s: &mut String, n: u16)
    requires
        n < 10000,
    ensures
        final(s)@ == old(s)@ + pad4(n as int),
{
    push_char(s, digit(((n / 1000) % 10) as u8));
    push_char(s, digit(((n / 100) % 10) as u8));
    push_char(s, digit(((n / 10) % 10) as u8));
    push_char(s, digit((n % 10) as u8));
    assert(final(s)@ =~= old(s)@ + pad4(n as int)) by {
        assert(s@ =~= old(s)@ + pad4(n as int));
    }
}

/// Appends the digits at positions `lo..hi`.
fn push_groups(s: &mut String, b: &Vec<u8>, ndigits: i32, lo: i64, hi: i64)
    requires
        numeric_wf(b@),
        ndigits == num_ndigits(b@),
    ensures
        final(s)@ == old(s)@ + groups_text(b@, lo as int, hi as int),
{
    let mut k = lo;
    if k >= hi {
        assert(groups_text(b@, lo as int, hi as int) =~= Seq::<char>::empty());
        assert(s@ =~= old(s)@ + groups_text(b@, lo as int, hi as int));
        return;
    }
    assert(groups_text(b@, lo as int, lo as int) =~= Seq::<char>::empty());
    assert(s@ =~= old(s)@ + groups_text(b@, lo as int, lo as int));
    while k < hi
        invariant
            lo <= k <= hi,
            numeric_wf(b@),
            ndigits == num_ndigits(b@),
            s@ == old(s)@ + groups_text(b@, lo as int, k as int),
        decreases hi - k,
    {
        let g = group_at(b, ndigits, k);
        push_pad4(s, g);
        k += 1;
        assert(s@ =~= old(s)@ + groups_text(b@, lo as int, k as int));
    }
}

/// The text of a `NUMERIC` value in PostgreSQL's binary form.
pub fn numeric_to_text(b: &Vec<u8>) -> (r: Option<String>)
    ensures
        match r {
            Some(t) => numeric_text(b@) == Some(t@),
            None => numeric_text(b@) is None,
        },
{
    proof {
        reveal_strlit("NaN");
        reveal_strlit("Infinity");
        reveal_strlit("-Infinity");
    }
    if b.len() < 8 {
        return None;
    }
    let ndigits = signed(read_be16(b, 0));
    let weight = signed(read_be16(b, 2));
    let sign = read_be16(b, 4);
    let dscale = read_be16(b, 6);
    if ndigits < 0 || b.len() != 8 + 2 * (ndigits as usize) {
        return None;
    }
    if !(sign == 0 || sign == 0x4000 || sign == 0xC000 || sign == 0xD000 || sign == 0xF000) {
        return None;
    }
    let mut k: i32 = 0;
    while k < ndigits
        invariant
            0 <= k <= ndigits,
            ndigits == num_ndigits(b@),
            b@.len() == 8 + 2 * num_ndigits(b@),
            forall|j: int| 0 <= j < k ==> #[trigger] num_group(b@, j) < 10000,
        decreases ndigits - k,
    {
        let g = read_be16(b, 8 + 2 * (k as usize));
        if g >= 10000 {
            assert(num_group(b@, k as int) == g);
            return None;
        }
        k += 1;
    }
    assert(numeric_wf(b@));
    if sign == 0xC000 {
        return Some(String::from_str("NaN"));
    }
    if sign == 0xD000 {
        return Some(String::from_str("Infinity"));
    }
    if sign == 0xF000 {
        return Some(String::from_str("-Infinity"));
    }
    let mut s = String::new();
    if sign == 0x4000 {
        push_char(&mut s, '-');
    }
    let ghost prefix = s@;
    if weight < 0 {
        push_char(&mut s, '0');
        assert(s@ =~= prefix + int_text(b@));
    } else {
        let first = group_at(b, ndigits, 0);
        push_decimal(&mut s, first as u128);
        push_groups(&mut s, b, ndigits, 1, (weight as i64) + 1);
        assert(s@ =~= prefix + int_text(b@));
    }
    if dscale > 0 {
        let ghost before = s@;
        let mut f = String::new();
        let count: i64 = ((dscale as i64) + 3) / 4;
        push_groups(&mut f, b, ndigits, (weight as i64) + 1, (weight as i64) + 1 + count);
        let fv = crate::text::chars_of(f.as_str());
        proof {
            assert(fv@.len() == 4 * count) by {
                lemma_groups_len(b@, (weight as i64) + 1, (weight as i64) + 1 + count);
            }
        }
        let frac = crate::text::string_from_range(&fv, 0, dscale as usize);
        push_char(&mut s, '.');
        append(&mut s, frac.as_str());
        assert(fv@.subrange(0, dscale as int) =~= f@.take(dscale as int));
        assert(s@ =~= before + frac_text(b@));
    }
    Some(s)
}

proof fn lemma_groups_len(b: Seq<u8>, lo: int, hi: int)
    requires
        lo <= hi,
    ensures
        groups_text(b, lo, hi).len() == 4 * (hi - lo),
    decreases hi - lo,
{
    if lo < hi {
        lemma_groups_len(b, lo, hi - 1);
    }
}

} // verus!
