//! Byte-level text building blocks: decimal rendering of integers and JSON
//! string escaping, each as a spec function with a verified executable twin.

use vstd::prelude::*;

verus! {

/// Double quote.
pub const QUOTE: u8 = 0x22;

/// Backslash.
pub const BACKSLASH: u8 = 0x5c;

/// The decimal digits of `n`, most significant first, as ASCII bytes.
pub open spec fn dec_digits(n: nat) -> Seq<u8>
    decreases n,
{
    if n < 10 {
        seq![(0x30 + n) as u8]
    } else {
        dec_digits(n / 10) + seq![(0x30 + n % 10) as u8]
    }
}

/// The decimal rendering of a possibly negative integer: a leading `-` for
/// negative values, then the digits of the magnitude.
pub open spec fn int_digits(i: int) -> Seq<u8> {
    if i >= 0 {
        dec_digits(i as nat)
    } else {
        seq![0x2du8] + dec_digits((-i) as nat)
    }
}

/// Appends the slice `s` to `out`.
pub fn put(out: &mut Vec<u8>, s: &[u8])
    ensures
        final(out)@ == old(out)@ + s@,
{
    let mut i: usize = 0;
    while i < s.len()
        invariant
            i <= s.len(),
            out@ == old(out)@ + s@.take(i as int),
        decreases s.len() - i,
    {
        out.push(s[i]);
        proof {
            assert(s@.take(i + 1) =~= s@.take(i as int).push(s@[i as int]));
        }
        i = i + 1;
    }
    proof {
        assert(s@.take(s@.len() as int) =~= s@);
    }
}

/// Appends the decimal digits of `n` to `out`.
pub fn put_u32_dec(out: &mut Vec<u8>, n: u32)
    ensures
        final(out)@ == old(out)@ + dec_digits(n as nat),
    decreases n,
{
    if n < 10 {
        out.push(0x30 + n as u8);
    } else {
        put_u32_dec(out, n / 10);
        out.push(0x30 + (n % 10) as u8);
        proof {
            assert(old(out)@ + dec_digits((n / 10) as nat) + seq![(0x30 + n as nat % 10) as u8]
                =~= old(out)@ + dec_digits(n as nat));
        }
    }
}

/// Appends the decimal rendering of `i`, with a `-` sign when negative.
pub fn put_i32_dec(out: &mut Vec<u8>, i: i32)
    ensures
        final(out)@ == old(out)@ + int_digits(i as int),
{
    if i >= 0 {
        put_u32_dec(out, i as u32);
    } else {
        out.push(0x2d);
        let m: u32 = (-(i as i64)) as u32;
        put_u32_dec(out, m);
        proof {
            assert(old(out)@ + seq![0x2du8] + dec_digits(m as nat)
                =~= old(out)@ + int_digits(i as int));
        }
    }
}

/// The lower-case hex digit for `n`, which must be below 16.
pub open spec fn hex_digit(n: u8) -> u8 {
    if n < 10 {
        (0x30 + n) as u8
    } else {
        (0x57 + n) as u8
    }
}

/// How one byte of a string is written inside a JSON string literal: quotes
/// and backslashes get a backslash escape, control bytes a `\u00xx` escape,
/// everything else (multi-byte UTF-8 sequences included) passes unchanged.
pub open spec fn esc_byte(b: u8) -> Seq<u8> {
    if b == QUOTE {
        seq![BACKSLASH, QUOTE]
    } else if b == BACKSLASH {
        seq![BACKSLASH, BACKSLASH]
    } else if b < 0x20 {
        seq![BACKSLASH, 0x75u8, 0x30u8, 0x30u8, hex_digit(b / 16), hex_digit(b % 16)]
    } else {
        seq![b]
    }
}

/// The JSON escaping of a whole string, byte by byte.
pub open spec fn esc_bytes(s: Seq<u8>) -> Seq<u8>
    decreases s.len(),
{
    if s.len() == 0 {
        seq![]
    } else {
        esc_byte(s[0]) + esc_bytes(s.drop_first())
    }
}

/// A JSON string literal: the escaped content between double quotes.
pub open spec fn json_string(s: Seq<u8>) -> Seq<u8> {
    seq![QUOTE] + esc_bytes(s) + seq![QUOTE]
}

/// Escaping distributes over appending one byte at the end.
pub proof fn lemma_esc_bytes_push(t: Seq<u8>, x: u8)
    ensures
        esc_bytes(t.push(x)) == esc_bytes(t) + esc_byte(x),
    decreases t.len(),
{
    if t.len() == 0 {
        assert(t.push(x)[0] == x);
        assert(t.push(x).drop_first() =~= seq![]);
        assert(esc_bytes(t.push(x)) == esc_byte(x) + esc_bytes(seq![]));
        assert(esc_byte(x) + esc_bytes(seq![]) =~= esc_bytes(t) + esc_byte(x));
    } else {
        assert(t.push(x).drop_first() =~= t.drop_first().push(x));
        lemma_esc_bytes_push(t.drop_first(), x);
        assert(esc_bytes(t.push(x)) =~= esc_bytes(t) + esc_byte(x));
    }
}

/// Appends `s` as a JSON string literal (quotes and escaping included).
pub fn put_json_string(out: &mut Vec<u8>, s: &[u8])
    ensures
        final(out)@ == old(out)@ + json_string(s@),
{
    out.push(QUOTE);
    let snap0 = Ghost(out@);
    proof {
        assert(snap0@ =~= old(out)@ + seq![QUOTE]);
    }
    let mut i: usize = 0;
    while i < s.len()
        invariant
            i <= s.len(),
            snap0@ == old(out)@ + seq![QUOTE],
            out@ == snap0@ + esc_bytes(s@.take(i as int)),
        decreases s.len() - i,
    {
        let b = s[i];
        if b == QUOTE {
            out.push(BACKSLASH);
            out.push(QUOTE);
        } else if b == BACKSLASH {
            out.push(BACKSLASH);
            out.push(BACKSLASH);
        } else if b < 0x20 {
            out.push(BACKSLASH);
            out.push(0x75);
            out.push(0x30);
            out.push(0x30);
            let hi = b / 16;
            let lo = b % 16;
            out.push(if hi < 10 { 0x30 + hi } else { 0x57 + hi });
            out.push(if lo < 10 { 0x30 + lo } else { 0x57 + lo });
        } else {
            out.push(b);
        }
        proof {
            assert(s@.take(i + 1) =~= s@.take(i as int).push(s@[i as int]));
            lemma_esc_bytes_push(s@.take(i as int), s@[i as int]);
            assert(out@ =~= snap0@ + esc_bytes(s@.take(i + 1)));
        }
        i = i + 1;
    }
    out.push(QUOTE);
    proof {
        assert(s@.take(s@.len() as int) =~= s@);
        assert(out@ =~= old(out)@ + json_string(s@));
    }
}

} // verus!
