//! Byte-level output helpers: every PDF token the library emits is appended
//! to a byte vector, and each helper's contract states the exact bytes added.
use vstd::prelude::*;
use vstd::string::StrSliceExecFns;
use vstd::string::StringSliceAdditionalSpecFns;

verus! {

broadcast use vstd::string::group_string_axioms;

/// The bytes of a string slice (UTF-8); for the ASCII literals used
/// throughout the emitter this is one byte per character.
pub open spec fn lit_bytes(s: &str) -> Seq<u8> {
    s.spec_bytes()
}

/// The UTF-8 bytes of a character sequence, for `String` values.
pub open spec fn str_bytes(s: Seq<char>) -> Seq<u8> {
    vstd::utf8::encode_utf8(s)
}

/// Facts about an ASCII literal, usable after `reveal_strlit`.
pub proof fn lit_bytes_ascii(s: &str)
    requires
        vstd::utf8::is_ascii_chars(s@),
    ensures
        lit_bytes(s).len() == s@.len(),
        forall|i: int| 0 <= i < s@.len() ==> lit_bytes(s)[i] == s@[i] as u8,
{
    vstd::string::is_ascii_spec_bytes(s);
}

/// Truncating (round toward zero) division, as Rust's `/` behaves.
pub open spec fn tdiv(a: int, b: int) -> int {
    if a >= 0 {
        a / b
    } else {
        -((-a) / b)
    }
}

/// The decimal digits of `n`, most significant first.
pub open spec fn dec_bytes(n: nat) -> Seq<u8>
    decreases n,
{
    if n < 10 {
        seq![(48 + n) as u8]
    } else {
        dec_bytes(n / 10).push((48 + n % 10) as u8)
    }
}

/// Decimal digits with a leading minus sign for negative values.
pub open spec fn sdec_bytes(n: int) -> Seq<u8> {
    if n < 0 {
        seq![45u8] + dec_bytes((-n) as nat)
    } else {
        dec_bytes(n as nat)
    }
}

/// `n` in decimal, left-padded with zeros to at least ten digits.
pub open spec fn pad10_bytes(n: nat) -> Seq<u8> {
    if dec_bytes(n).len() >= 10 {
        dec_bytes(n)
    } else {
        Seq::new((10 - dec_bytes(n).len()) as nat, |i: int| 48u8) + dec_bytes(n)
    }
}

/// The last `w` decimal digits of `f` with trailing zeros removed;
/// empty when they are all zero.
pub open spec fn frac_bytes(f: nat, w: nat) -> Seq<u8>
    decreases w,
{
    if w == 0 {
        Seq::<u8>::empty()
    } else if f % 10 == 0 {
        frac_bytes(f / 10, (w - 1) as nat)
    } else {
        fixed_bytes(f, w)
    }
}

/// The last `w` decimal digits of `f`, zero-padded to exactly `w`.
pub open spec fn fixed_bytes(f: nat, w: nat) -> Seq<u8>
    decreases w,
{
    if w == 0 {
        Seq::<u8>::empty()
    } else {
        fixed_bytes(f / 10, (w - 1) as nat).push((48 + f % 10) as u8)
    }
}

/// A length in thousandths of a point, as a PDF numeric literal:
/// the integer part, then a point and up to three fraction digits
/// with trailing zeros removed.
pub open spec fn milli_bytes(m: int) -> Seq<u8> {
    let a = if m < 0 { (-m) as nat } else { m as nat };
    let sign: Seq<u8> = if m < 0 { seq![45u8] } else { Seq::<u8>::empty() };
    if a % 1000 == 0 {
        sign + dec_bytes(a / 1000)
    } else {
        sign + dec_bytes(a / 1000) + seq![46u8] + frac_bytes(a % 1000, 3)
    }
}

/// Truncating division of a wide intermediate, narrowed to `i64`.
pub fn tdiv_to_i64(a: i128, b: i128) -> (r: i64)
    requires
        b > 0,
        a != i128::MIN,
        i64::MIN <= tdiv(a as int, b as int) <= i64::MAX,
    ensures
        r == tdiv(a as int, b as int),
{
    let neg = a < 0;
    let mag: i128 = if neg {
        -a
    } else {
        a
    };
    let q: i128 = mag / b;
    if neg {
        (-q) as i64
    } else {
        q as i64
    }
}

/// Append the UTF-8 bytes of a string slice.
pub fn push_str(out: &mut Vec<u8>, s: &str)
    ensures
        final(out)@ == old(out)@ + lit_bytes(s),
{
    let mut bs = s.as_bytes_vec();
    out.append(&mut bs);
}

/// Append the UTF-8 bytes of an owned string.
pub fn push_string(out: &mut Vec<u8>, s: &String)
    ensures
        final(out)@ == old(out)@ + str_bytes(s@),
{
    push_str(out, s.as_str());
}

/// Append a copy of the given bytes.
pub fn push_bytes(out: &mut Vec<u8>, bs: &Vec<u8>)
    ensures
        final(out)@ == old(out)@ + bs@,
{
    let mut copy = bs.clone();
    out.append(&mut copy);
}

/// Append `n` in decimal.
pub fn push_dec_usize(out: &mut Vec<u8>, n: usize)
    ensures
        final(out)@ == old(out)@ + dec_bytes(n as nat),
    decreases n,
{
    if n >= 10 {
        push_dec_usize(out, n / 10);
    }
    out.push(48 + (n % 10) as u8);
    assert(final(out)@ =~= old(out)@ + dec_bytes(n as nat));
}

/// Append `n` in decimal.
pub fn push_dec_u64(out: &mut Vec<u8>, n: u64)
    ensures
        final(out)@ == old(out)@ + dec_bytes(n as nat),
    decreases n,
{
    if n >= 10 {
        push_dec_u64(out, n / 10);
    }
    out.push(48 + (n % 10) as u8);
    assert(final(out)@ =~= old(out)@ + dec_bytes(n as nat));
}

/// Append `n` in decimal with a sign when negative.
pub fn push_dec_i64(out: &mut Vec<u8>, n: i64)
    ensures
        final(out)@ == old(out)@ + sdec_bytes(n as int),
{
    if n < 0 {
        out.push(45);
        let m: u64 = if n == i64::MIN {
            9223372036854775808u64
        } else {
            (-n) as u64
        };
        assert(m == -(n as int));
        push_dec_u64(out, m);
        assert(final(out)@ =~= old(out)@ + sdec_bytes(n as int));
    } else {
        push_dec_u64(out, n as u64);
    }
}

/// Append `n` in decimal, for intermediate values wider than a
/// machine word.
pub fn push_dec_u128(out: &mut Vec<u8>, n: u128)
    ensures
        final(out)@ == old(out)@ + dec_bytes(n as nat),
    decreases n,
{
    if n >= 10 {
        push_dec_u128(out, n / 10);
    }
    out.push(48 + (n % 10) as u8);
    assert(final(out)@ =~= old(out)@ + dec_bytes(n as nat));
}

/// `n` in decimal, left-padded with zeros to at least `w` digits.
pub open spec fn padded_bytes(n: nat, w: nat) -> Seq<u8> {
    if dec_bytes(n).len() >= w {
        dec_bytes(n)
    } else {
        Seq::new((w - dec_bytes(n).len()) as nat, |i: int| 48u8) + dec_bytes(n)
    }
}

/// Append `n` in decimal, zero-padded to at least `w` digits.
pub fn push_padded(out: &mut Vec<u8>, n: u64, w: usize)
    ensures
        final(out)@ == old(out)@ + padded_bytes(n as nat, w as nat),
{
    let mut tmp: Vec<u8> = Vec::new();
    push_dec_u64(&mut tmp, n);
    let d = tmp.len();
    if d < w {
        let mut k: usize = d;
        while k < w
            invariant
                d <= k <= w,
                d == dec_bytes(n as nat).len(),
                tmp@ == dec_bytes(n as nat),
                out@ == old(out)@ + Seq::new((k - d) as nat, |i: int| 48u8),
            decreases w - k,
        {
            out.push(48);
            assert(out@ =~= old(out)@ + Seq::new((k + 1 - d) as nat, |i: int| 48u8));
            k = k + 1;
        }
    }
    out.append(&mut tmp);
    assert(final(out)@ =~= old(out)@ + padded_bytes(n as nat, w as nat));
}

/// Append `n` in decimal, zero-padded to at least ten digits.
pub fn push_pad10(out: &mut Vec<u8>, n: usize)
    ensures
        final(out)@ == old(out)@ + pad10_bytes(n as nat),
{
    let mut tmp: Vec<u8> = Vec::new();
    push_dec_usize(&mut tmp, n);
    let w = tmp.len();
    if w < 10 {
        let mut k: usize = w;
        while k < 10
            invariant
                w <= k <= 10,
                w == dec_bytes(n as nat).len(),
                tmp@ == dec_bytes(n as nat),
                out@ == old(out)@ + Seq::new((k - w) as nat, |i: int| 48u8),
            decreases 10 - k,
        {
            out.push(48);
            assert(out@ =~= old(out)@ + Seq::new((k + 1 - w) as nat, |i: int| 48u8));
            k = k + 1;
        }
    }
    out.append(&mut tmp);
    assert(final(out)@ =~= old(out)@ + pad10_bytes(n as nat));
}

/// Append the last `w` digits of `f`, zero-padded to exactly `w`.
pub fn push_fixed(out: &mut Vec<u8>, f: u64, w: u64)
    requires
        w <= 10,
    ensures
        final(out)@ == old(out)@ + fixed_bytes(f as nat, w as nat),
    decreases w,
{
    if w > 0 {
        push_fixed(out, f / 10, w - 1);
        out.push(48 + (f % 10) as u8);
        assert(final(out)@ =~= old(out)@ + fixed_bytes(f as nat, w as nat));
    }
}

/// Append the last `w` digits of `f` with trailing zeros removed.
pub fn push_frac(out: &mut Vec<u8>, f: u64, w: u64)
    requires
        w <= 10,
    ensures
        final(out)@ == old(out)@ + frac_bytes(f as nat, w as nat),
    decreases w,
{
    if w == 0 {
    } else if f % 10 == 0 {
        push_frac(out, f / 10, w - 1);
    } else {
        push_fixed(out, f, w);
    }
}

/// Append a milli-point value as a PDF numeric literal.
pub fn push_milli(out: &mut Vec<u8>, m: i64)
    ensures
        final(out)@ == old(out)@ + milli_bytes(m as int),
{
    let a: u64 = if m < 0 {
        if m == i64::MIN {
            9223372036854775808u64
        } else {
            (-m) as u64
        }
    } else {
        m as u64
    };
    if m < 0 {
        out.push(45);
    }
    push_dec_u64(out, a / 1000);
    if a % 1000 != 0 {
        out.push(46);
        push_frac(out, a % 1000, 3);
    }
    assert(final(out)@ =~= old(out)@ + milli_bytes(m as int));
}

} // verus!
