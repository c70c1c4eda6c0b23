//! ASCII renderings of numbers, as `format!` writes them.

use vstd::prelude::*;

verus! {

/// The ASCII digit for `d`, which is below sixteen; hexadecimal digits above
/// nine are upper case when `upper`, else lower case.
pub open spec fn spec_digit(d: nat, upper: bool) -> u8 {
    if d < 10 {
        (48 + d) as u8
    } else if upper {
        (55 + d) as u8
    } else {
        (87 + d) as u8
    }
}

/// `n` in decimal, without leading zeros (`{}`).
pub open spec fn spec_dec(n: nat) -> Seq<u8>
    decreases n,
{
    if n < 10 {
        seq![spec_digit(n, true)]
    } else {
        spec_dec(n / 10).push(spec_digit(n % 10, true))
    }
}

/// `n` in octal, without leading zeros (`{:o}`).
pub open spec fn spec_oct(n: nat) -> Seq<u8>
    decreases n,
{
    if n < 8 {
        seq![spec_digit(n, true)]
    } else {
        spec_oct(n / 8).push(spec_digit(n % 8, true))
    }
}

/// The last `width` hexadecimal digits of `n`, zero-padded.
pub open spec fn spec_hex(n: nat, width: nat, upper: bool) -> Seq<u8>
    decreases width,
{
    if width == 0 {
        Seq::empty()
    } else {
        spec_hex(n / 16, (width - 1) as nat, upper).push(spec_digit(n % 16, upper))
    }
}

/// The last `width` decimal digits of `n`, zero-padded.
pub open spec fn spec_dec_padded(n: nat, width: nat) -> Seq<u8>
    decreases width,
{
    if width == 0 {
        Seq::empty()
    } else {
        spec_dec_padded(n / 10, (width - 1) as nat).push(spec_digit(n % 10, true))
    }
}

/// Every digit rendering is ASCII.
pub open spec fn is_ascii_bytes(s: Seq<u8>) -> bool {
    forall|i: int| 0 <= i < s.len() ==> #[trigger] s[i] < 128u8
}

/// Appends `n` in decimal to `out`.
pub fn push_dec(out: &mut Vec<u8>, n: u64)
    ensures
        final(out)@ == old(out)@ + spec_dec(n as nat),
    decreases n,
{
    if n >= 10 {
        push_dec(out, n / 10);
    }
    let d: u8 = (n % 10) as u8;
    out.push(48u8 + d);
    proof {
        assert(final(out)@ =~= old(out)@ + spec_dec(n as nat));
    }
}

/// Appends `n` in octal to `out`.
pub fn push_oct(out: &mut Vec<u8>, n: u64)
    ensures
        final(out)@ == old(out)@ + spec_oct(n as nat),
    decreases n,
{
    if n >= 8 {
        push_oct(out, n / 8);
    }
    let d: u8 = (n % 8) as u8;
    out.push(48u8 + d);
    proof {
        assert(final(out)@ =~= old(out)@ + spec_oct(n as nat));
    }
}

/// Appends the last `width` hexadecimal digits of `n` to `out`.
pub fn push_hex(out: &mut Vec<u8>, n: u64, width: u32, upper: bool)
    ensures
        final(out)@ == old(out)@ + spec_hex(n as nat, width as nat, upper),
    decreases width,
{
    if width > 0 {
        push_hex(out, n / 16, width - 1, upper);
        let d: u8 = (n % 16) as u8;
        let c: u8 = if d < 10 {
            48u8 + d
        } else if upper {
            55u8 + d
        } else {
            87u8 + d
        };
        out.push(c);
        proof {
            assert(final(out)@ =~= old(out)@ + spec_hex(n as nat, width as nat, upper));
        }
    } else {
        proof {
            assert(final(out)@ =~= old(out)@ + spec_hex(n as nat, width as nat, upper));
        }
    }
}

/// Appends the last `width` decimal digits of `n` to `out`.
pub fn push_dec_padded(out: &mut Vec<u8>, n: u64, width: u32)
    ensures
        final(out)@ == old(out)@ + spec_dec_padded(n as nat, width as nat),
    decreases width,
{
    if width > 0 {
        push_dec_padded(out, n / 10, width - 1);
        let d: u8 = (n % 10) as u8;
        out.push(48u8 + d);
    }
    proof {
        assert(final(out)@ =~= old(out)@ + spec_dec_padded(n as nat, width as nat));
    }
}

/// Zero-padded decimal renderings are ASCII and as wide as asked.
pub proof fn lemma_dec_padded_ascii(n: nat, width: nat)
    ensures
        is_ascii_bytes(spec_dec_padded(n, width)),
        spec_dec_padded(n, width).len() == width,
    decreases width,
{
    if width > 0 {
        lemma_dec_padded_ascii(n / 10, (width - 1) as nat);
    }
}

/// Decimal renderings are ASCII.
pub proof fn lemma_dec_ascii(n: nat)
    ensures
        is_ascii_bytes(spec_dec(n)),
        spec_dec(n).len() >= 1,
    decreases n,
{
    if n >= 10 {
        lemma_dec_ascii(n / 10);
    }
}

/// Octal renderings are ASCII.
pub proof fn lemma_oct_ascii(n: nat)
    ensures
        is_ascii_bytes(spec_oct(n)),
    decreases n,
{
    if n >= 8 {
        lemma_oct_ascii(n / 8);
    }
}

/// Hexadecimal renderings are ASCII and as wide as asked.
pub proof fn lemma_hex_ascii(n: nat, width: nat, upper: bool)
    ensures
        is_ascii_bytes(spec_hex(n, width, upper)),
        spec_hex(n, width, upper).len() == width,
    decreases width,
{
    if width > 0 {
        lemma_hex_ascii(n / 16, (width - 1) as nat, upper);
    }
}

} // verus!
