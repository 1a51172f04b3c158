//! ABI encoding of the ERC-20 `transfer(address,uint256)` call that pays a
//! contributor in USDC.
use vstd::prelude::*;
use crate::text::{str_chars, skip_pattern_forward, push_char, push_range, trim_start_all};

verus! {

/// The USDC token contract on Sepolia.
pub const USDC_SEPOLIA: &'static str = "0x1c7D4B196Cb0C7B01d743Fbc6116a902379C7238";

/// The lower-case hexadecimal digit for `d < 16`.
pub open spec fn hex_lower_digit(d: nat) -> char {
    if d < 10 {
        (48 + d) as char
    } else {
        (87 + d) as char
    }
}

/// `n` written in lower-case hexadecimal with exactly `width` digits
/// (zero-padded on the left; only the low `width` digits of `n`).
pub open spec fn hex_fixed(n: nat, width: nat) -> Seq<char>
    decreases width,
{
    if width == 0 {
        Seq::empty()
    } else {
        hex_fixed(n / 16, (width - 1) as nat).push(hex_lower_digit(n % 16))
    }
}

/// `hex_fixed` has exactly `width` digits.
pub proof fn lemma_hex_fixed_len(n: nat, width: nat)
    ensures
        hex_fixed(n, width).len() == width,
    decreases width,
{
    if width > 0 {
        lemma_hex_fixed_len(n / 16, (width - 1) as nat);
    }
}

/// `s` right-aligned in a field of `width` characters filled with '0', as
/// the format `{:0>width}` does; a longer `s` is left as it is.
pub open spec fn pad_left_zeros(s: Seq<char>, width: nat) -> Seq<char> {
    if s.len() >= width {
        s
    } else {
        Seq::new((width - s.len()) as nat, |i: int| '0') + s
    }
}

/// The calldata of `transfer(to, amount)`: "0x", the selector "a9059cbb",
/// the address with every leading "0x" removed and zero-padded to 64
/// characters, and the amount as 64 lower-case hexadecimal digits.
pub open spec fn transfer_calldata(to: Seq<char>, amount: u64) -> Seq<char> {
    "0x"@ + "a9059cbb"@ + pad_left_zeros(trim_start_all(to, "0x"@), 64) + hex_fixed(amount as nat, 64)
}

/// The value of a hexadecimal digit written by `hex_lower_digit`.
pub open spec fn hex_digit_val(c: char) -> int {
    if (c as int) < 58 {
        c as int - 48
    } else {
        c as int - 87
    }
}

/// The number that a sequence of lower-case hexadecimal digits stands for,
/// most significant digit first.
pub open spec fn hex_value(s: Seq<char>) -> int
    decreases s.len(),
{
    if s.len() == 0 {
        0
    } else {
        16 * hex_value(s.drop_last()) + hex_digit_val(s.last())
    }
}

/// Sixteen to the power `w`.
pub open spec fn pow16(w: nat) -> nat
    decreases w,
{
    if w == 0 {
        1
    } else {
        16 * pow16((w - 1) as nat)
    }
}

/// Writing `n` with `width` hexadecimal digits loses nothing when `n` fits.
pub proof fn lemma_hex_fixed_value(n: nat, width: nat)
    requires
        n < pow16(width),
    ensures
        hex_value(hex_fixed(n, width)) == n,
    decreases width,
{
    if width == 0 {
    } else {
        lemma_hex_fixed_value(n / 16, (width - 1) as nat);
        let s = hex_fixed(n, width);
        assert(s.drop_last() =~= hex_fixed(n / 16, (width - 1) as nat));
        let d = n % 16;
        if d < 10 {
            assert(((48 + d) as char) as int == 48 + d);
        } else {
            assert(((87 + d) as char) as int == 87 + d);
        }
    }
}

/// Every `u64` fits in 64 hexadecimal digits.
proof fn lemma_u64_fits_word(n: u64)
    ensures
        (n as nat) < pow16(64),
{
    reveal_with_fuel(pow16, 17);
    assert(pow16(16) == 0x1_0000_0000_0000_0000nat);
    lemma_pow16_grows(16, 64);
}

/// Sixteen's powers grow with the exponent.
proof fn lemma_pow16_grows(a: nat, b: nat)
    requires
        a <= b,
    ensures
        pow16(a) <= pow16(b),
    decreases b,
{
    if b > a {
        lemma_pow16_grows(a, (b - 1) as nat);
    }
}

/// The calldata of a transfer is 138 characters long when the address has
/// at most 64 characters after its "0x" prefixes, carries the selector of
/// `transfer(address,uint256)` and the padded address, and its last 64
/// characters read back, in hexadecimal, as the amount.
pub proof fn lemma_transfer_calldata_layout(to: Seq<char>, amount: u64)
    ensures
        ({
            let c = transfer_calldata(to, amount);
            let a = trim_start_all(to, "0x"@);
            &&& c.len() >= 138
            &&& c.take(10) == "0x"@ + "a9059cbb"@
            &&& a.len() <= 64 ==> c.len() == 138 && c.subrange(10, 74) == pad_left_zeros(a, 64)
            &&& hex_value(c.skip(c.len() - 64)) == amount
        }),
{
    reveal_strlit("0x");
    reveal_strlit("a9059cbb");
    let a = trim_start_all(to, "0x"@);
    let p = pad_left_zeros(a, 64);
    let w = hex_fixed(amount as nat, 64);
    lemma_hex_fixed_len(amount as nat, 64);
    lemma_u64_fits_word(amount);
    lemma_hex_fixed_value(amount as nat, 64);
    let c = transfer_calldata(to, amount);
    assert(p.len() >= 64);
    assert(c =~= ("0x"@ + "a9059cbb"@) + p + w);
    assert(c.take(10) =~= "0x"@ + "a9059cbb"@);
    assert(c.skip(c.len() - 64) =~= w);
    if a.len() <= 64 {
        assert(c.subrange(10, 74) =~= p);
    }
}

/// The lower-case hexadecimal digit for `d`.
fn hex_digit_char(d: u64) -> (c: char)
    requires
        d < 16,
    ensures
        c == hex_lower_digit(d as nat),
{
    if d < 10 {
        ((48 + d) as u8) as char
    } else {
        ((87 + d) as u8) as char
    }
}

/// The 64 lower-case hexadecimal digits of `n`.
fn hex_word(n: u64) -> (res: Vec<char>)
    ensures
        res@ == hex_fixed(n as nat, 64),
{
    let mut digits: Vec<char> = Vec::new();
    let mut i: usize = 0;
    while i < 64
        invariant
            i <= 64,
            digits@.len() == i,
        decreases 64 - i,
    {
        digits.push('0');
        i = i + 1;
    }
    let mut m: u64 = n;
    let mut k: usize = 64;
    while k > 0
        invariant
            k <= 64,
            digits@.len() == 64,
            hex_fixed(n as nat, 64) == hex_fixed(m as nat, k as nat) + digits@.subrange(k as int, 64),
        decreases k,
    {
        let d = m % 16;
        let c = hex_digit_char(d);
        let ghost before = digits@;
        digits.set(k - 1, c);
        assert(hex_fixed(m as nat, k as nat) == hex_fixed((m / 16) as nat, (k - 1) as nat).push(c));
        assert(hex_fixed((m / 16) as nat, (k - 1) as nat).push(c) + before.subrange(k as int, 64)
            =~= hex_fixed((m / 16) as nat, (k - 1) as nat) + digits@.subrange(k - 1, 64));
        m = m / 16;
        k = k - 1;
    }
    assert(digits@.subrange(0, 64) =~= digits@);
    digits
}

/// Encodes ERC-20 `transfer(address, uint256)` calldata.
pub fn encode_transfer_calldata(to_address: &str, amount_micro: u64) -> (res: String)
    ensures
        res@ == transfer_calldata(to_address@, amount_micro),
{
    let mut out = String::from_str("0x");
    out.append("a9059cbb");
    let addr = str_chars(to_address);
    let zero_x = str_chars("0x");
    let n = addr.len();
    let lo = skip_pattern_forward(&addr, 0, n, &zero_x);
    assert(addr@.subrange(0, n as int) =~= addr@);
    let ghost trimmed = addr@.subrange(lo as int, n as int);
    let ghost head = out@;
    if n - lo < 64 {
        let fill = 64 - (n - lo);
        let mut i: usize = 0;
        while i < fill
            invariant
                i <= fill,
                out@ == head + Seq::new(i as nat, |j: int| '0'),
            decreases fill - i,
        {
            push_char(&mut out, '0');
            i = i + 1;
            assert(out@ =~= head + Seq::new(i as nat, |j: int| '0'));
        }
    }
    let ghost padded = out@;
    push_range(&mut out, &addr, lo, n);
    assert(out@ =~= head + pad_left_zeros(trimmed, 64));
    let word = hex_word(amount_micro);
    proof {
        lemma_hex_fixed_len(amount_micro as nat, 64);
    }
    push_range(&mut out, &word, 0, 64);
    assert(word@.subrange(0, 64) =~= word@);
    assert(out@ =~= "0x"@ + "a9059cbb"@ + pad_left_zeros(trimmed, 64) + hex_fixed(amount_micro as nat, 64));
    out
}

} // verus!
