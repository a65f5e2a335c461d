//! Numbers as text: decimal, signed decimal and fixed-width hexadecimal.

use vstd::arithmetic::power2::lemma_pow2_adds;
use vstd::arithmetic::power2::lemma_pow2_pos;
use vstd::arithmetic::power2::lemma_pow2_strictly_increases;
use vstd::arithmetic::power2::lemma2_to64;
use vstd::arithmetic::power2::pow2;
use vstd::prelude::*;
use vstd::string::*;

verus! {

/// The digit for `d` in bases up to sixteen, in lower case.
pub open spec fn digit(d: nat) -> char {
    if d == 0 {
        '0'
    } else if d == 1 {
        '1'
    } else if d == 2 {
        '2'
    } else if d == 3 {
        '3'
    } else if d == 4 {
        '4'
    } else if d == 5 {
        '5'
    } else if d == 6 {
        '6'
    } else if d == 7 {
        '7'
    } else if d == 8 {
        '8'
    } else if d == 9 {
        '9'
    } else if d == 10 {
        'a'
    } else if d == 11 {
        'b'
    } else if d == 12 {
        'c'
    } else if d == 13 {
        'd'
    } else if d == 14 {
        'e'
    } else {
        'f'
    }
}

/// `n` in decimal, without leading zeros.
pub open spec fn dec(n: nat) -> Seq<char>
    decreases n,
{
    if n < 10 {
        seq![digit(n)]
    } else {
        dec(n / 10).push(digit(n % 10))
    }
}

/// `v` in decimal, with a minus sign where it is negative.
pub open spec fn signed_dec(v: int) -> Seq<char> {
    if v < 0 {
        "-"@ + dec((-v) as nat)
    } else {
        dec(v as nat)
    }
}

/// The `width` low hexadecimal digits of `n`, the most significant first.
pub open spec fn hex(n: nat, width: nat) -> Seq<char>
    decreases width,
{
    if width == 0 {
        Seq::empty()
    } else {
        hex(n / 16, (width - 1) as nat).push(digit(n % 16))
    }
}

/// The integer that `bits` stands for in two's complement on `bytes` bytes.
pub open spec fn two_complement(bits: nat, bytes: nat) -> int {
    if bits >= pow2((8 * bytes - 1) as nat) {
        bits - pow2(8 * bytes)
    } else {
        bits as int
    }
}

/// The digit for `d`, as text.
fn digit_text(d: u8) -> (s: &'static str)
    requires
        d < 16,
    ensures
        s@ == seq![digit(d as nat)],
{
    proof {
        reveal_strlit("0");
        reveal_strlit("1");
        reveal_strlit("2");
        reveal_strlit("3");
        reveal_strlit("4");
        reveal_strlit("5");
        reveal_strlit("6");
        reveal_strlit("7");
        reveal_strlit("8");
        reveal_strlit("9");
        reveal_strlit("a");
        reveal_strlit("b");
        reveal_strlit("c");
        reveal_strlit("d");
        reveal_strlit("e");
        reveal_strlit("f");
    }
    match d {
        0 => "0",
        1 => "1",
        2 => "2",
        3 => "3",
        4 => "4",
        5 => "5",
        6 => "6",
        7 => "7",
        8 => "8",
        9 => "9",
        10 => "a",
        11 => "b",
        12 => "c",
        13 => "d",
        14 => "e",
        _ => "f",
    }
}

/// Writes `n` in decimal.
pub fn dec_text(n: u128) -> (s: String)
    ensures
        s@ == dec(n as nat),
    decreases n,
{
    if n < 10 {
        digit_text(n as u8).to_owned()
    } else {
        let mut s = dec_text(n / 10);
        s.append(digit_text((n % 10) as u8));
        s
    }
}

/// Writes the `width` low hexadecimal digits of `n`.
fn hex_text(n: u64, width: u8) -> (s: String)
    ensures
        s@ == hex(n as nat, width as nat),
    decreases width,
{
    if width == 0 {
        String::new()
    } else {
        let mut s = hex_text(n / 16, width - 1);
        s.append(digit_text((n % 16) as u8));
        s
    }
}

/// Writes `n` as sixteen hexadecimal digits.
pub fn hex16_text(n: u64) -> (s: String)
    ensures
        s@ == hex(n as nat, 16),
{
    hex_text(n, 16)
}

/// Half of the range of an integer of `bytes` bytes.
fn half_range(bytes: u64) -> (half: u128)
    requires
        1 <= bytes <= 16,
    ensures
        half == pow2((8 * bytes - 1) as nat),
        2 * half == pow2((8 * bytes) as nat),
{
    let mut half: u128 = 128;
    let mut k: u64 = 1;
    proof {
        lemma2_to64();
    }
    while k < bytes
        invariant
            1 <= k <= bytes <= 16,
            half == pow2((8 * k - 1) as nat),
        decreases bytes - k,
    {
        proof {
            lemma2_to64();
            lemma_pow2_adds((8 * k - 1) as nat, 8);
            lemma_pow2_adds((8 * k + 7) as nat, (120 - 8 * k) as nat);
            lemma_pow2_adds(1, 63);
            lemma_pow2_adds(63, 64);
            lemma_pow2_pos((120 - 8 * k) as nat);
            assert(pow2(127) == 0x8000_0000_0000_0000int * 0x1_0000_0000_0000_0000int);
            let a = pow2((8 * k + 7) as nat);
            let b = pow2((120 - 8 * k) as nat);
            assert(a <= a * b) by (nonlinear_arith)
                requires
                    a >= 0,
                    b >= 1,
            ;
        }
        half = half * 256;
        k = k + 1;
    }
    proof {
        lemma2_to64();
        lemma_pow2_adds(1, (8 * bytes - 1) as nat);
    }
    half
}

/// Whether `n` fits in `bytes` bytes.
pub fn fits_bytes(n: u128, bytes: u64) -> (b: bool)
    ensures
        b == (n < pow2((8 * bytes) as nat)),
{
    if bytes == 0 {
        proof {
            lemma2_to64();
        }
        n == 0
    } else if bytes < 16 {
        let half = half_range(bytes);
        n / 2 < half
    } else {
        proof {
            lemma2_to64();
            lemma_pow2_adds(1, 63);
            lemma_pow2_adds(64, 64);
            assert(pow2(128) == 0x1_0000_0000_0000_0000int * 0x1_0000_0000_0000_0000int);
            if bytes > 16 {
                lemma_pow2_strictly_increases(128, (8 * bytes) as nat);
            }
        }
        true
    }
}

/// Writes the integer that `bits` stands for in two's complement on `bytes` bytes.
pub fn signed_text(bits: u128, bytes: u64) -> (s: String)
    requires
        1 <= bytes <= 16,
        bits < pow2((8 * bytes) as nat),
    ensures
        s@ == signed_dec(two_complement(bits as nat, bytes as nat)),
{
    let half = half_range(bytes);
    if bits >= half {
        let mut s = "-".to_owned();
        let magnitude: u128 = half - (bits - half);
        s.append(dec_text(magnitude).as_str());
        s
    } else {
        dec_text(bits)
    }
}

} // verus!
