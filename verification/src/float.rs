//! The 16-bit fixed-point code in which the download rate travels.
//!
//! The screen shows a rate with two decimals. On the wire it is a big-endian
//! 16-bit count of hundredths, so rates from 0.00 to 655.35 can be told apart and
//! anything above is shown as 655.35. The library keeps the rate as that count;
//! turning a measured floating-point rate into hundredths is left to the caller.

use vstd::prelude::*;

verus! {

/// The largest count of hundredths that the code can hold.
pub const MAX_HUNDREDTHS: u32 = 65535;

/// The two bytes of `n`, high byte first.
pub open spec fn be16(n: int) -> Seq<u8> {
    seq![(n / 256) as u8, (n % 256) as u8]
}

/// The code of a rate of `hundredths` hundredths: the rate itself where it fits,
/// the largest code where it does not.
pub open spec fn encode_spec(hundredths: int) -> Seq<u8> {
    if hundredths <= MAX_HUNDREDTHS {
        be16(hundredths)
    } else {
        be16(MAX_HUNDREDTHS as int)
    }
}

/// The rate, in hundredths, that a two-byte code stands for.
pub open spec fn decode_spec(repr: Seq<u8>) -> int {
    repr[0] * 256 + repr[1]
}

/// The reference magnitude, in hundredths, after `bit` halvings: it starts at
/// 655.36 and is one hundredth after the sixteenth.
pub open spec fn magnitude(bit: int) -> int
    decreases 16 - bit,
{
    if bit >= 16 {
        1
    } else {
        2 * magnitude(bit + 1)
    }
}

/// Encodes a rate given in hundredths.
///
/// The sixteen bits are found from the top: a reference magnitude starts at
/// 655.36 and is halved before each bit; where the remaining rate reaches the
/// magnitude, the bit is set and the magnitude taken off.
pub fn to_bit_repr(hundredths: u32) -> (repr: [u8; 2])
    ensures
        repr@ == encode_spec(hundredths as int),
{
    let mut rest: u32 = hundredths;
    let mut n: u16 = 0;
    let mut current: u32 = 65536;
    let mut bit: u32 = 0;
    assert(magnitude(0) == 65536) by {
        reveal_with_fuel(magnitude, 17);
    }
    while bit < 16
        invariant
            bit <= 16,
            current == magnitude(bit as int),
            1 <= current <= 65536,
            n * current + current <= 65536,
            n * current + rest == hundredths,
            hundredths < 65536 ==> rest < current,
            hundredths >= 65536 ==> n * current + current == 65536,
        decreases 16 - bit,
    {
        let ghost n0 = n;
        let ghost c0 = current;
        current = current / 2;
        assert(n0 < 32768) by (nonlinear_arith)
            requires
                n0 * c0 + c0 <= 65536,
                c0 >= 2,
        ;
        n = n << 1;
        assert(n == 2 * n0) by (bit_vector)
            requires
                n == n0 << 1,
                n0 < 32768,
        ;
        assert(n * current == n0 * c0) by (nonlinear_arith)
            requires
                n == 2 * n0,
                c0 == 2 * current,
        ;
        if rest >= current {
            rest = rest - current;
            let ghost n1 = n;
            n = n | 1;
            assert(n == n1 + 1) by (bit_vector)
                requires
                    n == n1 | 1,
                    n1 % 2 == 0,
            ;
            assert(n * current == n1 * current + current) by (nonlinear_arith)
                requires
                    n == n1 + 1,
            ;
        }
        bit += 1;
    }
    assert(n * current == n) by (nonlinear_arith)
        requires
            current == 1,
    ;
    let high: u8 = (n >> 8) as u8;
    let low: u8 = (n & 0xff) as u8;
    assert(high == n / 256 && low == n % 256) by (bit_vector)
        requires
            high == (n >> 8) as u8,
            low == (n & 0xff) as u8,
    ;
    let repr: [u8; 2] = [high, low];
    assert(repr@ =~= encode_spec(hundredths as int));
    repr
}

/// Decodes a two-byte code into the rate in hundredths.
///
/// The bits are read from the lowest up; each set bit adds a magnitude that
/// starts at one hundredth and doubles from bit to bit.
pub fn from_bit_repr(repr: [u8; 2]) -> (hundredths: u32)
    ensures
        hundredths == decode_spec(repr@),
        hundredths <= MAX_HUNDREDTHS,
{
    let code: u32 = repr[0] as u32 * 256 + repr[1] as u32;
    let mut n: u32 = code;
    let mut current: u32 = 1;
    let mut result: u32 = 0;
    while n != 0
        invariant
            result + n * current == code,
            code <= 65535,
            1 <= current,
            n == 0 || current <= 65535,
        decreases n,
    {
        let ghost n0 = n;
        let ghost c0 = current;
        let ghost r0 = result;
        assert(n0 * c0 >= c0) by (nonlinear_arith)
            requires
                n0 >= 1,
                c0 >= 1,
        ;
        if n % 2 == 1 {
            result = result + current;
        }
        current = current * 2;
        n = n / 2;
        assert(result + n * current == r0 + n0 * c0) by (nonlinear_arith)
            requires
                n == n0 / 2,
                current == c0 * 2,
                n0 % 2 == 1 ==> result == r0 + c0,
                n0 % 2 == 0 ==> result == r0,
        ;
        assert(n == 0 || current <= 65535) by (nonlinear_arith)
            requires
                result + n * current <= 65535,
                current >= 1,
        ;
    }
    assert(n * current == 0) by (nonlinear_arith)
        requires
            n == 0,
    ;
    result
}

/// Decoding a code and encoding the rate again gives the code back, for every one
/// of the 65536 codes.
pub proof fn lemma_code_round_trip(repr: Seq<u8>)
    requires
        repr.len() == 2,
    ensures
        encode_spec(decode_spec(repr)) == repr,
{
    assert(encode_spec(decode_spec(repr)) =~= repr);
}

/// Encoding a rate and decoding the code gives the rate back where the code can
/// hold it, and the largest rate where it cannot.
pub proof fn lemma_rate_round_trip(hundredths: nat)
    ensures
        decode_spec(encode_spec(hundredths as int)) == if hundredths <= MAX_HUNDREDTHS {
            hundredths
        } else {
            MAX_HUNDREDTHS as nat
        },
{
}

/// A download rate as the screen takes it.
#[derive(Clone, Copy, Debug)]
pub struct DumbFloat16 {
    code: u16,
}

impl DumbFloat16 {
    /// The rate in hundredths.
    pub closed spec fn hundredths(&self) -> int {
        self.code as int
    }

    /// The rate of `hundredths` hundredths, or the largest rate that the code can
    /// hold if that is less.
    pub fn new(hundredths: u32) -> (rate: Self)
        ensures
            rate.hundredths() == if hundredths <= MAX_HUNDREDTHS {
                hundredths as int
            } else {
                MAX_HUNDREDTHS as int
            },
    {
        if hundredths <= MAX_HUNDREDTHS {
            DumbFloat16 { code: hundredths as u16 }
        } else {
            DumbFloat16 { code: 65535 }
        }
    }

    /// The two bytes that go on the wire.
    pub fn to_bit_repr(&self) -> (repr: [u8; 2])
        ensures
            repr@ == be16(self.hundredths()),
    {
        to_bit_repr(self.code as u32)
    }

    /// The rate that two bytes from the wire stand for.
    pub fn from_bit_repr(repr: [u8; 2]) -> (rate: Self)
        ensures
            rate.hundredths() == decode_spec(repr@),
    {
        DumbFloat16 { code: from_bit_repr(repr) as u16 }
    }
}

} // verus!
