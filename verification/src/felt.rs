use vstd::prelude::*;

verus! {

/// 2^128, the weight of the high half of a [`Felt`].
pub open spec fn two_pow_128() -> int {
    0x1_0000_0000_0000_0000_0000_0000_0000_0000int
}

/// 2^64.
pub open spec fn two_pow_64() -> int {
    0x1_0000_0000_0000_0000int
}

/// The Stark field prime `P = 2^251 + 17 * 2^192 + 1`.
pub open spec fn felt_prime() -> int {
    0x800000000000011000000000000000000000000000000000000000000000001int
}

/// An element of the Stark field, stored as two 128-bit halves of its canonical value.
///
/// The value is always below [`felt_prime`].
#[derive(Debug, Clone, Copy, PartialEq, Eq, Hash, Structural)]
pub struct Felt {
    high: u128,
    low: u128,
}

impl View for Felt {
    type V = int;

    closed spec fn view(&self) -> int {
        self.high * two_pow_128() + self.low
    }
}

/// The representation of a value below `P` as two halves is unique.
pub proof fn lemma_felt_value_injective(a: Felt, b: Felt)
    ensures
        a@ == b@ <==> a == b,
{
    reveal_felt_fields(a);
    reveal_felt_fields(b);
    let bb = two_pow_128();
    assert(a@ == b@ ==> a.high == b.high) by (nonlinear_arith)
        requires
            a@ == a.high * bb + a.low,
            b@ == b.high * bb + b.low,
            0 <= a.low < bb,
            0 <= b.low < bb,
            bb > 0,
    ;
}

/// A felt is determined by its two halves.
pub proof fn lemma_felt_halves_injective(a: Felt, b: Felt)
    ensures
        (a.spec_high() == b.spec_high() && a.spec_low() == b.spec_low()) <==> a == b,
{
}

/// The value of a felt is never negative.
pub proof fn lemma_felt_nonnegative(f: Felt)
    ensures
        0 <= f@,
{
    reveal_felt_fields(f);
    assert(f.spec_high() * two_pow_128() >= 0) by (nonlinear_arith)
        requires
            f.spec_high() >= 0,
            two_pow_128() > 0,
    ;
}

/// The value of a felt is its high half times 2^128 plus its low half.
pub proof fn reveal_felt_fields(f: Felt)
    ensures
        f@ == f.spec_high() * two_pow_128() + f.spec_low(),
        0 <= f.spec_low() < two_pow_128(),
{
}

impl Felt {
    /// The high 128 bits of the value.
    pub closed spec fn spec_high(self) -> u128 {
        self.high
    }

    /// The low 128 bits of the value.
    pub closed spec fn spec_low(self) -> u128 {
        self.low
    }

    #[verifier::type_invariant]
    pub open spec fn canonical(self) -> bool {
        self@ < felt_prime()
    }

    /// The high 128 bits of the value.
    pub fn high(&self) -> (r: u128)
        ensures
            r == self.spec_high(),
    {
        self.high
    }

    /// The low 128 bits of the value.
    pub fn low(&self) -> (r: u128)
        ensures
            r == self.spec_low(),
    {
        self.low
    }

    /// The felt `0`.
    pub closed spec fn spec_zero() -> Felt {
        Felt { high: 0, low: 0 }
    }

    /// The felt `0`.
    pub fn zero() -> (r: Felt)
        ensures
            r@ == 0,
            r == Felt::spec_zero(),
    {
        Felt { high: 0, low: 0 }
    }

    /// The felt `1`.
    pub fn one() -> (r: Felt)
        ensures
            r@ == 1,
    {
        Felt { high: 0, low: 1 }
    }

    /// The largest felt, `P - 1`.
    pub fn max() -> (r: Felt)
        ensures
            r@ == felt_prime() - 1,
    {
        Felt { high: 0x800000000000011_0000000000000000, low: 0 }
    }

    /// The felt holding a 64-bit integer.
    pub fn from_u64(v: u64) -> (r: Felt)
        ensures
            r@ == v,
    {
        Felt { high: 0, low: v as u128 }
    }

    /// The felt holding a 128-bit integer.
    pub fn from_u128(v: u128) -> (r: Felt)
        ensures
            r@ == v,
    {
        Felt { high: 0, low: v }
    }

    /// Builds a felt from its two halves, or `None` when the value is not below `P`.
    pub fn from_parts(high: u128, low: u128) -> (r: Option<Felt>)
        ensures
            high * two_pow_128() + low < felt_prime() <==> r is Some,
            r matches Some(f) ==> f.spec_high() == high && f.spec_low() == low && f@ == high * two_pow_128()
                + low,
    {
        if high < 0x800000000000011_0000000000000000 || (high == 0x800000000000011_0000000000000000
            && low == 0) {
            assert(high * two_pow_128() + low < felt_prime()) by (nonlinear_arith)
                requires
                    high < 0x800000000000011_0000000000000000 || (high
                        == 0x800000000000011_0000000000000000 && low == 0),
                    low < two_pow_128(),
                    two_pow_128() == 0x1_0000_0000_0000_0000_0000_0000_0000_0000int,
                    felt_prime() == 0x800000000000011000000000000000000000000000000000000000000000001int,
            ;
            Some(Felt { high, low })
        } else {
            assert(high * two_pow_128() + low >= felt_prime()) by (nonlinear_arith)
                requires
                    high > 0x800000000000011_0000000000000000 || (high
                        == 0x800000000000011_0000000000000000 && low > 0),
                    low >= 0,
                    two_pow_128() == 0x1_0000_0000_0000_0000_0000_0000_0000_0000int,
                    felt_prime() == 0x800000000000011000000000000000000000000000000000000000000000001int,
            ;
            None
        }
    }

    /// Field addition of one: `(self + 1) mod P`, so that `max() + 1` wraps to zero.
    pub fn wrapping_successor(&self) -> (r: Felt)
        ensures
            r@ == (self@ + 1) % felt_prime(),
    {
        proof {
            use_type_invariant(self);
        }
        if self.high == 0x800000000000011_0000000000000000 && self.low == 0 {
            Felt { high: 0, low: 0 }
        } else if self.low == u128::MAX {
            assert(self.high < 0x800000000000011_0000000000000000) by (nonlinear_arith)
                requires
                    self.high * two_pow_128() + self.low < felt_prime(),
                    self.low == u128::MAX,
                    two_pow_128() == 0x1_0000_0000_0000_0000_0000_0000_0000_0000int,
                    felt_prime() == 0x800000000000011000000000000000000000000000000000000000000000001int,
            ;
            let r = Felt { high: self.high + 1, low: 0 };
            assert(r@ == self@ + 1);
            r
        } else {
            let r = Felt { high: self.high, low: self.low + 1 };
            assert(r@ < felt_prime()) by (nonlinear_arith)
                requires
                    r@ == self@ + 1,
                    self@ < felt_prime(),
                    !(self.high == 0x800000000000011_0000000000000000 && self.low == 0),
                    self@ == self.high * two_pow_128() + self.low,
                    0 <= self.low < two_pow_128(),
                    two_pow_128() == 0x1_0000_0000_0000_0000_0000_0000_0000_0000int,
                    felt_prime() == 0x800000000000011000000000000000000000000000000000000000000000001int,
            ;
            r
        }
    }

    /// Field addition: `(self + other) mod P`.
    pub fn add(&self, other: &Felt) -> (r: Felt)
        ensures
            r@ == (self@ + other@) % felt_prime(),
    {
        proof {
            use_type_invariant(self);
            use_type_invariant(other);
        }
        let ghost bb = two_pow_128();
        let ghost p = felt_prime();
        assert(self.high < 0x800000000000011_0000000000000001 && other.high
            < 0x800000000000011_0000000000000001) by (nonlinear_arith)
            requires
                self.high * bb + self.low < p,
                other.high * bb + other.low < p,
                self.low >= 0,
                other.low >= 0,
                bb == 0x1_0000_0000_0000_0000_0000_0000_0000_0000int,
                p == 0x800000000000011000000000000000000000000000000000000000000000001int,
        ;
        let (low, carry) = if self.low <= u128::MAX - other.low {
            (self.low + other.low, 0u128)
        } else {
            (self.low - (u128::MAX - other.low) - 1, 1u128)
        };
        let high = self.high + other.high + carry;
        let ghost sum = self@ + other@;
        assert(sum == high * bb + low) by (nonlinear_arith)
            requires
                sum == self@ + other@,
                self@ == self.high * bb + self.low,
                other@ == other.high * bb + other.low,
                high == self.high + other.high + carry,
                carry == 0 ==> low == self.low + other.low,
                carry == 1 ==> low == self.low + other.low - bb,
                carry == 0 || carry == 1,
        ;
        let ph: u128 = 0x800000000000011_0000000000000000;
        if high > ph || (high == ph && low >= 1) {
            let (low2, borrow) = if low >= 1 {
                (low - 1, 0u128)
            } else {
                (u128::MAX, 1u128)
            };
            let high2 = high - ph - borrow;
            let r = Felt { high: high2, low: low2 };
            assert(r@ == sum - p && 0 <= sum - p < p) by (nonlinear_arith)
                requires
                    r@ == high2 * bb + low2,
                    sum == high * bb + low,
                    high2 == high - ph - borrow,
                    borrow == 0 ==> low2 == low - 1,
                    borrow == 1 ==> low2 == bb - 1 && low == 0,
                    borrow == 0 || borrow == 1,
                    ph == 0x800000000000011_0000000000000000,
                    sum < 2 * p,
                    high > ph || (high == ph && low >= 1),
                    bb == 0x1_0000_0000_0000_0000_0000_0000_0000_0000int,
                    p == 0x800000000000011000000000000000000000000000000000000000000000001int,
            ;
            r
        } else {
            let r = Felt { high, low };
            assert(sum < p) by (nonlinear_arith)
                requires
                    sum == high * bb + low,
                    !(high > ph || (high == ph && low >= 1)),
                    0 <= low,
                    ph == 0x800000000000011_0000000000000000,
                    bb == 0x1_0000_0000_0000_0000_0000_0000_0000_0000int,
                    p == 0x800000000000011000000000000000000000000000000000000000000000001int,
            ;
            r
        }
    }

    /// The integer difference `self - other` as a `u64`, or `None` when `self < other` or the
    /// difference does not fit in 64 bits.
    pub fn checked_sub_u64(&self, other: &Felt) -> (r: Option<u64>)
        ensures
            r is Some <==> other@ <= self@ && self@ - other@ < two_pow_64(),
            r matches Some(d) ==> d == self@ - other@,
    {
        let a = self.high;
        let b = other.high;
        let al = self.low;
        let bl = other.low;
        let ghost bb = two_pow_128();
        assert(self@ == a * bb + al && other@ == b * bb + bl);
        if a == b {
            if al >= bl && al - bl <= u64::MAX as u128 {
                Some((al - bl) as u64)
            } else {
                None
            }
        } else if a > b && a - b == 1 && al < bl {
            assert(self@ - other@ == bb - bl + al) by (nonlinear_arith)
                requires
                    self@ == a * bb + al,
                    other@ == b * bb + bl,
                    a == b + 1,
            ;
            let d = (u128::MAX - bl) + al + 1;
            if d <= u64::MAX as u128 {
                Some(d as u64)
            } else {
                None
            }
        } else {
            assert(!(other@ <= self@ && self@ - other@ < two_pow_64())) by (nonlinear_arith)
                requires
                    self@ == a * bb + al,
                    other@ == b * bb + bl,
                    a != b,
                    !(a > b && a - b == 1 && al < bl),
                    0 <= al < bb,
                    0 <= bl < bb,
                    bb == 0x1_0000_0000_0000_0000_0000_0000_0000_0000int,
                    two_pow_64() == 0x1_0000_0000_0000_0000int,
            ;
            None
        }
    }

    /// The value as a `u64`, or `None` when it does not fit.
    pub fn to_u64(&self) -> (r: Option<u64>)
        ensures
            r is Some <==> self@ < two_pow_64(),
            r matches Some(v) ==> v == self@,
    {
        if self.high == 0 && self.low <= u64::MAX as u128 {
            Some(self.low as u64)
        } else {
            assert(self@ >= two_pow_64()) by (nonlinear_arith)
                requires
                    self.high > 0 || self.low > u64::MAX,
                    self@ == self.high * two_pow_128() + self.low,
                    self.low >= 0,
                    two_pow_128() == 0x1_0000_0000_0000_0000_0000_0000_0000_0000int,
            ;
            None
        }
    }
}

/// Whether `c` is a hexadecimal digit, in either case.
pub open spec fn is_hex_digit(c: char) -> bool {
    (48 <= c as u32 <= 57) || (97 <= c as u32 <= 102) || (65 <= c as u32 <= 70)
}

/// The value of a hexadecimal digit.
pub open spec fn hex_digit_value(c: char) -> int {
    if 48 <= c as u32 <= 57 {
        c as u32 - 48
    } else if 97 <= c as u32 <= 102 {
        c as u32 - 87
    } else {
        c as u32 - 55
    }
}

/// The number the hexadecimal digits `s` denote.
pub open spec fn hex_value(s: Seq<char>) -> int
    decreases s.len(),
{
    if s.len() == 0 {
        0
    } else {
        hex_value(s.drop_last()) * 16 + hex_digit_value(s.last())
    }
}

/// The digits of a hex felt text: the text without its `0x` prefix, which is only taken off a
/// text longer than the prefix.
pub open spec fn hex_digits(s: Seq<char>) -> Seq<char> {
    if s.len() > 2 && s[0] == '0' && s[1] == 'x' {
        s.skip(2)
    } else {
        s
    }
}

/// The value `Felt::from_hex` of `starknet-types-core` reads from a text: after an optional `0x`
/// prefix, one to 64 hexadecimal digits whose value is at most the field prime, taken modulo
/// the prime (so the prime itself reads as zero); any other text is rejected.
pub open spec fn felt_hex_value(s: Seq<char>) -> Option<int> {
    let d = hex_digits(s);
    if d.len() == 0 || d.len() > 64 || !(forall|i: int| 0 <= i < d.len() ==> #[trigger] is_hex_digit(d[i]))
        || hex_value(d) > felt_prime() {
        None
    } else {
        Some(hex_value(d) % felt_prime())
    }
}

/// Parses a hex-encoded felt with `starknet_types_core::felt::Felt::from_hex`. The contract
/// claims that it accepts exactly the texts [`felt_hex_value`] accepts and gives the value it
/// states.
#[verifier::external_body]
pub(crate) fn felt_from_hex(s: &str) -> (r: Option<Felt>)
    ensures
        (match r {
            Some(f) => Some(f@),
            None => None,
        }) == felt_hex_value(s@),
{
    let b = starknet_types_core::felt::Felt::from_hex(s).ok()?.to_bytes_be();
    let high = u128::from_be_bytes(b[..16].try_into().unwrap());
    Some(Felt { high, low: u128::from_be_bytes(b[16..].try_into().unwrap()) })
}

/// The integer a 32-byte string denotes when read big-endian.
pub open spec fn be_value(bytes: Seq<u8>) -> int
    decreases bytes.len(),
{
    if bytes.len() == 0 {
        0
    } else {
        be_value(bytes.drop_last()) * 256 + bytes.last()
    }
}

/// Reads a 32-byte big-endian string as a felt with `starknet_types_core::felt::Felt::from_bytes_be`.
/// The contract claims that the result is the value of the bytes reduced modulo the field
/// prime.
#[verifier::external_body]
pub(crate) fn felt_from_bytes_be(bytes: &[u8; 32]) -> (r: Felt)
    ensures
        r@ == be_value(bytes@) % felt_prime(),
{
    let b = starknet_types_core::felt::Felt::from_bytes_be(bytes).to_bytes_be();
    let high = u128::from_be_bytes(b[..16].try_into().unwrap());
    Felt { high, low: u128::from_be_bytes(b[16..].try_into().unwrap()) }
}

/// Why a text is not a Cairo short string.
#[derive(Debug, Clone, Copy, PartialEq, Eq, Structural)]
pub enum ShortStringError {
    /// The text holds a character outside ASCII.
    NonAsciiCharacter,
    /// The text is longer than 31 characters.
    StringTooLong,
}

/// The value of a short string: its characters read as the big-endian digits of a base-256
/// number.
pub open spec fn short_string_value(s: Seq<char>) -> int
    decreases s.len(),
{
    if s.len() == 0 {
        0
    } else {
        short_string_value(s.drop_last()) * 256 + (s.last() as int)
    }
}

/// Encodes a Cairo short string as a felt with
/// `starknet::core::utils::cairo_short_string_to_felt`: a text holding a non-ASCII character is
/// rejected first, then one longer than 31 characters; any other text gives the felt whose
/// big-endian bytes are its characters.
#[verifier::external_body]
pub(crate) fn cairo_short_string_to_felt(s: &str) -> (r: Result<Felt, ShortStringError>)
    ensures
        r is Err <==> !vstd::utf8::is_ascii_chars(s@) || s@.len() > 31,
        r matches Err(e) ==> e == (if !vstd::utf8::is_ascii_chars(s@) {
            ShortStringError::NonAsciiCharacter
        } else {
            ShortStringError::StringTooLong
        }),
        r matches Ok(f) ==> f@ == short_string_value(s@),
{
    match starknet::core::utils::cairo_short_string_to_felt(s) {
        Ok(f) => {
            let b = f.to_bytes_be();
            let high = u128::from_be_bytes(b[..16].try_into().unwrap());
            Ok(Felt { high, low: u128::from_be_bytes(b[16..].try_into().unwrap()) })
        },
        Err(starknet::core::utils::CairoShortStringToFeltError::NonAsciiCharacter) => Err(
            ShortStringError::NonAsciiCharacter,
        ),
        Err(starknet::core::utils::CairoShortStringToFeltError::StringTooLong) => Err(
            ShortStringError::StringTooLong,
        ),
    }
}

} // verus!
