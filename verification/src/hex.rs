//! Hexadecimal text for 32 bytes.

use vstd::prelude::*;
use vstd::string::StringSliceAdditionalSpecFns;

verus! {

/// Why a text is not 32 bytes in hexadecimal.
#[derive(Clone, Copy, Debug, PartialEq, Eq, Structural)]
pub enum HexError {
    /// The text has this many bytes instead of 64.
    WrongLength(usize),
    /// This byte is no hexadecimal digit.
    NotADigit(u8),
}

/// The value of a hexadecimal digit in either case.
pub open spec fn digit_value(b: u8) -> Option<int> {
    if 0x30 <= b <= 0x39 {
        Some(b - 0x30)
    } else if 0x61 <= b <= 0x66 {
        Some(b - 0x61 + 10)
    } else if 0x41 <= b <= 0x46 {
        Some(b - 0x41 + 10)
    } else {
        None
    }
}

/// Whether every byte of `s` is a hexadecimal digit.
pub open spec fn all_digits(s: Seq<u8>) -> bool {
    forall|i: int| 0 <= i < s.len() ==> digit_value(#[trigger] s[i]) is Some
}

/// The byte that two digits stand for, the high one first.
pub open spec fn byte_of(hi: u8, lo: u8) -> u8 {
    (16 * digit_value(hi)->0 + digit_value(lo)->0) as u8
}

/// The 32 bytes that 64 hexadecimal digits stand for.
pub open spec fn hex32(s: Seq<u8>) -> Option<Seq<u8>> {
    if s.len() == 64 && all_digits(s) {
        Some(Seq::new(32, |i: int| byte_of(s[2 * i], s[2 * i + 1])))
    } else {
        None
    }
}

/// How many bytes of `s` come before the first that is no digit; all of them if
/// there is none.
pub open spec fn leading_digits(s: Seq<u8>) -> nat
    decreases s.len(),
{
    if s.len() == 0 || digit_value(s[0]) is None {
        0
    } else {
        1 + leading_digits(s.drop_first())
    }
}

/// What is wrong with a text that is not 32 bytes in hexadecimal: its length,
/// or else the leftmost byte that is no digit.
pub open spec fn hex_fault(s: Seq<u8>) -> HexError {
    if s.len() != 64 {
        HexError::WrongLength(s.len() as usize)
    } else {
        HexError::NotADigit(s[leading_digits(s) as int])
    }
}

proof fn lemma_leading_digits(s: Seq<u8>, k: int)
    requires
        0 <= k < s.len(),
        all_digits(s.take(k)),
        digit_value(s[k]) is None,
    ensures
        leading_digits(s) == k,
        !all_digits(s),
    decreases s.len(),
{
    if k > 0 {
        assert(s.take(k)[0] == s[0]);
        assert forall|i: int| 0 <= i < k - 1 implies digit_value(
            #[trigger] s.drop_first().take(k - 1)[i],
        ) is Some by {
            assert(s.take(k)[i + 1] == s[i + 1]);
        }
        lemma_leading_digits(s.drop_first(), k - 1);
    }
}

/// The lower-case digit of a value below 16.
pub open spec fn lower_digit(v: int) -> u8 {
    if v < 10 {
        (0x30 + v) as u8
    } else {
        (0x61 + v - 10) as u8
    }
}

/// The lower-case hexadecimal text of `bytes`.
pub open spec fn lower_hex(bytes: Seq<u8>) -> Seq<u8> {
    Seq::new(
        2 * bytes.len(),
        |i: int|
            lower_digit(
                if i % 2 == 0 {
                    bytes[i / 2] as int / 16
                } else {
                    bytes[i / 2] as int % 16
                },
            ),
    )
}

/// The value of one hexadecimal digit.
pub fn hex_nibble(b: u8) -> (r: Result<u8, HexError>)
    ensures
        match r {
            Ok(v) => digit_value(b) == Some(v as int) && v < 16,
            Err(e) => digit_value(b) is None && e == HexError::NotADigit(b),
        },
{
    if 0x30 <= b && b <= 0x39 {
        Ok(b - 0x30)
    } else if 0x61 <= b && b <= 0x66 {
        Ok(b - 0x61 + 10)
    } else if 0x41 <= b && b <= 0x46 {
        Ok(b - 0x41 + 10)
    } else {
        Err(HexError::NotADigit(b))
    }
}

/// The 32 bytes that 64 hexadecimal digits stand for. The length is looked at
/// first, then the digits from the left.
pub fn decode_hex32(s: &str) -> (r: Result<[u8; 32], HexError>)
    ensures
        match r {
            Ok(bytes) => hex32(s.spec_bytes()) == Some(bytes@),
            Err(e) => hex32(s.spec_bytes()) is None && e == hex_fault(s.spec_bytes()),
        },
{
    let bytes = s.as_bytes();
    if bytes.len() != 64 {
        return Err(HexError::WrongLength(bytes.len()));
    }
    let mut out: [u8; 32] = [0u8; 32];
    let mut i: usize = 0;
    while i < 32
        invariant
            i <= 32,
            bytes@ == s.spec_bytes(),
            bytes@.len() == 64,
            all_digits(bytes@.take(2 * i)),
            forall|j: int| 0 <= j < i ==> out@[j] == byte_of(bytes@[2 * j], bytes@[2 * j + 1]),
        decreases 32 - i,
    {
        let hi: u8 = match hex_nibble(bytes[2 * i]) {
            Ok(v) => v,
            Err(e) => {
                proof {
                    let k = 2 * i as int;
                    lemma_leading_digits(bytes@, k);
                }
                return Err(e);
            },
        };
        let lo: u8 = match hex_nibble(bytes[2 * i + 1]) {
            Ok(v) => v,
            Err(e) => {
                proof {
                    let k = 2 * i + 1;
                    assert forall|j: int| 0 <= j < k implies digit_value(
                        #[trigger] bytes@.take(k)[j],
                    ) is Some by {
                        if j < 2 * i {
                            assert(bytes@.take(2 * i)[j] == bytes@[j]);
                        }
                    }
                    lemma_leading_digits(bytes@, k);
                }
                return Err(e);
            },
        };
        proof {
            assert((hi << 4) | lo == 16 * hi + lo) by (bit_vector)
                requires
                    hi < 16,
                    lo < 16,
            ;
            assert forall|j: int| 0 <= j < 2 * (i + 1) implies digit_value(
                #[trigger] bytes@.take(2 * (i + 1))[j],
            ) is Some by {
                if j < 2 * i {
                    assert(bytes@.take(2 * i)[j] == bytes@[j]);
                }
            }
        }
        out[i] = (hi << 4) | lo;
        i = i + 1;
    }
    proof {
        assert(bytes@.take(64) == bytes@);
        assert(hex32(bytes@)->0 == out@);
    }
    Ok(out)
}

/// The upper-case digit of a value below 16.
pub open spec fn upper_digit(v: int) -> u8 {
    if v < 10 {
        (0x30 + v) as u8
    } else {
        (0x41 + v - 10) as u8
    }
}

/// The upper-case hexadecimal text of `bytes`.
pub open spec fn upper_hex(bytes: Seq<u8>) -> Seq<u8> {
    Seq::new(
        2 * bytes.len(),
        |i: int|
            upper_digit(
                if i % 2 == 0 {
                    bytes[i / 2] as int / 16
                } else {
                    bytes[i / 2] as int % 16
                },
            ),
    )
}

/// A text with its upper-case digits in lower case.
pub open spec fn in_lower_case(s: Seq<u8>) -> Seq<u8> {
    Seq::new(
        s.len(),
        |i: int|
            if 0x41 <= s[i] <= 0x46 {
                (s[i] + 0x20) as u8
            } else {
                s[i]
            },
    )
}

/// A text of 64 bytes whose digits have the values of the halves of 32 bytes
/// stands for those bytes.
proof fn lemma_halves(s: Seq<u8>, bytes: Seq<u8>)
    requires
        bytes.len() == 32,
        s.len() == 64,
        forall|i: int|
            0 <= i < 64 ==> digit_value(#[trigger] s[i]) == Some(
                if i % 2 == 0 {
                    bytes[i / 2] as int / 16
                } else {
                    bytes[i / 2] as int % 16
                },
            ),
    ensures
        hex32(s) == Some(bytes),
{
    assert forall|i: int| 0 <= i < 32 implies #[trigger] byte_of(s[2 * i], s[2 * i + 1])
        == bytes[i] by {
        assert((2 * i) / 2 == i && (2 * i + 1) / 2 == i);
    }
    assert(hex32(s)->0 =~= bytes);
}

/// Decoding the hexadecimal text of 32 bytes, in either case, gives the bytes
/// back.
pub proof fn law_hex_round_trip(bytes: Seq<u8>)
    requires
        bytes.len() == 32,
    ensures
        hex32(lower_hex(bytes)) == Some(bytes),
        hex32(upper_hex(bytes)) == Some(bytes),
{
    lemma_halves(lower_hex(bytes), bytes);
    lemma_halves(upper_hex(bytes), bytes);
}

/// What decodes is the hexadecimal text of what it decodes to, but for the case
/// of its digits.
pub proof fn law_decoded_text_is_the_hex_of_its_bytes(s: Seq<u8>)
    requires
        hex32(s) is Some,
    ensures
        hex32(s)->0.len() == 32,
        lower_hex(hex32(s)->0) == in_lower_case(s),
{
    let bytes = hex32(s)->0;
    assert forall|i: int| 0 <= i < 64 implies #[trigger] lower_hex(bytes)[i] == in_lower_case(
        s,
    )[i] by {
        let k = i / 2;
        assert(digit_value(s[2 * k]) is Some && digit_value(s[2 * k + 1]) is Some);
        assert(bytes[k] == byte_of(s[2 * k], s[2 * k + 1]));
        assert(i == 2 * k || i == 2 * k + 1);
    }
    assert(lower_hex(bytes) =~= in_lower_case(s));
}

/// A text decodes exactly if it has 64 bytes and each of them is a digit, in either
/// case and in any mixture of them.
pub proof fn law_any_digits_decode(s: Seq<u8>)
    ensures
        hex32(s) is Some <==> s.len() == 64 && forall|i: int|
            0 <= i < s.len() ==> ({
                let b = #[trigger] s[i];
                0x30 <= b <= 0x39 || 0x61 <= b <= 0x66 || 0x41 <= b <= 0x46
            }),
{
    if s.len() == 64 && forall|i: int|
        0 <= i < s.len() ==> ({
            let b = #[trigger] s[i];
            0x30 <= b <= 0x39 || 0x61 <= b <= 0x66 || 0x41 <= b <= 0x46
        }) {
        assert(all_digits(s));
    }
    if hex32(s) is Some {
        assert forall|i: int| 0 <= i < s.len() implies ({
            let b = #[trigger] s[i];
            0x30 <= b <= 0x39 || 0x61 <= b <= 0x66 || 0x41 <= b <= 0x46
        }) by {
            assert(digit_value(s[i]) is Some);
        }
    }
}

/// The case of the digits makes no difference.
pub proof fn law_case_does_not_matter(s: Seq<u8>, t: Seq<u8>)
    requires
        in_lower_case(s) == in_lower_case(t),
        hex32(s) is Some,
        hex32(t) is Some,
    ensures
        hex32(s) == hex32(t),
{
    law_decoded_text_is_the_hex_of_its_bytes(s);
    law_decoded_text_is_the_hex_of_its_bytes(t);
    law_hex_round_trip(hex32(s)->0);
    law_hex_round_trip(hex32(t)->0);
}

/// What is wrong with a text that does not decode is its length, whatever its bytes
/// are, or else the leftmost byte that is no digit.
pub proof fn law_faults_are_leftmost(s: Seq<u8>, k: int)
    ensures
        s.len() != 64 && s.len() <= usize::MAX ==> hex_fault(s) == HexError::WrongLength(
            s.len() as usize,
        ),
        s.len() == 64 && 0 <= k < 64 && all_digits(s.take(k)) && digit_value(s[k]) is None
            ==> hex_fault(s) == HexError::NotADigit(s[k]),
{
    if s.len() == 64 && 0 <= k < 64 && all_digits(s.take(k)) && digit_value(s[k]) is None {
        lemma_leading_digits(s, k);
    }
}

/// Each digit has the value of its place among the digits of its kind.
pub proof fn law_digits_count_up(b: u8)
    ensures
        b == 0x30 || b == 0x61 || b == 0x41 ==> digit_value(b) == Some(
            if b == 0x30 {
                0int
            } else {
                10
            },
        ),
        0x30 <= b < 0x39 || 0x61 <= b < 0x66 || 0x41 <= b < 0x46 ==> digit_value((b + 1) as u8)
            == Some(digit_value(b)->0 + 1),
        digit_value(b) is Some <==> 0x30 <= b <= 0x39 || 0x61 <= b <= 0x66 || 0x41 <= b <= 0x46,
{
}

} // verus!
