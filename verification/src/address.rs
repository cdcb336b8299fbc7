use vstd::prelude::*;
use vstd::string::StrSliceExecFns;

use crate::errors::StartError;

verus! {

/// A miner address is written as 40 hexadecimal digits, without a prefix.
pub const AUTHOR_HEX_DIGITS: usize = 40;

/// Number of bytes of a miner address.
pub const AUTHOR_BYTES: usize = 20;

/// Whether `c` is a hexadecimal digit.
pub open spec fn is_hex_digit(c: char) -> bool {
    ('0' <= c && c <= '9') || ('a' <= c && c <= 'f') || ('A' <= c && c <= 'F')
}

/// The value of the hexadecimal digit `c`.
pub open spec fn hex_digit_value(c: char) -> u32
    recommends
        is_hex_digit(c),
{
    if '0' <= c && c <= '9' {
        (c as u32 - '0' as u32) as u32
    } else if 'a' <= c && c <= 'f' {
        (c as u32 - 'a' as u32 + 10) as u32
    } else {
        (c as u32 - 'A' as u32 + 10) as u32
    }
}

/// A well-formed miner address text: exactly 40 hexadecimal digits.
pub open spec fn valid_author_hex(s: Seq<char>) -> bool {
    s.len() == 40 && (forall|i: int| 0 <= i < s.len() ==> is_hex_digit(#[trigger] s[i]))
}

/// Byte `i` of the address written as `s`: two digits per byte, high first.
pub open spec fn author_byte(s: Seq<char>, i: int) -> u8
    recommends
        valid_author_hex(s),
        0 <= i < 20,
{
    (hex_digit_value(s[2 * i]) * 16 + hex_digit_value(s[2 * i + 1])) as u8
}

/// The 20 bytes of the address written as `s`.
pub open spec fn author_bytes(s: Seq<char>) -> Seq<u8> {
    Seq::new(20, |i: int| author_byte(s, i))
}

/// The all-zero address used when no author is configured and none is needed.
pub open spec fn zero_author_bytes() -> Seq<u8> {
    Seq::new(20, |i: int| 0u8)
}

/// The reward address of the block generator, as 20 raw bytes.
#[derive(Debug, PartialEq)]
pub struct MinerAddress {
    pub bytes: Vec<u8>,
}

impl MinerAddress {
    /// A well-formed address holds exactly 20 bytes.
    pub open spec fn wf(&self) -> bool {
        self.bytes@.len() == 20
    }

    /// The all-zero address.
    pub fn zero() -> (r: MinerAddress)
        ensures
            r.wf(),
            r.bytes@ == zero_author_bytes(),
    {
        let mut bytes: Vec<u8> = Vec::new();
        let mut i: usize = 0;
        while i < 20
            invariant
                i <= 20,
                bytes@.len() == i,
                forall|j: int| 0 <= j < i ==> bytes@[j] == 0u8,
            decreases 20 - i,
        {
            bytes.push(0u8);
            i = i + 1;
        }
        proof {
            assert(bytes@ =~= zero_author_bytes());
        }
        MinerAddress { bytes }
    }

    /// Decode a configured author: exactly 40 hexadecimal digits, two per
    /// byte. Anything else is rejected.
    pub fn from_hex(s: &str) -> (r: Option<MinerAddress>)
        ensures
            r is Some <==> valid_author_hex(s@),
            r matches Some(a) ==> a.wf() && a.bytes@ == author_bytes(s@),
    {
        let n = s.unicode_len();
        if n != 40 {
            return None;
        }
        let mut bytes: Vec<u8> = Vec::new();
        let mut i: usize = 0;
        while i < 20
            invariant
                s@.len() == 40,
                i <= 20,
                bytes@.len() == i,
                forall|j: int| 0 <= j < 2 * i ==> is_hex_digit(#[trigger] s@[j]),
                forall|j: int| 0 <= j < i ==> bytes@[j] == author_byte(s@, j),
            decreases 20 - i,
        {
            let hi = s.get_char(2 * i);
            let lo = s.get_char(2 * i + 1);
            let hv = match hex_value(hi) {
                Some(v) => v,
                None => {
                    return None;
                },
            };
            let lv = match hex_value(lo) {
                Some(v) => v,
                None => {
                    return None;
                },
            };
            bytes.push((hv * 16 + lv) as u8);
            i = i + 1;
        }
        proof {
            assert(bytes@ =~= author_bytes(s@));
        }
        Some(MinerAddress { bytes })
    }
}

/// The value of one hexadecimal digit, or nothing for any other character.
pub fn hex_value(c: char) -> (r: Option<u32>)
    ensures
        r is Some <==> is_hex_digit(c),
        r matches Some(v) ==> v == hex_digit_value(c) && v < 16,
{
    if '0' <= c && c <= '9' {
        Some(c as u32 - '0' as u32)
    } else if 'a' <= c && c <= 'f' {
        Some(c as u32 - 'a' as u32 + 10)
    } else if 'A' <= c && c <= 'F' {
        Some(c as u32 - 'A' as u32 + 10)
    } else {
        None
    }
}

/// Decode an optional configured author. A missing author is allowed (the
/// caller substitutes the zero address where one is needed); a present but
/// malformed author is a configuration error.
pub fn resolve_author(author: &Option<String>) -> (r: Result<Option<MinerAddress>, StartError>)
    ensures
        match *author {
            Some(ref s) => {
                &&& r matches Ok(Some(a)) ==> valid_author_hex(s@) && a.wf() && a.bytes@
                    == author_bytes(s@)
                &&& r matches Err(e) ==> e == StartError::ConfigurationError && !valid_author_hex(
                    s@,
                )
                &&& (r matches Ok(Some(_)) <==> valid_author_hex(s@))
                &&& !(r matches Ok(None))
            },
            None => r matches Ok(o) && o is None,
        },
{
    match author {
        Some(s) => match MinerAddress::from_hex(s.as_str()) {
            Some(a) => Ok(Some(a)),
            None => Err(StartError::ConfigurationError),
        },
        None => Ok(None),
    }
}

} // verus!
