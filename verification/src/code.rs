//! The command codes of the protocol and the reply length that each one fixes.

use vstd::prelude::*;

verus! {

/// What a command asks of the device.
///
/// Five codes are known. Any other 16-bit value is kept as `Unknown`, with
/// its high and low byte, so that nothing read from the wire is lost.
#[derive(Copy, Clone, Debug, PartialEq, Eq, Structural)]
pub enum Code {
    ReadInput,
    SetOutput,
    SetAddress,
    ReadAddress,
    ReadFWVersion,
    Unknown(u8, u8),
}

/// The value that stands for a code which has none of its own.
pub const NO_CODE: u16 = 0xFFFF;

/// `value` is one of the five values of the code table.
pub open spec fn in_table(value: u16) -> bool {
    value == 0x0101 || value == 0xFF01 || value == 0xFF03 || value == 0xFF04 || value == 0x400A
}

/// The 16-bit value with high byte `high` and low byte `low`.
pub open spec fn join(high: u8, low: u8) -> u16 {
    (high as int * 256 + low as int) as u16
}

/// The code that a 16-bit value read from the wire stands for.
pub open spec fn code_of(value: u16) -> Code {
    if value == 0x0101 {
        Code::ReadInput
    } else if value == 0xFF01 {
        Code::SetOutput
    } else if value == 0xFF03 {
        Code::SetAddress
    } else if value == 0xFF04 {
        Code::ReadAddress
    } else if value == 0x400A {
        Code::ReadFWVersion
    } else {
        Code::Unknown((value / 256) as u8, (value % 256) as u8)
    }
}

/// The 16-bit value that a code is sent as.
///
/// An `Unknown` code is sent as the two bytes it holds. One that holds a value
/// of the table can not have been read from the wire, where that value stands
/// for a known code; it is sent as [`NO_CODE`].
pub open spec fn value_of(code: Code) -> u16 {
    match code {
        Code::ReadInput => 0x0101,
        Code::SetOutput => 0xFF01,
        Code::SetAddress => 0xFF03,
        Code::ReadAddress => 0xFF04,
        Code::ReadFWVersion => 0x400A,
        Code::Unknown(high, low) => if in_table(join(high, low)) {
            NO_CODE
        } else {
            join(high, low)
        },
    }
}

/// The number of bytes of the reply that the device owes to a command with
/// this code, or 0 where no reply of a fixed length is owed.
pub open spec fn reply_len(code: Code) -> u32 {
    match code {
        Code::SetAddress => 15,
        Code::ReadInput => 15,
        Code::SetOutput => 14,
        Code::ReadFWVersion => 18,
        Code::ReadAddress => 18,
        Code::Unknown(_, _) => 0,
    }
}

impl Code {
    /// The code is one that reading from the wire can give: a known code, or
    /// an `Unknown` whose value is not in the table.
    pub open spec fn canonical(self) -> bool {
        match self {
            Code::Unknown(high, low) => !in_table(join(high, low)),
            _ => true,
        }
    }
}

/// The length in bytes of the reply to a command with the given code; 0 for a
/// code to which no reply of a fixed length is owed.
pub fn expected_response_len(code: Code) -> (len: u32)
    ensures
        len == reply_len(code),
{
    match code {
        Code::SetAddress => 15,
        Code::ReadInput => 15,
        Code::SetOutput => 14,
        Code::ReadFWVersion => 18,
        Code::ReadAddress => 18,
        _ => 0,
    }
}

impl From<u16> for Code {
    /// Reads a code from its 16-bit value.
    fn from(num: u16) -> (code: Code) {
        if num == 0x0101 {
            Code::ReadInput
        } else if num == 0xFF01 {
            Code::SetOutput
        } else if num == 0xFF03 {
            Code::SetAddress
        } else if num == 0xFF04 {
            Code::ReadAddress
        } else if num == 0x400A {
            Code::ReadFWVersion
        } else {
            Code::Unknown((num / 256) as u8, (num % 256) as u8)
        }
    }
}

impl vstd::std_specs::convert::FromSpecImpl<u16> for Code {
    open spec fn obeys_from_spec() -> bool {
        true
    }

    open spec fn from_spec(num: u16) -> Code {
        code_of(num)
    }
}

impl From<(u8, u8)> for Code {
    /// Reads a code from its two bytes, the high one first.
    fn from(code: (u8, u8)) -> (out: Code) {
        let (first, second) = code;
        let num: u16 = first as u16 * 256 + second as u16;
        Code::from(num)
    }
}

impl vstd::std_specs::convert::FromSpecImpl<(u8, u8)> for Code {
    open spec fn obeys_from_spec() -> bool {
        true
    }

    open spec fn from_spec(code: (u8, u8)) -> Code {
        code_of(join(code.0, code.1))
    }
}

impl From<Code> for u16 {
    /// The 16-bit value that the code is sent as.
    fn from(code: Code) -> (num: u16) {
        match code {
            Code::ReadInput => 0x0101,
            Code::SetOutput => 0xFF01,
            Code::SetAddress => 0xFF03,
            Code::ReadAddress => 0xFF04,
            Code::ReadFWVersion => 0x400A,
            Code::Unknown(high, low) => {
                let num: u16 = high as u16 * 256 + low as u16;
                if num == 0x0101 || num == 0xFF01 || num == 0xFF03 || num == 0xFF04 || num
                    == 0x400A {
                    NO_CODE
                } else {
                    num
                }
            },
        }
    }
}

impl vstd::std_specs::convert::FromSpecImpl<Code> for u16 {
    open spec fn obeys_from_spec() -> bool {
        true
    }

    open spec fn from_spec(code: Code) -> u16 {
        value_of(code)
    }
}

/// Every 16-bit value survives being read as a code and sent again.
pub proof fn lemma_value_round_trip(value: u16)
    ensures
        code_of(value).canonical(),
        value_of(code_of(value)) == value,
{
}

/// Every code that reading can give survives being sent and read again.
pub proof fn lemma_code_round_trip(code: Code)
    requires
        code.canonical(),
    ensures
        code_of(value_of(code)) == code,
{
}

/// A code that reading can not give is sent as `NO_CODE`, and read back as
/// the unknown code 0xFFFF.
pub proof fn lemma_synthetic_code_is_lost(code: Code)
    requires
        !code.canonical(),
    ensures
        value_of(code) == NO_CODE,
        code_of(value_of(code)) == Code::Unknown(0xFF, 0xFF),
{
}

/// A reply of a fixed length is owed to the five known codes and to no other.
pub proof fn lemma_reply_owed_to_known_codes(code: Code)
    ensures
        reply_len(code) == 0 <==> code is Unknown,
        reply_len(code) != 0 ==> 14 <= reply_len(code) <= 18,
{
}

} // verus!
