//! The address of a device as it is typed: its serial number in hexadecimal
//! digits.

use vstd::prelude::*;
use vstd::string::StringExecFns;

verus! {

/// The number that `text` stands for in hexadecimal digits, as
/// `u32::from_str_radix` reads it with radix 16; nothing where it reads none.
pub uninterp spec fn hex_u32(text: Seq<char>) -> Option<u32>;

/// `u32::from_str_radix` with radix 16 reads a number from text; it is a
/// function of the text alone. Where it reports an error, nothing is returned.
#[verifier::external_body]
pub(crate) fn read_hex(text: &str) -> (value: Option<u32>)
    ensures
        value == hex_u32(text@),
{
    u32::from_str_radix(text, 16).ok()
}

/// The address that stands after `typed` was typed over `valid`, where
/// `value` is what `typed` reads as: what was typed where it reads as a serial
/// number, else what stood there before.
pub open spec fn settled_address(typed: Seq<char>, value: Option<u32>, valid: Seq<char>) -> Seq<
    char,
> {
    if typed.len() > 0 && value is Some {
        typed
    } else {
        valid
    }
}

/// Whether `text` is the address of a device.
pub fn is_address_valid(text: &str) -> (valid: bool)
    ensures
        valid == hex_u32(text@) is Some,
{
    read_hex(text).is_some()
}

/// Decides what stands for the address once `typed` was read as `value`.
pub fn settle_address(typed: &str, value: Option<u32>, valid: &str) -> (address: String)
    ensures
        address@ == settled_address(typed@, value, valid@),
{
    if !typed.is_empty() {
        match value {
            Some(_) => String::from_str(typed),
            None => String::from_str(valid),
        }
    } else {
        String::from_str(valid)
    }
}

/// Takes what was typed for the address: it stands where it is a serial
/// number, and `valid` stands where it is none or nothing was typed.
pub fn manage_address_input(typed: &str, valid: &str) -> (address: String)
    ensures
        address@ == settled_address(typed@, hex_u32(typed@), valid@),
{
    settle_address(typed, read_hex(typed), valid)
}

/// The sixteen hexadecimal digits, in order; the letters are capitals.
pub open spec fn hex_digits() -> Seq<char> {
    seq!['0', '1', '2', '3', '4', '5', '6', '7', '8', '9', 'A', 'B', 'C', 'D', 'E', 'F']
}

/// What the digit at place `i` of eight counts, the places taken from the
/// left: a power of sixteen.
pub open spec fn place_value(i: int) -> int {
    if i == 0 {
        0x1000_0000
    } else if i == 1 {
        0x100_0000
    } else if i == 2 {
        0x10_0000
    } else if i == 3 {
        0x1_0000
    } else if i == 4 {
        0x1000
    } else if i == 5 {
        0x100
    } else if i == 6 {
        0x10
    } else {
        1
    }
}

/// The address of the device with serial number `serial` as it is shown:
/// eight hexadecimal digits, the highest first, with zeros in front.
pub open spec fn address_text_of(serial: u32) -> Seq<char> {
    Seq::new(8, |i: int| hex_digits()[serial as int / place_value(i) % 16])
}

/// The hexadecimal digit for a value below sixteen.
fn digit(value: u32) -> (text: &'static str)
    requires
        value < 16,
    ensures
        text@ == seq![hex_digits()[value as int]],
{
    proof {
        reveal_strlit("0");
        reveal_strlit("1");
        reveal_strlit("2");
        reveal_strlit("3");
        reveal_strlit("4");
        reveal_strlit("5");
        reveal_strlit("6");
        reveal_strlit("7");
        reveal_strlit("8");
        reveal_strlit("9");
        reveal_strlit("A");
        reveal_strlit("B");
        reveal_strlit("C");
        reveal_strlit("D");
        reveal_strlit("E");
        reveal_strlit("F");
    }
    match value {
        0 => "0",
        1 => "1",
        2 => "2",
        3 => "3",
        4 => "4",
        5 => "5",
        6 => "6",
        7 => "7",
        8 => "8",
        9 => "9",
        10 => "A",
        11 => "B",
        12 => "C",
        13 => "D",
        14 => "E",
        _ => "F",
    }
}

/// Writes the address of the device with serial number `serial` as it is
/// shown.
pub fn address_text(serial: u32) -> (text: String)
    ensures
        text@ == address_text_of(serial),
{
    let mut text: String = String::new();
    let mut place: u32 = 0x1000_0000;
    let mut i: usize = 0;
    while i < 8
        invariant
            i <= 8,
            i < 8 ==> place == place_value(i as int),
            text@ == address_text_of(serial).take(i as int),
        decreases 8 - i,
    {
        let value: u32 = serial / place % 16;
        text.append(digit(value));
        assert(text@ =~= address_text_of(serial).take(i + 1));
        place = place / 16;
        i += 1;
    }
    text
}

} // verus!
