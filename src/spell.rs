use vstd::prelude::*;
use crate::byte::BitNumber;

verus! {

/// One of the eight spells; each is known by one bit of the spell memory.
pub struct Spell {
    pub name: &'static str,
    pub description: &'static str,
    pub bit: BitNumber,
}

/// The spell known by bit `bit` of the spell memory.
pub fn spell(bit: BitNumber) -> (r: Spell)
    ensures
        r.bit == bit,
{
    match bit {
        BitNumber::Bit0 => Spell {
            name: "ONE",
            description: "Writes 0x01 to the selected address.",
            bit: BitNumber::Bit0,
        },
        BitNumber::Bit1 => Spell {
            name: "CLO",
            description: "Clear the leftmost 1 bit of the target value.",
            bit: BitNumber::Bit1,
        },
        BitNumber::Bit2 => Spell {
            name: "INC",
            description: "Increment the target value, wrapping from 0xFF to 0x00 on overflow.",
            bit: BitNumber::Bit2,
        },
        BitNumber::Bit3 => Spell {
            name: "CPN",
            description: "Set the target value to that of the byte after it in memory, cycling from 0x3F back to 0x00.",
            bit: BitNumber::Bit3,
        },
        BitNumber::Bit4 => Spell {
            name: "A9D",
            description: "Add 0x9D to the target value, wrapping on overflow. In decimal, this is 157 (unsigned) or -99 (signed).",
            bit: BitNumber::Bit4,
        },
        BitNumber::Bit5 => Spell {
            name: "REV",
            description: "Reverses the bits of the target value.",
            bit: BitNumber::Bit5,
        },
        BitNumber::Bit6 => Spell {
            name: "WLN",
            description: "Rewrite the lower nibble of the target value freely.",
            bit: BitNumber::Bit6,
        },
        BitNumber::Bit7 => Spell {
            name: "WHN",
            description: "Rewrite the higher nibble of the target value freely.",
            bit: BitNumber::Bit7,
        },
    }
}

} // verus!
