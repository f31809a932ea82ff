use vstd::prelude::*;

verus! {

/// One of the eight bits of a byte.
#[derive(Clone, Copy, Debug, PartialEq, Eq, Structural)]
pub enum BitNumber {
    Bit0,
    Bit1,
    Bit2,
    Bit3,
    Bit4,
    Bit5,
    Bit6,
    Bit7,
}

impl BitNumber {
    /// The position of the bit, 0 for the least significant.
    pub open spec fn index(self) -> nat {
        match self {
            BitNumber::Bit0 => 0,
            BitNumber::Bit1 => 1,
            BitNumber::Bit2 => 2,
            BitNumber::Bit3 => 3,
            BitNumber::Bit4 => 4,
            BitNumber::Bit5 => 5,
            BitNumber::Bit6 => 6,
            BitNumber::Bit7 => 7,
        }
    }

    /// The byte with only this bit set.
    pub open spec fn mask_spec(self) -> u8 {
        match self {
            BitNumber::Bit0 => 0x01,
            BitNumber::Bit1 => 0x02,
            BitNumber::Bit2 => 0x04,
            BitNumber::Bit3 => 0x08,
            BitNumber::Bit4 => 0x10,
            BitNumber::Bit5 => 0x20,
            BitNumber::Bit6 => 0x40,
            BitNumber::Bit7 => 0x80,
        }
    }

    pub fn from_number(n: usize) -> (r: BitNumber)
        requires
            n < 8,
        ensures
            r.index() == n,
    {
        match n {
            0 => BitNumber::Bit0,
            1 => BitNumber::Bit1,
            2 => BitNumber::Bit2,
            3 => BitNumber::Bit3,
            4 => BitNumber::Bit4,
            5 => BitNumber::Bit5,
            6 => BitNumber::Bit6,
            _ => BitNumber::Bit7,
        }
    }

    pub fn number(self) -> (r: usize)
        ensures
            r == self.index(),
    {
        match self {
            BitNumber::Bit0 => 0,
            BitNumber::Bit1 => 1,
            BitNumber::Bit2 => 2,
            BitNumber::Bit3 => 3,
            BitNumber::Bit4 => 4,
            BitNumber::Bit5 => 5,
            BitNumber::Bit6 => 6,
            BitNumber::Bit7 => 7,
        }
    }

    pub fn mask(self) -> (r: u8)
        ensures
            r == self.mask_spec(),
            r as nat == vstd::arithmetic::power2::pow2(self.index()),
    {
        proof {
            vstd::arithmetic::power2::lemma2_to64();
        }
        match self {
            BitNumber::Bit0 => 0b00000001,
            BitNumber::Bit1 => 0b00000010,
            BitNumber::Bit2 => 0b00000100,
            BitNumber::Bit3 => 0b00001000,
            BitNumber::Bit4 => 0b00010000,
            BitNumber::Bit5 => 0b00100000,
            BitNumber::Bit6 => 0b01000000,
            BitNumber::Bit7 => 0b10000000,
        }
    }

    /// The digit that shows the bit's position.
    pub fn char(self) -> (r: char)
        ensures
            r as nat == '0' as nat + self.index(),
    {
        match self {
            BitNumber::Bit0 => '0',
            BitNumber::Bit1 => '1',
            BitNumber::Bit2 => '2',
            BitNumber::Bit3 => '3',
            BitNumber::Bit4 => '4',
            BitNumber::Bit5 => '5',
            BitNumber::Bit6 => '6',
            BitNumber::Bit7 => '7',
        }
    }
}

/// Whether `bit` is set in `byte`.
pub fn get(byte: u8, bit: BitNumber) -> (r: bool)
    ensures
        r == (byte & bit.mask_spec() != 0),
{
    byte & bit.mask() != 0u8
}

/// `byte` with `bit` toggled.
pub fn flip(byte: u8, bit: BitNumber) -> (r: u8)
    ensures
        r == byte ^ bit.mask_spec(),
{
    byte ^ bit.mask()
}

} // verus!
