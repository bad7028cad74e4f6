//! Instruction codes of the ST7789 controller.

use vstd::prelude::*;

verus! {

/// The controller instructions the driver issues.
#[allow(non_camel_case_types)]
#[derive(Copy, Clone, Debug, PartialEq, Eq, Structural)]
pub enum Instruction {
    NOP,
    SWRESET,
    RDDID,
    RDDST,
    SLPIN,
    SLPOUT,
    PTLON,
    NORON,
    INVOFF,
    INVON,
    DISPOFF,
    DISPON,
    CASET,
    RASET,
    RAMWR,
    RAMRD,
    PTLAR,
    VSCRDER,
    TEOFF,
    TEON,
    MADCTL,
    VSCAD,
    COLMOD,
    VCMOFSET,
}

impl Instruction {
    /// The command byte that selects this instruction on the wire.
    pub open spec fn spec_code(self) -> u8 {
        match self {
            Instruction::NOP => 0x00,
            Instruction::SWRESET => 0x01,
            Instruction::RDDID => 0x04,
            Instruction::RDDST => 0x09,
            Instruction::SLPIN => 0x10,
            Instruction::SLPOUT => 0x11,
            Instruction::PTLON => 0x12,
            Instruction::NORON => 0x13,
            Instruction::INVOFF => 0x20,
            Instruction::INVON => 0x21,
            Instruction::DISPOFF => 0x28,
            Instruction::DISPON => 0x29,
            Instruction::CASET => 0x2A,
            Instruction::RASET => 0x2B,
            Instruction::RAMWR => 0x2C,
            Instruction::RAMRD => 0x2E,
            Instruction::PTLAR => 0x30,
            Instruction::VSCRDER => 0x33,
            Instruction::TEOFF => 0x34,
            Instruction::TEON => 0x35,
            Instruction::MADCTL => 0x36,
            Instruction::VSCAD => 0x37,
            Instruction::COLMOD => 0x3A,
            Instruction::VCMOFSET => 0xC5,
        }
    }

    /// The command byte that selects this instruction on the wire.
    #[verifier::when_used_as_spec(spec_code)]
    pub fn code(self) -> (c: u8)
        ensures
            c == self.spec_code(),
    {
        match self {
            Instruction::NOP => 0x00,
            Instruction::SWRESET => 0x01,
            Instruction::RDDID => 0x04,
            Instruction::RDDST => 0x09,
            Instruction::SLPIN => 0x10,
            Instruction::SLPOUT => 0x11,
            Instruction::PTLON => 0x12,
            Instruction::NORON => 0x13,
            Instruction::INVOFF => 0x20,
            Instruction::INVON => 0x21,
            Instruction::DISPOFF => 0x28,
            Instruction::DISPON => 0x29,
            Instruction::CASET => 0x2A,
            Instruction::RASET => 0x2B,
            Instruction::RAMWR => 0x2C,
            Instruction::RAMRD => 0x2E,
            Instruction::PTLAR => 0x30,
            Instruction::VSCRDER => 0x33,
            Instruction::TEOFF => 0x34,
            Instruction::TEON => 0x35,
            Instruction::MADCTL => 0x36,
            Instruction::VSCAD => 0x37,
            Instruction::COLMOD => 0x3A,
            Instruction::VCMOFSET => 0xC5,
        }
    }
}

} // verus!
