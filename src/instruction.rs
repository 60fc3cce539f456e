use vstd::prelude::*;

verus! {

/// An 8-bit constant embedded in an opcode.
pub type Intermediate = u8;

/// A 12-bit memory address embedded in an opcode.
pub type Address = u16;

/// The number (0 to 15) of a general-purpose register.
pub type RegisterIdentifier = u8;

/// One decoded instruction of the CHIP-8 instruction set.
#[derive(Debug, Clone, Copy, PartialEq, Eq, Structural)]
pub enum Instruction {
    ClearScreen,
    /// Registers holding the x and y coordinates, and the sprite height.
    DrawSprite(RegisterIdentifier, RegisterIdentifier, u8),
    UnconditionalJump(Address),
    UnconditionalJumpWithOffset(Address),
    SetVxToIntermediate(RegisterIdentifier, Intermediate),
    AddIntermediateToVx(RegisterIdentifier, Intermediate),
    SetIndexRegisterToIntermediate(Address),
    SkipIfKeyPressedVx(RegisterIdentifier),
    SkipIfKeyNotPressedVx(RegisterIdentifier),
    AwaitKeyPressVx(RegisterIdentifier),
    ReturnFromSubroutine,
    CallSubroutine(Address),
    SkipIfVxIsIntermediate(RegisterIdentifier, Intermediate),
    SkipIfVxIsNotIntermediate(RegisterIdentifier, Intermediate),
    SkipIfVxIsNotVy(RegisterIdentifier, RegisterIdentifier),
    SkipIfVxIsVy(RegisterIdentifier, RegisterIdentifier),
    SetVxToVy(RegisterIdentifier, RegisterIdentifier),
    BitwiseOrVyToVx(RegisterIdentifier, RegisterIdentifier),
    BitwiseAndVyToVx(RegisterIdentifier, RegisterIdentifier),
    BitwiseXorVyToVx(RegisterIdentifier, RegisterIdentifier),
    AddVyToVx(RegisterIdentifier, RegisterIdentifier),
    SubtractVyFromVx(RegisterIdentifier, RegisterIdentifier),
    StoreLSBfromVxInVf(RegisterIdentifier),
    StoreMSBfromVxInVf(RegisterIdentifier),
    SetVxToVyMinusVx(RegisterIdentifier, RegisterIdentifier),
    GenerateRandomNumberWithCap(RegisterIdentifier, Intermediate),
    SetVxToDelayTimer(RegisterIdentifier),
    SetDelayTimerToVx(RegisterIdentifier),
    SetSoundTimerToVx(RegisterIdentifier),
    AddVxToI(RegisterIdentifier),
    SetIToSpriteLocation(RegisterIdentifier),
    StoreVxAsBCDInI(RegisterIdentifier),
    DumpRegisters(RegisterIdentifier),
    LoadRegisters(RegisterIdentifier),
    /// No instruction has this encoding.
    Unknown,
}

/// The opcode's top nibble, which selects the instruction group.
pub open spec fn opcode_group(w: u16) -> u16 {
    w >> 12u16
}

/// The register named by bits 8 to 11.
pub open spec fn opcode_x(w: u16) -> u8 {
    ((w >> 8u16) & 0xfu16) as u8
}

/// The register named by bits 4 to 7.
pub open spec fn opcode_y(w: u16) -> u8 {
    ((w >> 4u16) & 0xfu16) as u8
}

/// The lowest nibble.
pub open spec fn opcode_n(w: u16) -> u8 {
    (w & 0xfu16) as u8
}

/// The lowest byte.
pub open spec fn opcode_kk(w: u16) -> u8 {
    (w & 0xffu16) as u8
}

/// The lowest 12 bits, an address.
pub open spec fn opcode_nnn(w: u16) -> u16 {
    w & 0xfffu16
}

/// The instruction that the 16-bit word `w` encodes: the CHIP-8 opcode table.
pub open spec fn decode_spec(w: u16) -> Instruction {
    let x = opcode_x(w);
    let y = opcode_y(w);
    let n = opcode_n(w);
    let kk = opcode_kk(w);
    let nnn = opcode_nnn(w);
    let group = opcode_group(w);
    if group == 0x0 {
        if w == 0x00e0 {
            Instruction::ClearScreen
        } else if w == 0x00ee {
            Instruction::ReturnFromSubroutine
        } else {
            Instruction::Unknown
        }
    } else if group == 0x1 {
        Instruction::UnconditionalJump(nnn)
    } else if group == 0x2 {
        Instruction::CallSubroutine(nnn)
    } else if group == 0x3 {
        Instruction::SkipIfVxIsIntermediate(x, kk)
    } else if group == 0x4 {
        Instruction::SkipIfVxIsNotIntermediate(x, kk)
    } else if group == 0x5 {
        if n == 0 {
            Instruction::SkipIfVxIsVy(x, y)
        } else {
            Instruction::Unknown
        }
    } else if group == 0x6 {
        Instruction::SetVxToIntermediate(x, kk)
    } else if group == 0x7 {
        Instruction::AddIntermediateToVx(x, kk)
    } else if group == 0x8 {
        if n == 0x0 {
            Instruction::SetVxToVy(x, y)
        } else if n == 0x1 {
            Instruction::BitwiseOrVyToVx(x, y)
        } else if n == 0x2 {
            Instruction::BitwiseAndVyToVx(x, y)
        } else if n == 0x3 {
            Instruction::BitwiseXorVyToVx(x, y)
        } else if n == 0x4 {
            Instruction::AddVyToVx(x, y)
        } else if n == 0x5 {
            Instruction::SubtractVyFromVx(x, y)
        } else if n == 0x6 {
            Instruction::StoreLSBfromVxInVf(x)
        } else if n == 0x7 {
            Instruction::SetVxToVyMinusVx(x, y)
        } else if n == 0xe {
            Instruction::StoreMSBfromVxInVf(x)
        } else {
            Instruction::Unknown
        }
    } else if group == 0x9 {
        if n == 0 {
            Instruction::SkipIfVxIsNotVy(x, y)
        } else {
            Instruction::Unknown
        }
    } else if group == 0xa {
        Instruction::SetIndexRegisterToIntermediate(nnn)
    } else if group == 0xb {
        Instruction::UnconditionalJumpWithOffset(nnn)
    } else if group == 0xc {
        Instruction::GenerateRandomNumberWithCap(x, kk)
    } else if group == 0xd {
        Instruction::DrawSprite(x, y, n)
    } else if group == 0xe {
        if kk == 0x9e {
            Instruction::SkipIfKeyPressedVx(x)
        } else if kk == 0xa1 {
            Instruction::SkipIfKeyNotPressedVx(x)
        } else {
            Instruction::Unknown
        }
    } else {
        if kk == 0x07 {
            Instruction::SetVxToDelayTimer(x)
        } else if kk == 0x0a {
            Instruction::AwaitKeyPressVx(x)
        } else if kk == 0x15 {
            Instruction::SetDelayTimerToVx(x)
        } else if kk == 0x18 {
            Instruction::SetSoundTimerToVx(x)
        } else if kk == 0x1e {
            Instruction::AddVxToI(x)
        } else if kk == 0x29 {
            Instruction::SetIToSpriteLocation(x)
        } else if kk == 0x33 {
            Instruction::StoreVxAsBCDInI(x)
        } else if kk == 0x55 {
            Instruction::DumpRegisters(x)
        } else if kk == 0x65 {
            Instruction::LoadRegisters(x)
        } else {
            Instruction::Unknown
        }
    }
}

impl Instruction {
    /// Every register number names one of the 16 registers, every address
    /// fits in 12 bits and every sprite height in 4 bits.
    pub open spec fn wf(self) -> bool {
        match self {
            Instruction::DrawSprite(x, y, n) => x < 16 && y < 16 && n < 16,
            Instruction::UnconditionalJump(a) => a < 0x1000,
            Instruction::UnconditionalJumpWithOffset(a) => a < 0x1000,
            Instruction::SetIndexRegisterToIntermediate(a) => a < 0x1000,
            Instruction::CallSubroutine(a) => a < 0x1000,
            Instruction::SetVxToIntermediate(x, _) => x < 16,
            Instruction::AddIntermediateToVx(x, _) => x < 16,
            Instruction::SkipIfVxIsIntermediate(x, _) => x < 16,
            Instruction::SkipIfVxIsNotIntermediate(x, _) => x < 16,
            Instruction::GenerateRandomNumberWithCap(x, _) => x < 16,
            Instruction::SkipIfKeyPressedVx(x) => x < 16,
            Instruction::SkipIfKeyNotPressedVx(x) => x < 16,
            Instruction::AwaitKeyPressVx(x) => x < 16,
            Instruction::StoreLSBfromVxInVf(x) => x < 16,
            Instruction::StoreMSBfromVxInVf(x) => x < 16,
            Instruction::SetVxToDelayTimer(x) => x < 16,
            Instruction::SetDelayTimerToVx(x) => x < 16,
            Instruction::SetSoundTimerToVx(x) => x < 16,
            Instruction::AddVxToI(x) => x < 16,
            Instruction::SetIToSpriteLocation(x) => x < 16,
            Instruction::StoreVxAsBCDInI(x) => x < 16,
            Instruction::DumpRegisters(x) => x < 16,
            Instruction::LoadRegisters(x) => x < 16,
            Instruction::SkipIfVxIsNotVy(x, y) => x < 16 && y < 16,
            Instruction::SkipIfVxIsVy(x, y) => x < 16 && y < 16,
            Instruction::SetVxToVy(x, y) => x < 16 && y < 16,
            Instruction::BitwiseOrVyToVx(x, y) => x < 16 && y < 16,
            Instruction::BitwiseAndVyToVx(x, y) => x < 16 && y < 16,
            Instruction::BitwiseXorVyToVx(x, y) => x < 16 && y < 16,
            Instruction::AddVyToVx(x, y) => x < 16 && y < 16,
            Instruction::SubtractVyFromVx(x, y) => x < 16 && y < 16,
            Instruction::SetVxToVyMinusVx(x, y) => x < 16 && y < 16,
            Instruction::ClearScreen | Instruction::ReturnFromSubroutine
            | Instruction::Unknown => true,
        }
    }
}

proof fn lemma_fields_bounded(w: u16)
    ensures
        opcode_x(w) < 16,
        opcode_y(w) < 16,
        opcode_n(w) < 16,
        opcode_nnn(w) < 0x1000,
{
    assert((w >> 8u16) & 0xfu16 < 16) by (bit_vector);
    assert((w >> 4u16) & 0xfu16 < 16) by (bit_vector);
    assert(w & 0xfu16 < 16) by (bit_vector);
    assert(w & 0xfffu16 < 0x1000) by (bit_vector);
}

/// Every decoded instruction is well formed.
pub proof fn lemma_decode_wf(w: u16)
    ensures
        decode_spec(w).wf(),
{
    lemma_fields_bounded(w);
}

/// Decodes one 16-bit instruction word.
pub fn decode(instruction: u16) -> (r: Instruction)
    ensures
        r == decode_spec(instruction),
        r.wf(),
{
    proof {
        lemma_decode_wf(instruction);
    }
    let x = ((instruction >> 8u16) & 0xfu16) as u8;
    let y = ((instruction >> 4u16) & 0xfu16) as u8;
    let n = (instruction & 0xfu16) as u8;
    let kk = (instruction & 0xffu16) as u8;
    let nnn = instruction & 0xfffu16;
    match instruction >> 12u16 {
        0x0 => {
            if instruction == 0x00e0 {
                Instruction::ClearScreen
            } else if instruction == 0x00ee {
                Instruction::ReturnFromSubroutine
            } else {
                Instruction::Unknown
            }
        },
        0x1 => Instruction::UnconditionalJump(nnn),
        0x2 => Instruction::CallSubroutine(nnn),
        0x3 => Instruction::SkipIfVxIsIntermediate(x, kk),
        0x4 => Instruction::SkipIfVxIsNotIntermediate(x, kk),
        0x5 => {
            if n == 0 {
                Instruction::SkipIfVxIsVy(x, y)
            } else {
                Instruction::Unknown
            }
        },
        0x6 => Instruction::SetVxToIntermediate(x, kk),
        0x7 => Instruction::AddIntermediateToVx(x, kk),
        0x8 => match n {
            0x0 => Instruction::SetVxToVy(x, y),
            0x1 => Instruction::BitwiseOrVyToVx(x, y),
            0x2 => Instruction::BitwiseAndVyToVx(x, y),
            0x3 => Instruction::BitwiseXorVyToVx(x, y),
            0x4 => Instruction::AddVyToVx(x, y),
            0x5 => Instruction::SubtractVyFromVx(x, y),
            0x6 => Instruction::StoreLSBfromVxInVf(x),
            0x7 => Instruction::SetVxToVyMinusVx(x, y),
            0xe => Instruction::StoreMSBfromVxInVf(x),
            _ => Instruction::Unknown,
        },
        0x9 => {
            if n == 0 {
                Instruction::SkipIfVxIsNotVy(x, y)
            } else {
                Instruction::Unknown
            }
        },
        0xa => Instruction::SetIndexRegisterToIntermediate(nnn),
        0xb => Instruction::UnconditionalJumpWithOffset(nnn),
        0xc => Instruction::GenerateRandomNumberWithCap(x, kk),
        0xd => Instruction::DrawSprite(x, y, n),
        0xe => match kk {
            0x9e => Instruction::SkipIfKeyPressedVx(x),
            0xa1 => Instruction::SkipIfKeyNotPressedVx(x),
            _ => Instruction::Unknown,
        },
        _ => match kk {
            0x07 => Instruction::SetVxToDelayTimer(x),
            0x0a => Instruction::AwaitKeyPressVx(x),
            0x15 => Instruction::SetDelayTimerToVx(x),
            0x18 => Instruction::SetSoundTimerToVx(x),
            0x1e => Instruction::AddVxToI(x),
            0x29 => Instruction::SetIToSpriteLocation(x),
            0x33 => Instruction::StoreVxAsBCDInI(x),
            0x55 => Instruction::DumpRegisters(x),
            0x65 => Instruction::LoadRegisters(x),
            _ => Instruction::Unknown,
        },
    }
}

} // verus!
