//! The instruction set: a tagged decode of the 16-bit opcode words into a
//! sum type over the instruction forms and their operands.
//!
//! An opcode is fetched big-endian from two consecutive memory bytes; its
//! four nibbles select the instruction family and carry the operands: X and
//! Y name registers, NN is an immediate byte, NNN an address, N a sprite
//! height.  Any word matching no pattern below is an illegal instruction.

use vstd::prelude::*;
use crate::state::VmError;

verus! {

/// One decoded instruction with its operands.
#[derive(Clone, Copy, PartialEq, Eq, Structural, Debug)]
pub enum Instruction {
    /// 00E0: clear the framebuffer.
    ClearScreen,
    /// 00EE: return from a subroutine.
    Return,
    /// 1NNN: jump to NNN.
    Jump { nnn: u16 },
    /// 2NNN: call the subroutine at NNN.
    Call { nnn: u16 },
    /// 3XNN: skip the next instruction if VX equals NN.
    SkipEqImm { x: u8, nn: u8 },
    /// 4XNN: skip the next instruction if VX does not equal NN.
    SkipNeImm { x: u8, nn: u8 },
    /// 5XY0: skip the next instruction if VX equals VY.
    SkipEqReg { x: u8, y: u8 },
    /// 6XNN: set VX to NN.
    SetImm { x: u8, nn: u8 },
    /// 7XNN: add NN to VX, wrapping, with no flag change.
    AddImm { x: u8, nn: u8 },
    /// 8XY0: set VX to VY.
    Assign { x: u8, y: u8 },
    /// 8XY1: set VX to VX or VY.
    Or { x: u8, y: u8 },
    /// 8XY2: set VX to VX and VY.
    And { x: u8, y: u8 },
    /// 8XY3: set VX to VX xor VY.
    Xor { x: u8, y: u8 },
    /// 8XY4: add VY to VX; VF reports the carry.
    AddReg { x: u8, y: u8 },
    /// 8XY5: subtract VY from VX; VF reports the borrow.
    SubReg { x: u8, y: u8 },
    /// 8XY6: store the low bit of VX in VF, then halve VX.
    ShiftRight { x: u8 },
    /// 8XY7: set VX to VY minus VX; VF reports the borrow.
    SubRev { x: u8, y: u8 },
    /// 8XYE: store the masked high bit of VX in VF, then double VX.
    ShiftLeft { x: u8 },
    /// 9XY0: skip the next instruction if VX does not equal VY.
    SkipNeReg { x: u8, y: u8 },
    /// ANNN: set I to NNN.
    SetIndex { nnn: u16 },
    /// BNNN: set I to NNN plus V0.
    IndexV0 { nnn: u16 },
    /// CXNN: set VX to a random byte bitwise-and NN.
    Random { x: u8, nn: u8 },
    /// DXYN: draw the N-row sprite at I at position (VX, VY).
    Draw { x: u8, y: u8, n: u8 },
    /// EX9E: skip the next instruction if key VX is pressed.
    SkipKeyPressed { x: u8 },
    /// EXA1: skip the next instruction if key VX is not pressed.
    SkipKeyNotPressed { x: u8 },
    /// FX07: set VX to the delay timer.
    GetDelay { x: u8 },
    /// FX0A: wait for a key press and store the key in VX.
    WaitKey { x: u8 },
    /// FX15: set the delay timer to VX.
    SetDelay { x: u8 },
    /// FX18: set the sound timer to VX.
    SetSound { x: u8 },
    /// FX1E: add VX to I, with no flag change.
    AddIndex { x: u8 },
    /// FX29: set I to the font glyph address for the digit in VX.
    FontAddr { x: u8 },
    /// FX33: store the decimal digits of VX at I, I+1 and I+2.
    StoreBcd { x: u8 },
    /// FX55: store V0 through VX in memory starting at I.
    DumpRegs { x: u8 },
    /// FX65: fill V0 through VX from memory starting at I.
    LoadRegs { x: u8 },
}

/// The X operand: the second nibble.
pub open spec fn op_x(op: u16) -> u8 {
    (((op >> 8) & 0xF)) as u8
}

/// The Y operand: the third nibble.
pub open spec fn op_y(op: u16) -> u8 {
    (((op >> 4) & 0xF)) as u8
}

/// The N operand: the low nibble.
pub open spec fn op_n(op: u16) -> u8 {
    ((op & 0xF)) as u8
}

/// The NN operand: the low byte.
pub open spec fn op_nn(op: u16) -> u8 {
    ((op & 0xFF)) as u8
}

/// The NNN operand: the low twelve bits.
pub open spec fn op_nnn(op: u16) -> u16 {
    op & 0xFFF
}

/// Every operand of a decoded instruction is in range: register numbers
/// and sprite heights are nibbles, addresses are twelve bits.
pub open spec fn instruction_wf(ins: Instruction) -> bool {
    match ins {
        Instruction::Jump { nnn } => nnn <= 0xFFF,
        Instruction::Call { nnn } => nnn <= 0xFFF,
        Instruction::SetIndex { nnn } => nnn <= 0xFFF,
        Instruction::IndexV0 { nnn } => nnn <= 0xFFF,
        Instruction::SkipEqImm { x, nn } => x < 16,
        Instruction::SkipNeImm { x, nn } => x < 16,
        Instruction::SetImm { x, nn } => x < 16,
        Instruction::AddImm { x, nn } => x < 16,
        Instruction::Random { x, nn } => x < 16,
        Instruction::SkipEqReg { x, y } => x < 16 && y < 16,
        Instruction::SkipNeReg { x, y } => x < 16 && y < 16,
        Instruction::Assign { x, y } => x < 16 && y < 16,
        Instruction::Or { x, y } => x < 16 && y < 16,
        Instruction::And { x, y } => x < 16 && y < 16,
        Instruction::Xor { x, y } => x < 16 && y < 16,
        Instruction::AddReg { x, y } => x < 16 && y < 16,
        Instruction::SubReg { x, y } => x < 16 && y < 16,
        Instruction::SubRev { x, y } => x < 16 && y < 16,
        Instruction::ShiftRight { x } => x < 16,
        Instruction::ShiftLeft { x } => x < 16,
        Instruction::Draw { x, y, n } => x < 16 && y < 16 && n < 16,
        Instruction::SkipKeyPressed { x } => x < 16,
        Instruction::SkipKeyNotPressed { x } => x < 16,
        Instruction::GetDelay { x } => x < 16,
        Instruction::WaitKey { x } => x < 16,
        Instruction::SetDelay { x } => x < 16,
        Instruction::SetSound { x } => x < 16,
        Instruction::AddIndex { x } => x < 16,
        Instruction::FontAddr { x } => x < 16,
        Instruction::StoreBcd { x } => x < 16,
        Instruction::DumpRegs { x } => x < 16,
        Instruction::LoadRegs { x } => x < 16,
        Instruction::ClearScreen => true,
        Instruction::Return => true,
    }
}

/// The instruction encoded by `op`, or nothing when `op` matches no
/// pattern of the instruction set.
pub open spec fn spec_decode(op: u16) -> Option<Instruction> {
    let h = (op >> 12) & 0xF;
    if h == 0x0 {
        if op_nn(op) == 0xE0 {
            Some(Instruction::ClearScreen)
        } else if op_nn(op) == 0xEE {
            Some(Instruction::Return)
        } else {
            None
        }
    } else if h == 0x1 {
        Some(Instruction::Jump { nnn: op_nnn(op) })
    } else if h == 0x2 {
        Some(Instruction::Call { nnn: op_nnn(op) })
    } else if h == 0x3 {
        Some(Instruction::SkipEqImm { x: op_x(op), nn: op_nn(op) })
    } else if h == 0x4 {
        Some(Instruction::SkipNeImm { x: op_x(op), nn: op_nn(op) })
    } else if h == 0x5 {
        if op_n(op) == 0x0 {
            Some(Instruction::SkipEqReg { x: op_x(op), y: op_y(op) })
        } else {
            None
        }
    } else if h == 0x6 {
        Some(Instruction::SetImm { x: op_x(op), nn: op_nn(op) })
    } else if h == 0x7 {
        Some(Instruction::AddImm { x: op_x(op), nn: op_nn(op) })
    } else if h == 0x8 {
        let l = op_n(op);
        if l == 0x0 {
            Some(Instruction::Assign { x: op_x(op), y: op_y(op) })
        } else if l == 0x1 {
            Some(Instruction::Or { x: op_x(op), y: op_y(op) })
        } else if l == 0x2 {
            Some(Instruction::And { x: op_x(op), y: op_y(op) })
        } else if l == 0x3 {
            Some(Instruction::Xor { x: op_x(op), y: op_y(op) })
        } else if l == 0x4 {
            Some(Instruction::AddReg { x: op_x(op), y: op_y(op) })
        } else if l == 0x5 {
            Some(Instruction::SubReg { x: op_x(op), y: op_y(op) })
        } else if l == 0x6 {
            Some(Instruction::ShiftRight { x: op_x(op) })
        } else if l == 0x7 {
            Some(Instruction::SubRev { x: op_x(op), y: op_y(op) })
        } else if l == 0xE {
            Some(Instruction::ShiftLeft { x: op_x(op) })
        } else {
            None
        }
    } else if h == 0x9 {
        if op_n(op) == 0x0 {
            Some(Instruction::SkipNeReg { x: op_x(op), y: op_y(op) })
        } else {
            None
        }
    } else if h == 0xA {
        Some(Instruction::SetIndex { nnn: op_nnn(op) })
    } else if h == 0xB {
        Some(Instruction::IndexV0 { nnn: op_nnn(op) })
    } else if h == 0xC {
        Some(Instruction::Random { x: op_x(op), nn: op_nn(op) })
    } else if h == 0xD {
        Some(Instruction::Draw { x: op_x(op), y: op_y(op), n: op_n(op) })
    } else if h == 0xE {
        if op_nn(op) == 0x9E {
            Some(Instruction::SkipKeyPressed { x: op_x(op) })
        } else if op_nn(op) == 0xA1 {
            Some(Instruction::SkipKeyNotPressed { x: op_x(op) })
        } else {
            None
        }
    } else {
        let l = op_nn(op);
        if l == 0x07 {
            Some(Instruction::GetDelay { x: op_x(op) })
        } else if l == 0x0A {
            Some(Instruction::WaitKey { x: op_x(op) })
        } else if l == 0x15 {
            Some(Instruction::SetDelay { x: op_x(op) })
        } else if l == 0x18 {
            Some(Instruction::SetSound { x: op_x(op) })
        } else if l == 0x1E {
            Some(Instruction::AddIndex { x: op_x(op) })
        } else if l == 0x29 {
            Some(Instruction::FontAddr { x: op_x(op) })
        } else if l == 0x33 {
            Some(Instruction::StoreBcd { x: op_x(op) })
        } else if l == 0x55 {
            Some(Instruction::DumpRegs { x: op_x(op) })
        } else if l == 0x65 {
            Some(Instruction::LoadRegs { x: op_x(op) })
        } else {
            None
        }
    }
}

/// Every decoded instruction has its operands in range.
pub proof fn lemma_decode_wf(op: u16)
    ensures
        spec_decode(op) matches Some(ins) ==> instruction_wf(ins),
{
    assert(op_x(op) < 16 && op_y(op) < 16 && op_n(op) < 16 && op_nnn(op) <= 0xFFF)
        by (bit_vector);
}

/// Decodes `op`, fetched from address `pc`, into an instruction, or
/// reports it as illegal.
pub fn decode(op: u16, pc: u16) -> (r: Result<Instruction, VmError>)
    ensures
        spec_decode(op) matches Some(ins) ==> r == Ok::<Instruction, VmError>(ins)
            && instruction_wf(ins),
        spec_decode(op) is None ==> r == Err::<Instruction, VmError>(
            VmError::IllegalInstruction { opcode: op, pc },
        ),
{
    proof {
        lemma_decode_wf(op);
    }
    let h = (op >> 12) & 0xF;
    let x = ((op >> 8) & 0xF) as u8;
    let y = ((op >> 4) & 0xF) as u8;
    let n = (op & 0xF) as u8;
    let nn = (op & 0xFF) as u8;
    let nnn = op & 0xFFF;
    let illegal = VmError::IllegalInstruction { opcode: op, pc };
    match h {
        0x0 => {
            if nn == 0xE0 {
                Ok(Instruction::ClearScreen)
            } else if nn == 0xEE {
                Ok(Instruction::Return)
            } else {
                Err(illegal)
            }
        },
        0x1 => Ok(Instruction::Jump { nnn }),
        0x2 => Ok(Instruction::Call { nnn }),
        0x3 => Ok(Instruction::SkipEqImm { x, nn }),
        0x4 => Ok(Instruction::SkipNeImm { x, nn }),
        0x5 => {
            if n == 0x0 {
                Ok(Instruction::SkipEqReg { x, y })
            } else {
                Err(illegal)
            }
        },
        0x6 => Ok(Instruction::SetImm { x, nn }),
        0x7 => Ok(Instruction::AddImm { x, nn }),
        0x8 => match n {
            0x0 => Ok(Instruction::Assign { x, y }),
            0x1 => Ok(Instruction::Or { x, y }),
            0x2 => Ok(Instruction::And { x, y }),
            0x3 => Ok(Instruction::Xor { x, y }),
            0x4 => Ok(Instruction::AddReg { x, y }),
            0x5 => Ok(Instruction::SubReg { x, y }),
            0x6 => Ok(Instruction::ShiftRight { x }),
            0x7 => Ok(Instruction::SubRev { x, y }),
            0xE => Ok(Instruction::ShiftLeft { x }),
            _ => Err(illegal),
        },
        0x9 => {
            if n == 0x0 {
                Ok(Instruction::SkipNeReg { x, y })
            } else {
                Err(illegal)
            }
        },
        0xA => Ok(Instruction::SetIndex { nnn }),
        0xB => Ok(Instruction::IndexV0 { nnn }),
        0xC => Ok(Instruction::Random { x, nn }),
        0xD => Ok(Instruction::Draw { x, y, n }),
        0xE => {
            if nn == 0x9E {
                Ok(Instruction::SkipKeyPressed { x })
            } else if nn == 0xA1 {
                Ok(Instruction::SkipKeyNotPressed { x })
            } else {
                Err(illegal)
            }
        },
        _ => match nn {
            0x07 => Ok(Instruction::GetDelay { x }),
            0x0A => Ok(Instruction::WaitKey { x }),
            0x15 => Ok(Instruction::SetDelay { x }),
            0x18 => Ok(Instruction::SetSound { x }),
            0x1E => Ok(Instruction::AddIndex { x }),
            0x29 => Ok(Instruction::FontAddr { x }),
            0x33 => Ok(Instruction::StoreBcd { x }),
            0x55 => Ok(Instruction::DumpRegs { x }),
            0x65 => Ok(Instruction::LoadRegs { x }),
            _ => Err(illegal),
        },
    }
}

} // verus!
