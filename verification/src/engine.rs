//! The decode-execute engine: one cycle fetches two bytes at the program
//! counter big-endian, advances the counter by one instruction, decodes the
//! word, and dispatches to the instruction's handler.
//!
//! The whole cycle is specified by `spec_step`, a mathematical transition
//! function over machine views; `step` is proved to implement it.  The
//! random byte of the CXNN instruction is the one value the machine draws
//! from outside, so the specification quantifies over it.

use vstd::prelude::*;
use rand::Rng;
use crate::state::{VmView, VmError, with_pc, MEM_SIZE};
use crate::vm::{
    Emulator, spec_opcode, fetch_fail_addr, spec_clear, spec_jump, spec_call, spec_ret, spec_skip, spec_set_imm, spec_add_imm,
    spec_add_reg, spec_sub, spec_subn, spec_shr, spec_shl, spec_set_index, spec_index_v0,
    spec_add_index, spec_font_addr, spec_random, spec_get_delay, spec_set_delay, spec_set_sound,
    spec_skip_key, spec_wait_key, spec_bcd, spec_dump, spec_load,
};
use crate::isa::{Instruction, instruction_wf, spec_decode, decode};
use crate::draw::spec_draw;

verus! {

/// The effect of one decoded instruction on a machine whose program
/// counter has already advanced past it; `rnd` is the byte the random
/// source would hand a CXNN instruction.
pub open spec fn spec_exec(ins: Instruction, v: VmView, rnd: u8) -> (Result<(), VmError>, VmView) {
    match ins {
        Instruction::ClearScreen => (Ok(()), spec_clear(v)),
        Instruction::Return => spec_ret(v),
        Instruction::Jump { nnn } => (Ok(()), spec_jump(v, nnn)),
        Instruction::Call { nnn } => spec_call(v, nnn),
        Instruction::SkipEqImm { x, nn } => (Ok(()), spec_skip(v, v.regs[x as int] == nn)),
        Instruction::SkipNeImm { x, nn } => (Ok(()), spec_skip(v, v.regs[x as int] != nn)),
        Instruction::SkipEqReg { x, y } => (
            Ok(()),
            spec_skip(v, v.regs[x as int] == v.regs[y as int]),
        ),
        Instruction::SkipNeReg { x, y } => (
            Ok(()),
            spec_skip(v, v.regs[x as int] != v.regs[y as int]),
        ),
        Instruction::SetImm { x, nn } => (Ok(()), spec_set_imm(v, x as int, nn)),
        Instruction::AddImm { x, nn } => (Ok(()), spec_add_imm(v, x as int, nn)),
        Instruction::Assign { x, y } => (Ok(()), spec_set_imm(v, x as int, v.regs[y as int])),
        Instruction::Or { x, y } => (
            Ok(()),
            spec_set_imm(v, x as int, v.regs[x as int] | v.regs[y as int]),
        ),
        Instruction::And { x, y } => (
            Ok(()),
            spec_set_imm(v, x as int, v.regs[x as int] & v.regs[y as int]),
        ),
        Instruction::Xor { x, y } => (
            Ok(()),
            spec_set_imm(v, x as int, v.regs[x as int] ^ v.regs[y as int]),
        ),
        Instruction::AddReg { x, y } => (Ok(()), spec_add_reg(v, x as int, y as int)),
        Instruction::SubReg { x, y } => (Ok(()), spec_sub(v, x as int, y as int)),
        Instruction::ShiftRight { x } => (Ok(()), spec_shr(v, x as int)),
        Instruction::SubRev { x, y } => (Ok(()), spec_subn(v, x as int, y as int)),
        Instruction::ShiftLeft { x } => (Ok(()), spec_shl(v, x as int)),
        Instruction::SetIndex { nnn } => (Ok(()), spec_set_index(v, nnn)),
        Instruction::IndexV0 { nnn } => (Ok(()), spec_index_v0(v, nnn)),
        Instruction::Random { x, nn } => (Ok(()), spec_random(v, x as int, nn, rnd)),
        Instruction::Draw { x, y, n } => spec_draw(v, x as int, y as int, n as int),
        Instruction::SkipKeyPressed { x } => spec_skip_key(v, x as int, true),
        Instruction::SkipKeyNotPressed { x } => spec_skip_key(v, x as int, false),
        Instruction::GetDelay { x } => (Ok(()), spec_get_delay(v, x as int)),
        Instruction::WaitKey { x } => (Ok(()), spec_wait_key(v, x as int)),
        Instruction::SetDelay { x } => (Ok(()), spec_set_delay(v, x as int)),
        Instruction::SetSound { x } => (Ok(()), spec_set_sound(v, x as int)),
        Instruction::AddIndex { x } => (Ok(()), spec_add_index(v, x as int)),
        Instruction::FontAddr { x } => (Ok(()), spec_font_addr(v, x as int)),
        Instruction::StoreBcd { x } => spec_bcd(v, x as int),
        Instruction::DumpRegs { x } => spec_dump(v, x as int),
        Instruction::LoadRegs { x } => spec_load(v, x as int),
    }
}

/// One whole engine cycle over a machine view: fetch at the program
/// counter (failing when the two bytes are not both in memory), advance by
/// one instruction, decode (failing on an unknown pattern, with the state
/// keeping the advanced counter), and execute.
pub open spec fn spec_step(v: VmView, rnd: u8) -> (Result<(), VmError>, VmView) {
    if v.pc + 1 >= MEM_SIZE {
        (Err(VmError::OutOfBounds { addr: fetch_fail_addr(v.pc) }), v)
    } else {
        let op = spec_opcode(v);
        let v2 = with_pc(v, (v.pc + 2) as u16);
        match spec_decode(op) {
            None => (Err(VmError::IllegalInstruction { opcode: op, pc: v.pc }), v2),
            Some(ins) => spec_exec(ins, v2, rnd),
        }
    }
}

/// The machine after `k` engine cycles, with the random source pinned to
/// zero: exact for programs that never execute a CXNN instruction.
pub open spec fn run_steps(v: VmView, k: nat) -> VmView
    decreases k,
{
    if k == 0 {
        v
    } else {
        run_steps(spec_step(v, 0).1, (k - 1) as nat)
    }
}

/// Relies on rand's `thread_rng` and `Rng::gen_range` over `0..=255`: draws
/// one byte.  Nothing can be promised of a random value, so there is no
/// contract; the engine states what holds of every outcome.
#[verifier::external_body]
fn random_byte() -> u8 {
    rand::thread_rng().gen_range(0u8..=255u8)
}

impl Emulator {
    /// Sets VX to a random byte bitwise-and NN, drawing the byte from the
    /// process random source: whatever byte came back, VX holds it masked
    /// with NN.
    pub fn bitwise_and_with_random(&mut self, x: u8, nn: u8)
        requires
            old(self).wf(),
            x < 16,
        ensures
            final(self).wf(),
            exists|b: u8| final(self)@ == #[trigger] spec_random(old(self)@, x as int, nn, b),
    {
        let b = random_byte();
        self.bitwise_and_with_byte(x, nn, b);
    }

    /// Executes one decoded instruction on a machine whose program counter
    /// has already advanced past it.
    pub fn execute(&mut self, ins: Instruction) -> (r: Result<(), VmError>)
        requires
            old(self).wf(),
            instruction_wf(ins),
            2 <= old(self)@.pc,
            old(self)@.pc + 2 <= u16::MAX,
        ensures
            final(self).wf(),
            exists|b: u8| (r, final(self)@) == spec_exec(ins, old(self)@, b),
    {
        let res: Result<(), VmError> = match ins {
            Instruction::ClearScreen => {
                self.clear_screen();
                Ok(())
            },
            Instruction::Return => self.fn_return(),
            Instruction::Jump { nnn } => {
                self.jump(nnn);
                Ok(())
            },
            Instruction::Call { nnn } => self.fn_call(nnn),
            Instruction::SkipEqImm { x, nn } => {
                self.skip_if_variable_is_equal_to(x, nn);
                Ok(())
            },
            Instruction::SkipNeImm { x, nn } => {
                self.skip_if_variable_is_not_equal_to(x, nn);
                Ok(())
            },
            Instruction::SkipEqReg { x, y } => {
                self.skip_if_variables_equal(x, y);
                Ok(())
            },
            Instruction::SkipNeReg { x, y } => {
                self.skip_if_variables_not_equal(x, y);
                Ok(())
            },
            Instruction::SetImm { x, nn } => {
                self.set_register_to(x, nn);
                Ok(())
            },
            Instruction::AddImm { x, nn } => {
                self.add_to_variable(x, nn);
                Ok(())
            },
            Instruction::Assign { x, y } => {
                self.op_assignment(x, y);
                Ok(())
            },
            Instruction::Or { x, y } => {
                self.op_or(x, y);
                Ok(())
            },
            Instruction::And { x, y } => {
                self.op_and(x, y);
                Ok(())
            },
            Instruction::Xor { x, y } => {
                self.op_xor(x, y);
                Ok(())
            },
            Instruction::AddReg { x, y } => {
                self.op_add(x, y);
                Ok(())
            },
            Instruction::SubReg { x, y } => {
                self.op_sub(x, y);
                Ok(())
            },
            Instruction::ShiftRight { x } => {
                self.op_shift_right(x);
                Ok(())
            },
            Instruction::SubRev { x, y } => {
                self.op_sub_assign(x, y);
                Ok(())
            },
            Instruction::ShiftLeft { x } => {
                self.op_shift_left(x);
                Ok(())
            },
            Instruction::SetIndex { nnn } => {
                self.set_address_to(nnn);
                Ok(())
            },
            Instruction::IndexV0 { nnn } => {
                self.jump_add(nnn);
                Ok(())
            },
            Instruction::Random { x, nn } => {
                self.bitwise_and_with_random(x, nn);
                proof {
                    let b = choose|b: u8| self@ == #[trigger] spec_random(
                        old(self)@,
                        x as int,
                        nn,
                        b,
                    );
                    assert((Ok::<(), VmError>(()), self@) == spec_exec(ins, old(self)@, b));
                }
                Ok(())
            },
            Instruction::Draw { x, y, n } => self.draw_sprite(x, y, n),
            Instruction::SkipKeyPressed { x } => self.skip_if_pressed(x),
            Instruction::SkipKeyNotPressed { x } => self.skip_if_not_pressed(x),
            Instruction::GetDelay { x } => {
                self.set_variable_to_delay_timer(x);
                Ok(())
            },
            Instruction::WaitKey { x } => {
                self.get_key_press(x);
                Ok(())
            },
            Instruction::SetDelay { x } => {
                self.set_delay_timer_to(x);
                Ok(())
            },
            Instruction::SetSound { x } => {
                self.set_sound_timer_to(x);
                Ok(())
            },
            Instruction::AddIndex { x } => {
                self.add_variable_to_address(x);
                Ok(())
            },
            Instruction::FontAddr { x } => {
                self.sets_address_to_font_sprite(x);
                Ok(())
            },
            Instruction::StoreBcd { x } => self.store_variable_as_binary(x),
            Instruction::DumpRegs { x } => self.dump_registers_into_memory(x),
            Instruction::LoadRegs { x } => self.load_registers_from_memory(x),
        };
        proof {
            if !(ins matches Instruction::Random { .. }) {
                assert((res, self@) == spec_exec(ins, old(self)@, 0u8));
            }
        }
        res
    }

    /// One whole engine cycle: fetch, advance, decode, execute.  Every
    /// fatal condition surfaces as an error with the machine left in the
    /// state the specification gives it.
    pub fn step(&mut self) -> (r: Result<(), VmError>)
        requires
            old(self).wf(),
        ensures
            final(self).wf(),
            exists|b: u8| (r, final(self)@) == spec_step(old(self)@, b),
    {
        let pc = self.pc();
        let op = match self.next_opcode() {
            Ok(op) => op,
            Err(e) => {
                proof {
                    assert((Err::<(), VmError>(e), self@) == spec_step(old(self)@, 0u8));
                }
                return Err(e);
            },
        };
        match decode(op, pc) {
            Ok(ins) => {
                let r = self.execute(ins);
                proof {
                    let v2 = with_pc(old(self)@, (old(self)@.pc + 2) as u16);
                    let b = choose|b: u8| (r, self@) == #[trigger] spec_exec(ins, v2, b);
                    assert((r, self@) == spec_exec(ins, v2, b));
                    assert((r, self@) == spec_step(old(self)@, b));
                }
                r
            },
            Err(e) => {
                proof {
                    assert((Err::<(), VmError>(e), self@) == spec_step(old(self)@, 0u8));
                }
                Err(e)
            },
        }
    }
}

} // verus!
