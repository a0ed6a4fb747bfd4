//! Laws of the engine: properties that relate several transitions, stated
//! over the same specification functions the handlers' contracts use, and
//! proved once and for all.

use vstd::prelude::*;
use crate::state::{VmView, VmError, wf, with_pc, MEM_SIZE, NUM_REGS, NUM_KEYS, STACK_CAP};
use crate::vm::{
    spec_call, spec_ret, spec_set_imm, spec_add_imm, spec_wait_key, first_pressed_from,
};
use crate::isa::{Instruction, spec_decode};
use crate::vm::spec_opcode;
use crate::engine::{spec_exec, spec_step, run_steps};

verus! {

/// A call followed by a return is a no-op: calling any subroutine address
/// pushes the pre-call program counter and jumps, and the matching return
/// restores the machine exactly - program counter, stack and all.
pub proof fn lemma_call_then_return(v: VmView, nnn: u16)
    requires
        wf(v),
        v.stack.len() < STACK_CAP,
    ensures
        ({
            let c = spec_call(v, nnn);
            let r = spec_ret(c.1);
            c.0 == Ok::<(), VmError>(()) && c.1.pc == nnn && c.1.stack.len() == v.stack.len() + 1
                && r.0 == Ok::<(), VmError>(()) && r.1 == v
        }),
{
    let c = spec_call(v, nnn);
    let r = spec_ret(c.1);
    assert(c.1.stack.drop_last() =~= v.stack);
    assert(r.1 =~= v);
}

/// Loading an immediate and then adding an immediate accumulates modulo
/// 256: after `6XNN` with `n1` and `7XNN` with `n2`, VX holds
/// `(n1 + n2) mod 256` and no other register - the flags register included -
/// has changed, nor has anything else in the machine.
pub proof fn lemma_set_then_add(v: VmView, x: u8, n1: u8, n2: u8)
    requires
        wf(v),
        x < 16,
    ensures
        ({
            let v2 = spec_add_imm(spec_set_imm(v, x as int, n1), x as int, n2);
            v2.regs[x as int] == (n1 + n2) % 256 && (forall|j: int|
                0 <= j < NUM_REGS && j != x ==> v2.regs[j] == v.regs[j]) && v2 == (VmView {
                regs: v2.regs,
                ..v
            })
        }),
{
}

/// Each skip instruction advances the program counter by exactly one extra
/// instruction when its condition holds, and leaves the machine untouched
/// otherwise.
pub proof fn lemma_skips_advance_exactly_on_condition(v: VmView, x: u8, y: u8, nn: u8, b: u8)
    requires
        wf(v),
        x < 16,
        y < 16,
        v.pc + 2 <= u16::MAX,
    ensures
        spec_exec(Instruction::SkipEqImm { x, nn }, v, b) == (
            Ok::<(), VmError>(()),
            if v.regs[x as int] == nn {
                with_pc(v, (v.pc + 2) as u16)
            } else {
                v
            },
        ),
        spec_exec(Instruction::SkipNeImm { x, nn }, v, b) == (
            Ok::<(), VmError>(()),
            if v.regs[x as int] != nn {
                with_pc(v, (v.pc + 2) as u16)
            } else {
                v
            },
        ),
        spec_exec(Instruction::SkipEqReg { x, y }, v, b) == (
            Ok::<(), VmError>(()),
            if v.regs[x as int] == v.regs[y as int] {
                with_pc(v, (v.pc + 2) as u16)
            } else {
                v
            },
        ),
        spec_exec(Instruction::SkipNeReg { x, y }, v, b) == (
            Ok::<(), VmError>(()),
            if v.regs[x as int] != v.regs[y as int] {
                with_pc(v, (v.pc + 2) as u16)
            } else {
                v
            },
        ),
        v.regs[x as int] < NUM_KEYS ==> spec_exec(Instruction::SkipKeyPressed { x }, v, b) == (
            Ok::<(), VmError>(()),
            if v.keys[v.regs[x as int] as int] {
                with_pc(v, (v.pc + 2) as u16)
            } else {
                v
            },
        ),
        v.regs[x as int] < NUM_KEYS ==> spec_exec(Instruction::SkipKeyNotPressed { x }, v, b) == (
            Ok::<(), VmError>(()),
            if !v.keys[v.regs[x as int] as int] {
                with_pc(v, (v.pc + 2) as u16)
            } else {
                v
            },
        ),
{
}

/// With no key at or above position `i` pressed, the scan finds nothing.
proof fn lemma_no_key_pressed(keys: Seq<bool>, i: int)
    requires
        keys.len() == NUM_KEYS,
        forall|k: int| 0 <= k < NUM_KEYS ==> !keys[k],
        0 <= i,
    ensures
        first_pressed_from(keys, i) is None,
    decreases NUM_KEYS - i,
{
    if i < NUM_KEYS {
        lemma_no_key_pressed(keys, i + 1);
    }
}

/// With key `k` pressed and no lower key pressed at or above position `i`,
/// the scan from `i` finds `k`.
proof fn lemma_first_pressed(keys: Seq<bool>, i: int, k: u8)
    requires
        keys.len() == NUM_KEYS,
        0 <= i <= k < NUM_KEYS,
        keys[k as int],
        forall|j: int| i <= j < k ==> !keys[j],
    ensures
        first_pressed_from(keys, i) == Some(k),
    decreases k - i,
{
    if i < k {
        lemma_first_pressed(keys, i + 1, k);
    }
}

/// The wait-for-key instruction blocks by replay: with no key pressed, one
/// engine cycle leaves the whole machine unchanged except that waiting mode
/// is on - in particular the program counter does not move - and the
/// resulting state is a fixed point of the cycle, so any number of further
/// cycles leaves it unchanged.
pub proof fn lemma_key_wait_blocks(v: VmView, x: u8, b: u8)
    requires
        wf(v),
        2 <= v.pc,
        v.pc + 1 < MEM_SIZE,
        spec_decode(spec_opcode(v)) == Some(Instruction::WaitKey { x }),
        x < 16,
        forall|k: int| 0 <= k < NUM_KEYS ==> !v.keys[k],
    ensures
        spec_step(v, b).0 == Ok::<(), VmError>(()),
        spec_step(v, b).1 == (VmView { waiting: true, ..v }),
        spec_step((VmView { waiting: true, ..v }), b) == (
            Ok::<(), VmError>(()),
            (VmView { waiting: true, ..v }),
        ),
{
    lemma_no_key_pressed(v.keys, 0);
    let v2 = with_pc(v, (v.pc + 2) as u16);
    assert(spec_wait_key(v2, x as int) == (VmView { waiting: true, ..v }));
    let w = VmView { waiting: true, ..v };
    assert(spec_opcode(w) == spec_opcode(v));
    let w2 = with_pc(w, (w.pc + 2) as u16);
    assert(spec_wait_key(w2, x as int) == w);
}

/// While no key is pressed, any number of engine cycles after the first
/// leaves the waiting machine exactly as it is.
pub proof fn lemma_key_wait_stays(v: VmView, x: u8, m: nat)
    requires
        wf(v),
        2 <= v.pc,
        v.pc + 1 < MEM_SIZE,
        spec_decode(spec_opcode(v)) == Some(Instruction::WaitKey { x }),
        x < 16,
        forall|k: int| 0 <= k < NUM_KEYS ==> !v.keys[k],
    ensures
        run_steps(spec_step(v, 0).1, m) == spec_step(v, 0).1,
    decreases m,
{
    lemma_key_wait_blocks(v, x, 0);
    if m > 0 {
        lemma_key_wait_stays(v, x, (m - 1) as nat);
        assert(run_steps(spec_step(v, 0).1, m) == run_steps(
            spec_step(spec_step(v, 0).1, 0).1,
            (m - 1) as nat,
        ));
    }
}

/// Once a key is pressed, the next cycle of a waiting machine stores the
/// lowest pressed key into VX, leaves waiting mode and advances the program
/// counter normally.
pub proof fn lemma_key_wait_releases(v: VmView, x: u8, b: u8, k: u8)
    requires
        wf(v),
        2 <= v.pc,
        v.pc + 1 < MEM_SIZE,
        spec_decode(spec_opcode(v)) == Some(Instruction::WaitKey { x }),
        x < 16,
        k < NUM_KEYS,
        v.keys[k as int],
        forall|j: int| 0 <= j < k ==> !v.keys[j],
    ensures
        spec_step(v, b) == (
            Ok::<(), VmError>(()),
            (VmView {
                pc: (v.pc + 2) as u16,
                regs: v.regs.update(x as int, k),
                waiting: false,
                ..v
            }),
        ),
{
    lemma_first_pressed(v.keys, 0, k);
    let v2 = with_pc(v, (v.pc + 2) as u16);
    assert(spec_wait_key(v2, x as int) == (VmView {
        pc: (v.pc + 2) as u16,
        regs: v.regs.update(x as int, k),
        waiting: false,
        ..v
    }));
}

/// The loop invariant of a program that clears the screen and jumps back
/// to it forever: the two instruction words stand at the program start, the
/// program counter sits on one of them, and the framebuffer is entirely
/// clear.
pub open spec fn clear_jump_loop(v: VmView) -> bool {
    &&& wf(v)
    &&& v.mem[0x200] == 0x00u8
    &&& v.mem[0x201] == 0xE0u8
    &&& v.mem[0x202] == 0x12u8
    &&& v.mem[0x203] == 0x00u8
    &&& (v.pc == 0x200 || v.pc == 0x202)
    &&& forall|i: int| 0 <= i < v.screen.len() ==> v.screen[i] == 0u8
}

/// One cycle of the clear-and-jump-to-self program succeeds and preserves
/// its loop invariant: the framebuffer stays entirely clear.
pub proof fn lemma_clear_jump_step(v: VmView, b: u8)
    requires
        clear_jump_loop(v),
    ensures
        spec_step(v, b).0 == Ok::<(), VmError>(()),
        clear_jump_loop(spec_step(v, b).1),
        spec_step(v, b).1.mem == v.mem,
    decreases 0int,
{
    let hi = v.mem[v.pc as int];
    let lo = v.mem[v.pc as int + 1];
    if v.pc == 0x200 {
        assert(hi == 0x00u8 && lo == 0xE0u8);
        assert(((hi as u16) << 8) | (lo as u16) == 0x00E0u16) by (bit_vector)
            requires
                hi == 0x00u8,
                lo == 0xE0u8,
        ;
        assert(spec_opcode(v) == 0x00E0u16);
        assert(((0x00E0u16 >> 12) & 0xF) == 0x0u16 && (0x00E0u16 & 0xFF) == 0xE0u16)
            by (bit_vector);
        assert(spec_decode(0x00E0u16) == Some(Instruction::ClearScreen));
    } else {
        assert(hi == 0x12u8 && lo == 0x00u8);
        assert(((hi as u16) << 8) | (lo as u16) == 0x1200u16) by (bit_vector)
            requires
                hi == 0x12u8,
                lo == 0x00u8,
        ;
        assert(spec_opcode(v) == 0x1200u16);
        assert(((0x1200u16 >> 12) & 0xF) == 0x1u16 && (0x1200u16 & 0xFFF) == 0x200u16)
            by (bit_vector);
        assert(spec_decode(0x1200u16) == Some(Instruction::Jump { nnn: 0x200u16 }));
    }
}

/// The loop invariant holds after any number of cycles.
proof fn lemma_clear_jump_inv(v0: VmView, n: nat)
    requires
        clear_jump_loop(v0),
    ensures
        clear_jump_loop(run_steps(v0, n)),
    decreases n,
{
    if n > 0 {
        lemma_clear_jump_step(v0, 0);
        lemma_clear_jump_inv(spec_step(v0, 0).1, (n - 1) as nat);
        assert(run_steps(v0, n) == run_steps(spec_step(v0, 0).1, (n - 1) as nat));
    }
}

/// A program of a clear instruction followed by a jump back to itself runs
/// indefinitely without failing or corrupting state: after the first cycle
/// the framebuffer is entirely clear, and every later cycle leaves it
/// exactly as one cycle left it.
pub proof fn lemma_clear_jump_runs_clean(v0: VmView, n: nat)
    requires
        clear_jump_loop(v0),
        n >= 1,
    ensures
        clear_jump_loop(run_steps(v0, n)),
        run_steps(v0, n).screen =~= run_steps(v0, 1).screen,
{
    lemma_clear_jump_inv(v0, n);
    lemma_clear_jump_inv(v0, 1);
}

} // verus!
