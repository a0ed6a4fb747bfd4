//! The machine-state model: sizes of the components, the error taxonomy and
//! the ghost view of a whole machine, with its well-formedness predicate.

use vstd::prelude::*;

verus! {

/// Bytes in the flat address space.
pub const MEM_SIZE: usize = 4096;

/// Width of the framebuffer in pixels.
pub const SCREEN_W: usize = 64;

/// Height of the framebuffer in pixels.
pub const SCREEN_H: usize = 32;

/// Cells in the flat framebuffer (`SCREEN_W * SCREEN_H`).
pub const SCREEN_CELLS: usize = 2048;

/// Number of general-purpose 8-bit registers (V0..VF).
pub const NUM_REGS: usize = 16;

/// Maximum nesting depth of the call stack.
pub const STACK_CAP: usize = 16;

/// Number of keys on the keypad.
pub const NUM_KEYS: usize = 16;

/// First address of a loaded program.
pub const PROG_START: usize = 512;

/// Bytes occupied by the font table at the bottom of memory.
pub const FONT_BYTES: usize = 80;

/// Largest program that fits between `PROG_START` and the end of memory.
pub const MAX_ROM: usize = 3584;

/// A fatal engine condition.  The engine stops and surfaces the error rather
/// than continuing in a corrupted state.
#[derive(Clone, Copy, PartialEq, Eq, Structural, Debug)]
pub enum VmError {
    /// The fetched opcode matches no instruction pattern; reports the opcode
    /// and the address it was fetched from.
    IllegalInstruction { opcode: u16, pc: u16 },
    /// An index into memory, the framebuffer or the key latch fell outside
    /// its valid range; reports the offending index.
    OutOfBounds { addr: u32 },
    /// A call was made with sixteen return addresses already stacked.
    StackOverflow,
    /// A return was executed with an empty call stack.
    StackUnderflow,
    /// The program is too large to fit in memory above `PROG_START`.
    InvalidRom,
}

/// The mathematical view of a whole machine: every component as a sequence
/// or scalar, with no executable representation details.
#[verifier::ext_equal]
pub struct VmView {
    /// General registers V0..VF; VF doubles as the flags register.
    pub regs: Seq<u8>,
    /// Return addresses, oldest first; its length is the stack pointer.
    pub stack: Seq<u16>,
    /// The 4096-byte address space.
    pub mem: Seq<u8>,
    /// The index register I.
    pub index: u16,
    /// The program counter.
    pub pc: u16,
    /// Framebuffer cells, each 0 or 1, cell (x, y) at position x * 32 + y.
    pub screen: Seq<u8>,
    /// True when the framebuffer changed since the render sink last consumed it.
    pub redraw: bool,
    /// The key latch: whether each of the sixteen keys is pressed.
    pub keys: Seq<bool>,
    /// True while the engine is replaying a wait-for-key instruction.
    pub waiting: bool,
    /// The delay timer.
    pub delay: u8,
    /// The sound timer.
    pub sound: u8,
}

/// Well-formedness of a machine view: every component has its fixed size,
/// the stack is within capacity and every framebuffer cell is a bit.
pub open spec fn wf(v: VmView) -> bool {
    &&& v.regs.len() == NUM_REGS
    &&& v.stack.len() <= STACK_CAP
    &&& v.mem.len() == MEM_SIZE
    &&& v.screen.len() == SCREEN_CELLS
    &&& forall|i: int| 0 <= i < SCREEN_CELLS ==> v.screen[i] <= 1
    &&& v.keys.len() == NUM_KEYS
}

/// The view with one register replaced.
pub open spec fn upd_reg(v: VmView, x: int, val: u8) -> VmView {
    VmView { regs: v.regs.update(x, val), ..v }
}

/// The view with the program counter replaced.
pub open spec fn with_pc(v: VmView, pc: u16) -> VmView {
    VmView { pc, ..v }
}

} // verus!
