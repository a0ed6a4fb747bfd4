//! The machine itself: the owned state aggregate, its ghost view, the
//! loader, the accessors the host drives it through, and the instruction
//! handlers that do not touch the framebuffer.
//!
//! Flag conventions, chosen once and used consistently:
//! - ADD VX,VY sets VF to 1 exactly when the 8-bit sum wrapped.
//! - SUB and SUBN set VF to 1 exactly when a borrow occurred (the
//!   subtraction wrapped), and to 0 otherwise.
//! - SHL stores the raw masked high bit of VX (0 or 0x80) into VF, not a
//!   normalized 0/1; SHR stores the low bit (already 0 or 1).

use vstd::prelude::*;
use crate::state::{
    VmView, VmError, wf, upd_reg, with_pc, MEM_SIZE, SCREEN_CELLS, NUM_REGS, STACK_CAP, NUM_KEYS,
    PROG_START, FONT_BYTES, MAX_ROM,
};
use crate::font::{font_seq, font_table};

verus! {

/// A CHIP-8 machine: address space, register file, call stack, framebuffer,
/// key latch and timers.
pub struct Emulator {
    registers: Vec<u8>,
    stack: Vec<u16>,
    memory: Vec<u8>,
    address: u16,
    program_counter: u16,
    screen: Vec<u8>,
    redraw: bool,
    keyboard: Vec<bool>,
    waiting_for_keypress: bool,
    delay_timer: u8,
    sound_timer: u8,
}

impl View for Emulator {
    type V = VmView;

    closed spec fn view(&self) -> VmView {
        VmView {
            regs: self.registers@,
            stack: self.stack@,
            mem: self.memory@,
            index: self.address,
            pc: self.program_counter,
            screen: self.screen@,
            redraw: self.redraw,
            keys: self.keyboard@,
            waiting: self.waiting_for_keypress,
            delay: self.delay_timer,
            sound: self.sound_timer,
        }
    }
}

/// The state of a freshly loaded machine: font at the bottom of memory, the
/// program at `PROG_START`, the program counter at `PROG_START`, and every
/// other component zeroed.
pub open spec fn spec_init(rom: Seq<u8>) -> VmView {
    VmView {
        regs: Seq::new(NUM_REGS as nat, |i: int| 0u8),
        stack: Seq::empty(),
        mem: Seq::new(
            MEM_SIZE as nat,
            |i: int| if i < FONT_BYTES {
                font_seq()[i]
            } else if PROG_START <= i < PROG_START + rom.len() {
                rom[i - PROG_START]
            } else {
                0u8
            },
        ),
        index: 0,
        pc: PROG_START as u16,
        screen: Seq::new(SCREEN_CELLS as nat, |i: int| 0u8),
        redraw: false,
        keys: Seq::new(NUM_KEYS as nat, |i: int| false),
        waiting: false,
        delay: 0,
        sound: 0,
    }
}

/// The jump transition: the program counter moves to `nnn`.
pub open spec fn spec_jump(v: VmView, nnn: u16) -> VmView {
    with_pc(v, nnn)
}

/// The call transition: the pre-call program counter is pushed, then the
/// program counter moves to `nnn`; fails when sixteen addresses are stacked.
pub open spec fn spec_call(v: VmView, nnn: u16) -> (Result<(), VmError>, VmView) {
    if v.stack.len() >= STACK_CAP {
        (Err(VmError::StackOverflow), v)
    } else {
        (Ok(()), VmView { stack: v.stack.push(v.pc), pc: nnn, ..v })
    }
}

/// The return transition: the most recently pushed address is popped into
/// the program counter; fails on an empty stack.
pub open spec fn spec_ret(v: VmView) -> (Result<(), VmError>, VmView) {
    if v.stack.len() == 0 {
        (Err(VmError::StackUnderflow), v)
    } else {
        (Ok(()), VmView { stack: v.stack.drop_last(), pc: v.stack.last(), ..v })
    }
}

/// The conditional-skip transition: the program counter advances by one
/// extra instruction exactly when `cond` holds.
pub open spec fn spec_skip(v: VmView, cond: bool) -> VmView {
    if cond {
        with_pc(v, (v.pc + 2) as u16)
    } else {
        v
    }
}

/// The load-immediate transition: VX becomes NN.
pub open spec fn spec_set_imm(v: VmView, x: int, nn: u8) -> VmView {
    upd_reg(v, x, nn)
}

/// The add-immediate transition: VX becomes VX + NN modulo 256, with no
/// flag change.
pub open spec fn spec_add_imm(v: VmView, x: int, nn: u8) -> VmView {
    upd_reg(v, x, ((v.regs[x] + nn) % 256) as u8)
}

/// The register-add transition: VX becomes VX + VY modulo 256, then VF
/// becomes 1 exactly when the sum wrapped.
pub open spec fn spec_add_reg(v: VmView, x: int, y: int) -> VmView {
    let s = v.regs[x] + v.regs[y];
    VmView {
        regs: v.regs.update(x, (s % 256) as u8).update(15, if s >= 256 { 1u8 } else { 0u8 }),
        ..v
    }
}

/// The subtract transition: VX becomes VX - VY modulo 256, then VF becomes
/// 1 exactly when a borrow occurred.
pub open spec fn spec_sub(v: VmView, x: int, y: int) -> VmView {
    let d = v.regs[x] - v.regs[y];
    VmView {
        regs: v.regs.update(x, (d % 256) as u8).update(
            15,
            if v.regs[x] < v.regs[y] { 1u8 } else { 0u8 },
        ),
        ..v
    }
}

/// The reversed-subtract transition: VX becomes VY - VX modulo 256, then VF
/// becomes 1 exactly when a borrow occurred.
pub open spec fn spec_subn(v: VmView, x: int, y: int) -> VmView {
    let d = v.regs[y] - v.regs[x];
    VmView {
        regs: v.regs.update(x, (d % 256) as u8).update(
            15,
            if v.regs[y] < v.regs[x] { 1u8 } else { 0u8 },
        ),
        ..v
    }
}

/// The shift-right transition: VF takes the low bit of VX, then VX is
/// halved.  The second step reads the register file after the first, so VX
/// and VF alias when `x` is 15.
pub open spec fn spec_shr(v: VmView, x: int) -> VmView {
    let r1 = v.regs.update(15, (v.regs[x] % 2) as u8);
    VmView { regs: r1.update(x, (r1[x] / 2) as u8), ..v }
}

/// The shift-left transition: VF takes the raw masked high bit of VX (0 or
/// 0x80), then VX is doubled modulo 256.  The second step reads the register
/// file after the first, so VX and VF alias when `x` is 15.
pub open spec fn spec_shl(v: VmView, x: int) -> VmView {
    let r1 = v.regs.update(15, if v.regs[x] >= 128 { 128u8 } else { 0u8 });
    VmView { regs: r1.update(x, ((r1[x] * 2) % 256) as u8), ..v }
}

/// The set-index transition: I becomes NNN.
pub open spec fn spec_set_index(v: VmView, nnn: u16) -> VmView {
    VmView { index: nnn, ..v }
}

/// The indexed-set transition: I becomes NNN + V0.
pub open spec fn spec_index_v0(v: VmView, nnn: u16) -> VmView {
    VmView { index: (nnn + v.regs[0]) as u16, ..v }
}

/// The add-to-index transition: I becomes I + VX modulo 65536, with no flag
/// change.
pub open spec fn spec_add_index(v: VmView, x: int) -> VmView {
    VmView { index: ((v.index + v.regs[x]) % 0x10000) as u16, ..v }
}

/// The font-lookup transition: I becomes five times VX, the address of the
/// glyph for the digit in VX.
pub open spec fn spec_font_addr(v: VmView, x: int) -> VmView {
    VmView { index: (5 * v.regs[x]) as u16, ..v }
}

/// The random transition, given the byte `b` the generator produced: VX
/// becomes `b & NN`.
pub open spec fn spec_random(v: VmView, x: int, nn: u8, b: u8) -> VmView {
    upd_reg(v, x, b & nn)
}

/// The read-delay transition: VX becomes the delay timer.
pub open spec fn spec_get_delay(v: VmView, x: int) -> VmView {
    upd_reg(v, x, v.delay)
}

/// The set-delay transition: the delay timer becomes VX.
pub open spec fn spec_set_delay(v: VmView, x: int) -> VmView {
    VmView { delay: v.regs[x], ..v }
}

/// The set-sound transition: the sound timer becomes VX.
pub open spec fn spec_set_sound(v: VmView, x: int) -> VmView {
    VmView { sound: v.regs[x], ..v }
}

/// The key-skip transition: the program counter advances by one extra
/// instruction exactly when key VX is pressed (for `want_pressed`) or
/// released (otherwise); fails when VX does not hold a key number.
pub open spec fn spec_skip_key(v: VmView, x: int, want_pressed: bool) -> (
    Result<(), VmError>,
    VmView,
) {
    let k = v.regs[x];
    if k >= NUM_KEYS {
        (Err(VmError::OutOfBounds { addr: k as u32 }), v)
    } else {
        (Ok(()), spec_skip(v, v.keys[k as int] == want_pressed))
    }
}

/// The lowest pressed key at or above position `i`, if any.
pub open spec fn first_pressed_from(keys: Seq<bool>, i: int) -> Option<u8>
    decreases NUM_KEYS - i,
{
    if !(0 <= i < NUM_KEYS) {
        None
    } else if keys[i] {
        Some(i as u8)
    } else {
        first_pressed_from(keys, i + 1)
    }
}

/// The wait-for-key transition.  When some key is pressed, the lowest such
/// key lands in VX and waiting mode ends.  When none is, the program counter
/// rewinds by one instruction - so the same instruction is decoded again on
/// the next cycle - and waiting mode begins.
pub open spec fn spec_wait_key(v: VmView, x: int) -> VmView {
    match first_pressed_from(v.keys, 0) {
        Some(k) => VmView { regs: v.regs.update(x, k), waiting: false, ..v },
        None => VmView { pc: (v.pc - 2) as u16, waiting: true, ..v },
    }
}

/// The clear transition: every framebuffer cell becomes 0 and the
/// framebuffer is marked dirty.
pub open spec fn spec_clear(v: VmView) -> VmView {
    VmView { screen: Seq::new(SCREEN_CELLS as nat, |i: int| 0u8), redraw: true, ..v }
}

/// The binary-coded-decimal store transition: the hundreds, tens and ones
/// digits of VX land at I, I+1 and I+2; fails when I+2 is out of memory.
pub open spec fn spec_bcd(v: VmView, x: int) -> (Result<(), VmError>, VmView) {
    if v.index + 2 >= MEM_SIZE {
        (Err(VmError::OutOfBounds { addr: (v.index + 2) as u32 }), v)
    } else {
        let val = v.regs[x];
        let mem2 = v.mem.update(v.index as int, (val / 100) as u8).update(
            v.index + 1,
            ((val % 100) / 10) as u8,
        ).update(v.index + 2, (val % 10) as u8);
        (Ok(()), VmView { mem: mem2, ..v })
    }
}

/// The register-dump transition: V0 through VX land at I through I+X, with
/// I unchanged; fails when I+X is out of memory.
pub open spec fn spec_dump(v: VmView, x: int) -> (Result<(), VmError>, VmView) {
    if v.index + x >= MEM_SIZE {
        (Err(VmError::OutOfBounds { addr: (v.index + x) as u32 }), v)
    } else {
        let mem2 = Seq::new(
            MEM_SIZE as nat,
            |i: int| if v.index <= i <= v.index + x {
                v.regs[i - v.index]
            } else {
                v.mem[i]
            },
        );
        (Ok(()), VmView { mem: mem2, ..v })
    }
}

/// The register-load transition: V0 through VX are filled from I through
/// I+X, with I unchanged; fails when I+X is out of memory.
pub open spec fn spec_load(v: VmView, x: int) -> (Result<(), VmError>, VmView) {
    if v.index + x >= MEM_SIZE {
        (Err(VmError::OutOfBounds { addr: (v.index + x) as u32 }), v)
    } else {
        let regs2 = Seq::new(
            NUM_REGS as nat,
            |i: int| if i <= x {
                v.mem[v.index + i]
            } else {
                v.regs[i]
            },
        );
        (Ok(()), VmView { regs: regs2, ..v })
    }
}

/// The opcode word at the program counter: two bytes, big-endian.
pub open spec fn spec_opcode(v: VmView) -> u16 {
    ((v.mem[v.pc as int] as u16) << 8) | (v.mem[v.pc as int + 1] as u16)
}

/// The first address of the failed fetch when the program counter runs off
/// the end of memory.
pub open spec fn fetch_fail_addr(pc: u16) -> u32 {
    if pc >= MEM_SIZE {
        pc as u32
    } else {
        (pc + 1) as u32
    }
}

/// One real-time tick: each timer is decremented when nonzero.
pub open spec fn spec_tick(v: VmView) -> VmView {
    VmView {
        delay: if v.delay > 0 { (v.delay - 1) as u8 } else { 0u8 },
        sound: if v.sound > 0 { (v.sound - 1) as u8 } else { 0u8 },
        ..v
    }
}

impl Emulator {
    /// Well-formedness of the machine, stated over its view.
    pub open spec fn wf(&self) -> bool {
        wf(self@)
    }

    /// Builds a machine with the font table at the bottom of memory and the
    /// program at `PROG_START`, rejecting a program too large to fit.
    pub fn new(rom: &[u8]) -> (r: Result<Emulator, VmError>)
        ensures
            rom@.len() > MAX_ROM ==> r == Err::<Emulator, VmError>(VmError::InvalidRom),
            rom@.len() <= MAX_ROM ==> (r matches Ok(e) && e.wf() && e@ == spec_init(rom@)),
    {
        if rom.len() > MAX_ROM {
            return Err(VmError::InvalidRom);
        }
        let font = font_table();
        let mut memory: Vec<u8> = Vec::new();
        let mut i: usize = 0;
        while i < MEM_SIZE
            invariant
                i <= MEM_SIZE,
                memory@.len() == i,
                forall|j: int| 0 <= j < i ==> memory@[j] == 0u8,
            decreases MEM_SIZE - i,
        {
            memory.push(0);
            i = i + 1;
        }
        let mut i: usize = 0;
        while i < FONT_BYTES
            invariant
                i <= FONT_BYTES,
                font@ == font_seq(),
                memory@.len() == MEM_SIZE,
                forall|j: int| 0 <= j < i ==> memory@[j] == font_seq()[j],
                forall|j: int| i <= j < MEM_SIZE ==> memory@[j] == 0u8,
            decreases FONT_BYTES - i,
        {
            memory.set(i, font[i]);
            i = i + 1;
        }
        let mut i: usize = 0;
        while i < rom.len()
            invariant
                i <= rom@.len(),
                rom@.len() <= MAX_ROM,
                memory@.len() == MEM_SIZE,
                forall|j: int| 0 <= j < FONT_BYTES ==> memory@[j] == font_seq()[j],
                forall|j: int| FONT_BYTES <= j < PROG_START ==> memory@[j] == 0u8,
                forall|j: int| 0 <= j < i ==> memory@[PROG_START + j] == rom@[j],
                forall|j: int| PROG_START + i <= j < MEM_SIZE ==> memory@[j] == 0u8,
            decreases rom@.len() - i,
        {
            memory.set(PROG_START + i, rom[i]);
            i = i + 1;
        }
        let mut registers: Vec<u8> = Vec::new();
        let mut i: usize = 0;
        while i < NUM_REGS
            invariant
                i <= NUM_REGS,
                registers@.len() == i,
                forall|j: int| 0 <= j < i ==> registers@[j] == 0u8,
            decreases NUM_REGS - i,
        {
            registers.push(0);
            i = i + 1;
        }
        let mut screen: Vec<u8> = Vec::new();
        let mut i: usize = 0;
        while i < SCREEN_CELLS
            invariant
                i <= SCREEN_CELLS,
                screen@.len() == i,
                forall|j: int| 0 <= j < i ==> screen@[j] == 0u8,
            decreases SCREEN_CELLS - i,
        {
            screen.push(0);
            i = i + 1;
        }
        let mut keyboard: Vec<bool> = Vec::new();
        let mut i: usize = 0;
        while i < NUM_KEYS
            invariant
                i <= NUM_KEYS,
                keyboard@.len() == i,
                forall|j: int| 0 <= j < i ==> !keyboard@[j],
            decreases NUM_KEYS - i,
        {
            keyboard.push(false);
            i = i + 1;
        }
        let e = Emulator {
            registers,
            stack: Vec::new(),
            memory,
            address: 0,
            program_counter: PROG_START as u16,
            screen,
            redraw: false,
            keyboard,
            waiting_for_keypress: false,
            delay_timer: 0,
            sound_timer: 0,
        };
        proof {
            assert(e@.regs =~= spec_init(rom@).regs);
            assert(e@.stack =~= spec_init(rom@).stack);
            assert(e@.mem =~= spec_init(rom@).mem);
            assert(e@.screen =~= spec_init(rom@).screen);
            assert(e@.keys =~= spec_init(rom@).keys);
            assert(e@ =~= spec_init(rom@));
        }
        Ok(e)
    }

    /// Fetches the two bytes at the program counter as one big-endian
    /// opcode word and advances the counter by one instruction; fails when
    /// the two bytes are not both in memory, leaving the machine unchanged.
    pub fn next_opcode(&mut self) -> (r: Result<u16, VmError>)
        requires
            old(self).wf(),
        ensures
            final(self).wf(),
            old(self)@.pc + 1 < MEM_SIZE ==> r == Ok::<u16, VmError>(spec_opcode(old(self)@))
                && final(self)@ == with_pc(old(self)@, (old(self)@.pc + 2) as u16),
            old(self)@.pc + 1 >= MEM_SIZE ==> r == Err::<u16, VmError>(
                VmError::OutOfBounds { addr: fetch_fail_addr(old(self)@.pc) },
            ) && final(self)@ == old(self)@,
    {
        let pc = self.program_counter;
        if pc as usize + 1 >= MEM_SIZE {
            let a = if pc as usize >= MEM_SIZE {
                pc as u32
            } else {
                pc as u32 + 1
            };
            return Err(VmError::OutOfBounds { addr: a });
        }
        let current = self.memory[pc as usize];
        let next = self.memory[pc as usize + 1];
        self.program_counter = pc + 2;
        Ok(((current as u16) << 8) | (next as u16))
    }

    /// The memory byte at position `i`, for the engine's own fetches.
    pub(crate) fn mem_at(&self, i: usize) -> (b: u8)
        requires
            self.wf(),
            i < MEM_SIZE,
        ensures
            b == self@.mem[i as int],
    {
        self.memory[i]
    }

    /// The framebuffer cell at flat position `k`, for the engine's own use.
    pub(crate) fn screen_at(&self, k: usize) -> (c: u8)
        requires
            self.wf(),
            k < SCREEN_CELLS,
        ensures
            c == self@.screen[k as int],
    {
        self.screen[k]
    }

    /// Writes the framebuffer cell at flat position `k`.
    pub(crate) fn screen_put(&mut self, k: usize, c: u8)
        requires
            old(self).wf(),
            k < SCREEN_CELLS,
            c <= 1,
        ensures
            final(self).wf(),
            final(self)@ == (VmView {
                screen: old(self)@.screen.update(k as int, c),
                ..old(self)@
            }),
    {
        self.screen.set(k, c);
    }

    /// Writes the flags register VF.
    pub(crate) fn put_vf(&mut self, c: u8)
        requires
            old(self).wf(),
        ensures
            final(self).wf(),
            final(self)@ == (VmView { regs: old(self)@.regs.update(15, c), ..old(self)@ }),
    {
        self.registers.set(15, c);
    }

    /// Marks the framebuffer dirty.
    pub(crate) fn mark_redraw(&mut self)
        requires
            old(self).wf(),
        ensures
            final(self).wf(),
            final(self)@ == (VmView { redraw: true, ..old(self)@ }),
    {
        self.redraw = true;
    }

    /// The byte at `addr`, or an error when `addr` is out of memory.
    pub fn read_byte(&self, addr: u16) -> (r: Result<u8, VmError>)
        requires
            self.wf(),
        ensures
            addr < MEM_SIZE ==> r == Ok::<u8, VmError>(self@.mem[addr as int]),
            addr >= MEM_SIZE ==> r == Err::<u8, VmError>(
                VmError::OutOfBounds { addr: addr as u32 },
            ),
    {
        if (addr as usize) < MEM_SIZE {
            Ok(self.memory[addr as usize])
        } else {
            Err(VmError::OutOfBounds { addr: addr as u32 })
        }
    }

    /// Writes `val` at `addr`, or fails when `addr` is out of memory.
    pub fn write_byte(&mut self, addr: u16, val: u8) -> (r: Result<(), VmError>)
        requires
            old(self).wf(),
        ensures
            final(self).wf(),
            addr < MEM_SIZE ==> r == Ok::<(), VmError>(()) && final(self)@ == (VmView {
                mem: old(self)@.mem.update(addr as int, val),
                ..old(self)@
            }),
            addr >= MEM_SIZE ==> r == Err::<(), VmError>(
                VmError::OutOfBounds { addr: addr as u32 },
            ) && final(self)@ == old(self)@,
    {
        if (addr as usize) < MEM_SIZE {
            self.memory.set(addr as usize, val);
            Ok(())
        } else {
            Err(VmError::OutOfBounds { addr: addr as u32 })
        }
    }

    /// The value of register VX.
    pub fn reg(&self, x: u8) -> (r: u8)
        requires
            self.wf(),
            x < 16,
        ensures
            r == self@.regs[x as int],
    {
        self.registers[x as usize]
    }

    /// The program counter.
    pub fn pc(&self) -> (r: u16)
        ensures
            r == self@.pc,
    {
        self.program_counter
    }

    /// The index register I.
    pub fn index(&self) -> (r: u16)
        ensures
            r == self@.index,
    {
        self.address
    }

    /// The number of return addresses on the call stack.
    pub fn stack_depth(&self) -> (r: usize)
        requires
            self.wf(),
        ensures
            r == self@.stack.len(),
    {
        self.stack.len()
    }

    /// The delay timer.
    pub fn delay_timer(&self) -> (r: u8)
        ensures
            r == self@.delay,
    {
        self.delay_timer
    }

    /// The sound timer.
    pub fn sound_timer(&self) -> (r: u8)
        ensures
            r == self@.sound,
    {
        self.sound_timer
    }

    /// Whether the engine is replaying a wait-for-key instruction.
    pub fn is_waiting(&self) -> (r: bool)
        ensures
            r == self@.waiting,
    {
        self.waiting_for_keypress
    }

    /// Whether key `key` is pressed in the latch.
    pub fn is_pressed(&self, key: u8) -> (r: bool)
        requires
            self.wf(),
            key < 16,
        ensures
            r == self@.keys[key as int],
    {
        self.keyboard[key as usize]
    }

    /// The lowest pressed key, if any key is pressed.
    pub fn any_pressed(&self) -> (r: Option<u8>)
        requires
            self.wf(),
        ensures
            r == first_pressed_from(self@.keys, 0),
    {
        let mut k: usize = 0;
        while k < NUM_KEYS
            invariant
                k <= NUM_KEYS,
                self.wf(),
                first_pressed_from(self@.keys, 0) == first_pressed_from(self@.keys, k as int),
            decreases NUM_KEYS - k,
        {
            if self.keyboard[k] {
                return Some(k as u8);
            }
            k = k + 1;
        }
        None
    }

    /// The framebuffer cell at column `x`, row `y`: 0 or 1.
    pub fn pixel(&self, x: usize, y: usize) -> (r: u8)
        requires
            self.wf(),
            x < 64,
            y < 32,
        ensures
            r == self@.screen[x as int * 32 + y as int],
            r <= 1,
    {
        self.screen[x * 32 + y]
    }

    /// Consumes the dirty flag: reports whether the framebuffer changed
    /// since the last consumption, and clears the flag.
    pub fn take_redraw(&mut self) -> (r: bool)
        requires
            old(self).wf(),
        ensures
            final(self).wf(),
            r == old(self)@.redraw,
            final(self)@ == (VmView { redraw: false, ..old(self)@ }),
    {
        let r = self.redraw;
        self.redraw = false;
        r
    }

    /// Sets one key of the latch.
    pub fn set_key(&mut self, k: u8, pressed: bool)
        requires
            old(self).wf(),
            k < 16,
        ensures
            final(self).wf(),
            final(self)@ == (VmView {
                keys: old(self)@.keys.update(k as int, pressed),
                ..old(self)@
            }),
    {
        self.keyboard.set(k as usize, pressed);
    }

    /// Releases every key of the latch, as the input source does before
    /// presenting a fresh snapshot.
    pub fn clear_keys(&mut self)
        requires
            old(self).wf(),
        ensures
            final(self).wf(),
            final(self)@ == (VmView {
                keys: Seq::new(NUM_KEYS as nat, |i: int| false),
                ..old(self)@
            }),
    {
        let mut i: usize = 0;
        while i < NUM_KEYS
            invariant
                i <= NUM_KEYS,
                self.wf(),
                self@ == (VmView { keys: self@.keys, ..old(self)@ }),
                self@.keys.len() == NUM_KEYS,
                forall|j: int| 0 <= j < i ==> !self@.keys[j],
            decreases NUM_KEYS - i,
        {
            self.keyboard.set(i, false);
            i = i + 1;
        }
        proof {
            assert(self@.keys =~= Seq::new(NUM_KEYS as nat, |i: int| false));
            assert(self@ =~= (VmView {
                keys: Seq::new(NUM_KEYS as nat, |i: int| false),
                ..old(self)@
            }));
        }
    }

    /// One real-time tick from the external driver: decrements each timer
    /// that is nonzero.  The engine never calls this itself.
    pub fn tick_timers(&mut self)
        requires
            old(self).wf(),
        ensures
            final(self).wf(),
            final(self)@ == spec_tick(old(self)@),
    {
        if self.delay_timer > 0 {
            self.delay_timer = self.delay_timer - 1;
        }
        if self.sound_timer > 0 {
            self.sound_timer = self.sound_timer - 1;
        }
    }

    /// Clears the screen and marks the framebuffer dirty.
    pub fn clear_screen(&mut self)
        requires
            old(self).wf(),
        ensures
            final(self).wf(),
            final(self)@ == spec_clear(old(self)@),
    {
        let mut i: usize = 0;
        while i < SCREEN_CELLS
            invariant
                i <= SCREEN_CELLS,
                self.wf(),
                self@ == (VmView { screen: self@.screen, ..old(self)@ }),
                self@.screen.len() == SCREEN_CELLS,
                forall|j: int| 0 <= j < i ==> self@.screen[j] == 0u8,
            decreases SCREEN_CELLS - i,
        {
            self.screen.set(i, 0);
            i = i + 1;
        }
        self.redraw = true;
        proof {
            assert(self@.screen =~= Seq::new(SCREEN_CELLS as nat, |i: int| 0u8));
            assert(self@ =~= spec_clear(old(self)@));
        }
    }

    /// Jumps to address NNN.
    pub fn jump(&mut self, nnn: u16)
        requires
            old(self).wf(),
        ensures
            final(self).wf(),
            final(self)@ == spec_jump(old(self)@, nnn),
    {
        self.program_counter = nnn;
    }

    /// Calls the subroutine at NNN: pushes the pre-call program counter,
    /// then jumps; fails when the stack is full.
    pub fn fn_call(&mut self, nnn: u16) -> (r: Result<(), VmError>)
        requires
            old(self).wf(),
        ensures
            final(self).wf(),
            (r, final(self)@) == spec_call(old(self)@, nnn),
    {
        if self.stack.len() >= STACK_CAP {
            return Err(VmError::StackOverflow);
        }
        self.stack.push(self.program_counter);
        self.program_counter = nnn;
        Ok(())
    }

    /// Returns from a subroutine: pops the most recent return address into
    /// the program counter; fails when the stack is empty.
    pub fn fn_return(&mut self) -> (r: Result<(), VmError>)
        requires
            old(self).wf(),
        ensures
            final(self).wf(),
            (r, final(self)@) == spec_ret(old(self)@),
    {
        match self.stack.pop() {
            Some(addr) => {
                self.program_counter = addr;
                Ok(())
            },
            None => Err(VmError::StackUnderflow),
        }
    }

    /// Skips the next instruction if VX equals NN.
    pub fn skip_if_variable_is_equal_to(&mut self, x: u8, nn: u8)
        requires
            old(self).wf(),
            x < 16,
            old(self)@.pc + 2 <= u16::MAX,
        ensures
            final(self).wf(),
            final(self)@ == spec_skip(old(self)@, old(self)@.regs[x as int] == nn),
    {
        if self.registers[x as usize] == nn {
            self.program_counter = self.program_counter + 2;
        }
    }

    /// Skips the next instruction if VX does not equal NN.
    pub fn skip_if_variable_is_not_equal_to(&mut self, x: u8, nn: u8)
        requires
            old(self).wf(),
            x < 16,
            old(self)@.pc + 2 <= u16::MAX,
        ensures
            final(self).wf(),
            final(self)@ == spec_skip(old(self)@, old(self)@.regs[x as int] != nn),
    {
        if self.registers[x as usize] != nn {
            self.program_counter = self.program_counter + 2;
        }
    }

    /// Skips the next instruction if VX equals VY.
    pub fn skip_if_variables_equal(&mut self, x: u8, y: u8)
        requires
            old(self).wf(),
            x < 16,
            y < 16,
            old(self)@.pc + 2 <= u16::MAX,
        ensures
            final(self).wf(),
            final(self)@ == spec_skip(
                old(self)@,
                old(self)@.regs[x as int] == old(self)@.regs[y as int],
            ),
    {
        if self.registers[x as usize] == self.registers[y as usize] {
            self.program_counter = self.program_counter + 2;
        }
    }

    /// Skips the next instruction if VX does not equal VY.
    pub fn skip_if_variables_not_equal(&mut self, x: u8, y: u8)
        requires
            old(self).wf(),
            x < 16,
            y < 16,
            old(self)@.pc + 2 <= u16::MAX,
        ensures
            final(self).wf(),
            final(self)@ == spec_skip(
                old(self)@,
                old(self)@.regs[x as int] != old(self)@.regs[y as int],
            ),
    {
        if self.registers[x as usize] != self.registers[y as usize] {
            self.program_counter = self.program_counter + 2;
        }
    }

    /// Sets VX to NN.
    pub fn set_register_to(&mut self, x: u8, nn: u8)
        requires
            old(self).wf(),
            x < 16,
        ensures
            final(self).wf(),
            final(self)@ == spec_set_imm(old(self)@, x as int, nn),
    {
        self.registers.set(x as usize, nn);
    }

    /// Adds NN to VX, wrapping; the carry flag is not changed.
    pub fn add_to_variable(&mut self, x: u8, nn: u8)
        requires
            old(self).wf(),
            x < 16,
        ensures
            final(self).wf(),
            final(self)@ == spec_add_imm(old(self)@, x as int, nn),
    {
        let a = self.registers[x as usize];
        let sum: u16 = a as u16 + nn as u16;
        self.registers.set(x as usize, (sum % 256) as u8);
    }

    /// Sets VX to the value of VY.
    pub fn op_assignment(&mut self, x: u8, y: u8)
        requires
            old(self).wf(),
            x < 16,
            y < 16,
        ensures
            final(self).wf(),
            final(self)@ == spec_set_imm(old(self)@, x as int, old(self)@.regs[y as int]),
    {
        let b = self.registers[y as usize];
        self.registers.set(x as usize, b);
    }

    /// Sets VX to VX bitwise-or VY.
    pub fn op_or(&mut self, x: u8, y: u8)
        requires
            old(self).wf(),
            x < 16,
            y < 16,
        ensures
            final(self).wf(),
            final(self)@ == spec_set_imm(
                old(self)@,
                x as int,
                old(self)@.regs[x as int] | old(self)@.regs[y as int],
            ),
    {
        let a = self.registers[x as usize];
        let b = self.registers[y as usize];
        self.registers.set(x as usize, a | b);
    }

    /// Sets VX to VX bitwise-and VY.
    pub fn op_and(&mut self, x: u8, y: u8)
        requires
            old(self).wf(),
            x < 16,
            y < 16,
        ensures
            final(self).wf(),
            final(self)@ == spec_set_imm(
                old(self)@,
                x as int,
                old(self)@.regs[x as int] & old(self)@.regs[y as int],
            ),
    {
        let a = self.registers[x as usize];
        let b = self.registers[y as usize];
        self.registers.set(x as usize, a & b);
    }

    /// Sets VX to VX bitwise-xor VY.
    pub fn op_xor(&mut self, x: u8, y: u8)
        requires
            old(self).wf(),
            x < 16,
            y < 16,
        ensures
            final(self).wf(),
            final(self)@ == spec_set_imm(
                old(self)@,
                x as int,
                old(self)@.regs[x as int] ^ old(self)@.regs[y as int],
            ),
    {
        let a = self.registers[x as usize];
        let b = self.registers[y as usize];
        self.registers.set(x as usize, a ^ b);
    }

    /// Adds VY to VX, wrapping; VF becomes 1 exactly when the sum wrapped.
    pub fn op_add(&mut self, x: u8, y: u8)
        requires
            old(self).wf(),
            x < 16,
            y < 16,
        ensures
            final(self).wf(),
            final(self)@ == spec_add_reg(old(self)@, x as int, y as int),
    {
        let a = self.registers[x as usize];
        let b = self.registers[y as usize];
        let sum: u16 = a as u16 + b as u16;
        self.registers.set(x as usize, (sum % 256) as u8);
        self.registers.set(15, if sum >= 256 { 1 } else { 0 });
    }

    /// Subtracts VY from VX, wrapping; VF becomes 1 exactly when a borrow
    /// occurred, and 0 when it did not.
    pub fn op_sub(&mut self, x: u8, y: u8)
        requires
            old(self).wf(),
            x < 16,
            y < 16,
        ensures
            final(self).wf(),
            final(self)@ == spec_sub(old(self)@, x as int, y as int),
    {
        let a = self.registers[x as usize];
        let b = self.registers[y as usize];
        let diff: u8 = if a >= b {
            a - b
        } else {
            ((a as u16 + 256 - b as u16) % 256) as u8
        };
        self.registers.set(x as usize, diff);
        self.registers.set(15, if a < b { 1 } else { 0 });
    }

    /// Stores the low bit of VX in VF, then shifts VX right by 1.
    pub fn op_shift_right(&mut self, x: u8)
        requires
            old(self).wf(),
            x < 16,
        ensures
            final(self).wf(),
            final(self)@ == spec_shr(old(self)@, x as int),
    {
        let a = self.registers[x as usize];
        self.registers.set(15, a % 2);
        let c = self.registers[x as usize];
        self.registers.set(x as usize, c / 2);
    }

    /// Sets VX to VY minus VX, wrapping; VF becomes 1 exactly when a borrow
    /// occurred, and 0 when it did not.
    pub fn op_sub_assign(&mut self, x: u8, y: u8)
        requires
            old(self).wf(),
            x < 16,
            y < 16,
        ensures
            final(self).wf(),
            final(self)@ == spec_subn(old(self)@, x as int, y as int),
    {
        let a = self.registers[x as usize];
        let b = self.registers[y as usize];
        let diff: u8 = if b >= a {
            b - a
        } else {
            ((b as u16 + 256 - a as u16) % 256) as u8
        };
        self.registers.set(x as usize, diff);
        self.registers.set(15, if b < a { 1 } else { 0 });
    }

    /// Stores the raw masked high bit of VX (0 or 0x80) in VF, then shifts
    /// VX left by 1, wrapping.
    pub fn op_shift_left(&mut self, x: u8)
        requires
            old(self).wf(),
            x < 16,
        ensures
            final(self).wf(),
            final(self)@ == spec_shl(old(self)@, x as int),
    {
        let a = self.registers[x as usize];
        self.registers.set(15, if a >= 128 { 128 } else { 0 });
        let c = self.registers[x as usize];
        let doubled: u16 = (c as u16 * 2) % 256;
        self.registers.set(x as usize, doubled as u8);
    }

    /// Sets I to the address NNN.
    pub fn set_address_to(&mut self, nnn: u16)
        requires
            old(self).wf(),
        ensures
            final(self).wf(),
            final(self)@ == spec_set_index(old(self)@, nnn),
    {
        self.address = nnn;
    }

    /// Sets I to the address NNN plus V0.
    pub fn jump_add(&mut self, nnn: u16)
        requires
            old(self).wf(),
            nnn <= 0xFFF,
        ensures
            final(self).wf(),
            final(self)@ == spec_index_v0(old(self)@, nnn),
    {
        let v0 = self.registers[0];
        self.address = nnn + v0 as u16;
    }

    /// Sets VX to a random byte bitwise-and NN; `b` is the byte the
    /// generator produced.
    pub fn bitwise_and_with_byte(&mut self, x: u8, nn: u8, b: u8)
        requires
            old(self).wf(),
            x < 16,
        ensures
            final(self).wf(),
            final(self)@ == spec_random(old(self)@, x as int, nn, b),
    {
        self.registers.set(x as usize, b & nn);
    }

    /// Scans the key latch: when some key is pressed, stores the lowest
    /// pressed key in VX and leaves waiting mode; when none is, rewinds the
    /// program counter by one instruction and enters waiting mode, so the
    /// same instruction replays next cycle.
    pub fn get_key_press(&mut self, x: u8)
        requires
            old(self).wf(),
            x < 16,
            old(self)@.pc >= 2,
        ensures
            final(self).wf(),
            final(self)@ == spec_wait_key(old(self)@, x as int),
    {
        let mut k: usize = 0;
        while k < NUM_KEYS
            invariant
                k <= NUM_KEYS,
                x < 16,
                self.wf(),
                self == old(self),
                self@.pc >= 2,
                first_pressed_from(self@.keys, 0) == first_pressed_from(self@.keys, k as int),
            decreases NUM_KEYS - k,
        {
            if self.keyboard[k] {
                self.registers.set(x as usize, k as u8);
                self.waiting_for_keypress = false;
                return;
            }
            k = k + 1;
        }
        self.program_counter = self.program_counter - 2;
        self.waiting_for_keypress = true;
    }

    /// Skips the next instruction if the key numbered by VX is not pressed;
    /// fails when VX does not hold a key number.
    pub fn skip_if_not_pressed(&mut self, x: u8) -> (r: Result<(), VmError>)
        requires
            old(self).wf(),
            x < 16,
            old(self)@.pc + 2 <= u16::MAX,
        ensures
            final(self).wf(),
            (r, final(self)@) == spec_skip_key(old(self)@, x as int, false),
    {
        let key = self.registers[x as usize];
        if key >= NUM_KEYS as u8 {
            return Err(VmError::OutOfBounds { addr: key as u32 });
        }
        if !self.keyboard[key as usize] {
            self.program_counter = self.program_counter + 2;
        }
        Ok(())
    }

    /// Skips the next instruction if the key numbered by VX is pressed;
    /// fails when VX does not hold a key number.
    pub fn skip_if_pressed(&mut self, x: u8) -> (r: Result<(), VmError>)
        requires
            old(self).wf(),
            x < 16,
            old(self)@.pc + 2 <= u16::MAX,
        ensures
            final(self).wf(),
            (r, final(self)@) == spec_skip_key(old(self)@, x as int, true),
    {
        let key = self.registers[x as usize];
        if key >= NUM_KEYS as u8 {
            return Err(VmError::OutOfBounds { addr: key as u32 });
        }
        if self.keyboard[key as usize] {
            self.program_counter = self.program_counter + 2;
        }
        Ok(())
    }

    /// Sets VX to the value of the delay timer.
    pub fn set_variable_to_delay_timer(&mut self, x: u8)
        requires
            old(self).wf(),
            x < 16,
        ensures
            final(self).wf(),
            final(self)@ == spec_get_delay(old(self)@, x as int),
    {
        let d = self.delay_timer;
        self.registers.set(x as usize, d);
    }

    /// Adds VX to I, wrapping; VF is not affected.
    pub fn add_variable_to_address(&mut self, x: u8)
        requires
            old(self).wf(),
            x < 16,
        ensures
            final(self).wf(),
            final(self)@ == spec_add_index(old(self)@, x as int),
    {
        let val = self.registers[x as usize];
        self.address = self.address.wrapping_add(val as u16);
    }

    /// Sets I to the address of the font glyph for the digit in VX: five
    /// times VX.
    pub fn sets_address_to_font_sprite(&mut self, x: u8)
        requires
            old(self).wf(),
            x < 16,
        ensures
            final(self).wf(),
            final(self)@ == spec_font_addr(old(self)@, x as int),
    {
        let character = self.registers[x as usize];
        self.address = 5 * character as u16;
    }

    /// Stores the binary-coded-decimal digits of VX at I, I+1 and I+2;
    /// fails when I+2 is out of memory.
    pub fn store_variable_as_binary(&mut self, x: u8) -> (r: Result<(), VmError>)
        requires
            old(self).wf(),
            x < 16,
        ensures
            final(self).wf(),
            (r, final(self)@) == spec_bcd(old(self)@, x as int),
    {
        if self.address as usize + 2 >= MEM_SIZE {
            return Err(VmError::OutOfBounds { addr: self.address as u32 + 2 });
        }
        let val = self.registers[x as usize];
        let base = self.address as usize;
        self.memory.set(base, val / 100);
        self.memory.set(base + 1, (val % 100) / 10);
        self.memory.set(base + 2, val % 10);
        Ok(())
    }

    /// Stores V0 through VX in memory starting at I, leaving I unchanged;
    /// fails when I+X is out of memory.
    pub fn dump_registers_into_memory(&mut self, x: u8) -> (r: Result<(), VmError>)
        requires
            old(self).wf(),
            x < 16,
        ensures
            final(self).wf(),
            (r, final(self)@) == spec_dump(old(self)@, x as int),
    {
        if self.address as usize + x as usize >= MEM_SIZE {
            return Err(VmError::OutOfBounds { addr: self.address as u32 + x as u32 });
        }
        let mut i: usize = 0;
        while i <= x as usize
            invariant
                x < 16,
                i <= x + 1,
                old(self)@.index + x < MEM_SIZE,
                self.wf(),
                self@ == (VmView { mem: self@.mem, ..old(self)@ }),
                self@.mem.len() == MEM_SIZE,
                forall|j: int| 0 <= j < i ==> self@.mem[old(self)@.index + j]
                    == old(self)@.regs[j],
                forall|j: int| 0 <= j < MEM_SIZE
                    && !(old(self)@.index <= j < old(self)@.index + i)
                    ==> self@.mem[j] == old(self)@.mem[j],
            decreases x + 1 - i,
        {
            let val = self.registers[i];
            self.memory.set(self.address as usize + i, val);
            i = i + 1;
        }
        proof {
            assert(self@.mem =~= spec_dump(old(self)@, x as int).1.mem);
            assert(self@ =~= spec_dump(old(self)@, x as int).1);
        }
        Ok(())
    }

    /// Fills V0 through VX from memory starting at I, leaving I unchanged;
    /// fails when I+X is out of memory.
    pub fn load_registers_from_memory(&mut self, x: u8) -> (r: Result<(), VmError>)
        requires
            old(self).wf(),
            x < 16,
        ensures
            final(self).wf(),
            (r, final(self)@) == spec_load(old(self)@, x as int),
    {
        if self.address as usize + x as usize >= MEM_SIZE {
            return Err(VmError::OutOfBounds { addr: self.address as u32 + x as u32 });
        }
        let mut i: usize = 0;
        while i <= x as usize
            invariant
                x < 16,
                i <= x + 1,
                old(self)@.index + x < MEM_SIZE,
                self.wf(),
                self@ == (VmView { regs: self@.regs, ..old(self)@ }),
                self@.regs.len() == NUM_REGS,
                forall|j: int| 0 <= j < i ==> self@.regs[j]
                    == old(self)@.mem[old(self)@.index + j],
                forall|j: int| i <= j < NUM_REGS ==> self@.regs[j] == old(self)@.regs[j],
            decreases x + 1 - i,
        {
            let val = self.memory[self.address as usize + i];
            self.registers.set(i, val);
            i = i + 1;
        }
        proof {
            assert(self@.regs =~= spec_load(old(self)@, x as int).1.regs);
            assert(self@ =~= spec_load(old(self)@, x as int).1);
        }
        Ok(())
    }

    /// Sets the delay timer to VX.
    pub fn set_delay_timer_to(&mut self, x: u8)
        requires
            old(self).wf(),
            x < 16,
        ensures
            final(self).wf(),
            final(self)@ == spec_set_delay(old(self)@, x as int),
    {
        self.delay_timer = self.registers[x as usize];
    }

    /// Sets the sound timer to VX.
    pub fn set_sound_timer_to(&mut self, x: u8)
        requires
            old(self).wf(),
            x < 16,
        ensures
            final(self).wf(),
            final(self)@ == spec_set_sound(old(self)@, x as int),
    {
        self.sound_timer = self.registers[x as usize];
    }
}

} // verus!
