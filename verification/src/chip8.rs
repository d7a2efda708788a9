//! The CHIP-8 CPU: 4096 bytes of memory with the font at the bottom, sixteen
//! 8-bit registers, a 16-slot call stack, the index register, the program
//! counter, the two timers, the framebuffer, the keypad, and the
//! fetch-decode-execute cycle over all of them.

use vstd::prelude::*;
use rand::Rng;
use crate::display::{draw_collides, draw_rel, Display};
use crate::font::{font_set, font_vec};
use crate::instr::{decode, spec_decode, wf_instr, Instruction};
use crate::keypad::Keypad;

verus! {

/// The CPU either executes instructions or sits suspended at a blocking key
/// wait, holding the register the pressed key must land in.
#[derive(Clone, Copy, PartialEq, Eq, Structural, Debug)]
pub enum CpuState {
    Running,
    AwaitingKey { reg: u8 },
}

/// The halting conditions a cycle or a load can surface to the driver.
#[derive(Clone, Copy, PartialEq, Eq, Structural, Debug)]
pub enum Chip8Error {
    /// A ROM longer than the 0xE00 bytes of loadable memory.
    RomTooLarge,
    /// A fetched opcode matching no defined pattern.
    UnrecognizedOpcode,
    /// A CALL with the stack already 16 deep.
    StackOverflow,
    /// A RET with the stack empty.
    StackUnderflow,
    /// A memory access outside 0x000..=0xFFF.
    AddressOutOfRange,
}

pub struct Chip8 {
    /// Program counter: address of the next instruction to fetch.
    pub pc: u16,
    /// The sixteen general registers V0..=VF.
    pub v: Vec<u8>,
    /// The index register I.
    pub i: u16,
    /// Return addresses of the calls in flight.
    pub stack: Vec<u16>,
    /// Stack pointer: number of return addresses on the stack.
    pub sp: usize,
    /// The 4096-byte address space.
    pub memory: Vec<u8>,
    pub delay_timer: u8,
    pub sound_timer: u8,
    pub display: Display,
    pub keypad: Keypad,
    pub state: CpuState,
}

/// `r` is success.
pub open spec fn is_ok(r: Result<(), Chip8Error>) -> bool {
    r == Ok::<(), Chip8Error>(())
}

/// `r` is exactly the error `e`.
pub open spec fn is_err(r: Result<(), Chip8Error>, e: Chip8Error) -> bool {
    r == Err::<(), Chip8Error>(e)
}

/// The registers of `b` are those of `a`.
pub open spec fn same_regs(a: Chip8, b: Chip8) -> bool {
    b.v@ == a.v@
}

/// The memory of `b` is that of `a`.
pub open spec fn same_mem(a: Chip8, b: Chip8) -> bool {
    b.memory@ == a.memory@
}

/// The call stack and stack pointer of `b` are those of `a`.
pub open spec fn same_stack(a: Chip8, b: Chip8) -> bool {
    b.stack@ == a.stack@ && b.sp == a.sp
}

/// The two timers of `b` are those of `a`.
pub open spec fn same_timers(a: Chip8, b: Chip8) -> bool {
    b.delay_timer == a.delay_timer && b.sound_timer == a.sound_timer
}

/// The framebuffer of `b` is that of `a`.
pub open spec fn same_display(a: Chip8, b: Chip8) -> bool {
    b.display.memory@ == a.display.memory@
}

/// The keypad of `b` is that of `a`.
pub open spec fn same_keypad(a: Chip8, b: Chip8) -> bool {
    b.keypad.keys@ == a.keypad.keys@
}

/// The run/wait state of `b` is that of `a`.
pub open spec fn same_state(a: Chip8, b: Chip8) -> bool {
    b.state == a.state
}

/// Everything but the registers and the program counter is untouched.
pub open spec fn frame_regs_pc(a: Chip8, b: Chip8) -> bool {
    &&& b.i == a.i
    &&& same_mem(a, b)
    &&& same_stack(a, b)
    &&& same_timers(a, b)
    &&& same_display(a, b)
    &&& same_keypad(a, b)
    &&& same_state(a, b)
}

impl Chip8 {
    /// Structural well-formedness: every fixed-size part has its size, the
    /// stack pointer is in range, and a pending key wait names a real
    /// register from a resumable program counter.
    pub open spec fn wf(self) -> bool {
        &&& self.v@.len() == 16
        &&& self.stack@.len() == 16
        &&& self.sp <= 16
        &&& self.memory@.len() == 4096
        &&& self.display.wf()
        &&& self.keypad.wf()
        &&& (self.state matches CpuState::AwaitingKey { reg } ==> reg < 16 && self.pc
            <= 0xFFFD)
    }

    /// Runtime check of `wf`, for unverified callers that must not hand a
    /// malformed machine to the verified entry points.
    pub fn is_well_formed(&self) -> (r: bool)
        ensures
            r == self.wf(),
    {
        let state_ok = match self.state {
            CpuState::Running => true,
            CpuState::AwaitingKey { reg } => reg < 16 && self.pc <= 0xFFFD,
        };
        self.v.len() == 16 && self.stack.len() == 16 && self.sp <= 16 && self.memory.len() == 4096
            && self.display.memory.len() == 2048 && self.keypad.keys.len() == 16 && state_ok
    }

    /// A fresh machine: font at the bottom of memory, everything else zeroed,
    /// the program counter at the first loadable address, ready to run.
    pub fn new() -> (r: Chip8)
        ensures
            r.wf(),
            r.pc == 0x200,
            r.i == 0,
            r.sp == 0,
            r.delay_timer == 0,
            r.sound_timer == 0,
            r.state == CpuState::Running,
            forall|k: int| 0 <= k < 16 ==> r.v@[k] == 0,
            forall|k: int| 0 <= k < 16 ==> r.stack@[k] == 0,
            forall|j: int| 0 <= j < 80 ==> r.memory@[j] == font_set()[j],
            forall|a: int| 80 <= a < 4096 ==> r.memory@[a] == 0,
            forall|p: int| 0 <= p < 2048 ==> !r.display.memory@[p],
            forall|k: int| 0 <= k < 16 ==> !r.keypad.keys@[k],
    {
        let mut memory = font_vec();
        while memory.len() < 4096
            invariant
                80 <= memory@.len() <= 4096,
                forall|j: int| 0 <= j < 80 ==> memory@[j] == font_set()[j],
                forall|a: int| 80 <= a < memory@.len() ==> memory@[a] == 0,
            decreases 4096 - memory@.len(),
        {
            memory.push(0);
        }
        let mut v: Vec<u8> = Vec::new();
        while v.len() < 16
            invariant
                v@.len() <= 16,
                forall|k: int| 0 <= k < v@.len() ==> v@[k] == 0,
            decreases 16 - v@.len(),
        {
            v.push(0);
        }
        let mut stack: Vec<u16> = Vec::new();
        while stack.len() < 16
            invariant
                stack@.len() <= 16,
                forall|k: int| 0 <= k < stack@.len() ==> stack@[k] == 0,
            decreases 16 - stack@.len(),
        {
            stack.push(0);
        }
        Chip8 {
            pc: 0x200,
            v,
            i: 0,
            stack,
            sp: 0,
            memory,
            delay_timer: 0,
            sound_timer: 0,
            display: Display::new(),
            keypad: Keypad::new(),
            state: CpuState::Running,
        }
    }

    /// Copies `rom` into memory starting at 0x200, all or nothing: a ROM
    /// longer than the 0xE00 loadable bytes is rejected before any byte
    /// moves, and the reserved area below 0x200 is never written.
    pub fn load_rom(&mut self, rom: &Vec<u8>) -> (r: Result<(), Chip8Error>)
        requires
            old(self).wf(),
        ensures
            final(self).wf(),
            rom@.len() > 0xE00 ==> is_err(r, Chip8Error::RomTooLarge) && *final(self) == *old(
                self,
            ),
            rom@.len() <= 0xE00 ==> {
                &&& is_ok(r)
                &&& forall|a: int| 0 <= a < 0x200 ==> final(self).memory@[a] == old(
                    self,
                ).memory@[a]
                &&& forall|j: int| 0 <= j < rom@.len() ==> final(self).memory@[0x200 + j]
                    == rom@[j]
                &&& forall|a: int| 0x200 + rom@.len() <= a < 4096 ==> final(self).memory@[a]
                    == old(self).memory@[a]
                &&& final(self).pc == old(self).pc
                &&& final(self).i == old(self).i
                &&& same_regs(*old(self), *final(self))
                &&& same_stack(*old(self), *final(self))
                &&& same_timers(*old(self), *final(self))
                &&& same_display(*old(self), *final(self))
                &&& same_keypad(*old(self), *final(self))
                &&& same_state(*old(self), *final(self))
            },
    {
        if rom.len() > 0xE00 {
            return Err(Chip8Error::RomTooLarge);
        }
        let mut j: usize = 0;
        while j < rom.len()
            invariant
                j <= rom@.len(),
                rom@.len() <= 0xE00,
                self.memory@.len() == 4096,
                forall|a: int| 0 <= a < 0x200 ==> self.memory@[a] == old(self).memory@[a],
                forall|k: int| 0 <= k < j ==> self.memory@[0x200 + k] == rom@[k],
                forall|a: int| 0x200 + j <= a < 4096 ==> self.memory@[a] == old(self).memory@[a],
                self.pc == old(self).pc,
                self.i == old(self).i,
                self.v@ == old(self).v@,
                self.stack@ == old(self).stack@,
                self.sp == old(self).sp,
                self.delay_timer == old(self).delay_timer,
                self.sound_timer == old(self).sound_timer,
                self.display.memory@ == old(self).display.memory@,
                self.keypad.keys@ == old(self).keypad.keys@,
                self.state == old(self).state,
                old(self).wf(),
            decreases rom@.len() - j,
        {
            self.memory.set(0x200 + j, rom[j]);
            j = j + 1;
        }
        Ok(())
    }

    /// One external timer tick: each timer drops by one, stopping at zero;
    /// the clock never pushes a timer below zero and never raises one.
    pub fn decrement_timers(&mut self)
        requires
            old(self).wf(),
        ensures
            final(self).wf(),
            final(self).delay_timer == tick8(old(self).delay_timer),
            final(self).sound_timer == tick8(old(self).sound_timer),
            final(self).pc == old(self).pc,
            final(self).i == old(self).i,
            same_regs(*old(self), *final(self)),
            same_mem(*old(self), *final(self)),
            same_stack(*old(self), *final(self)),
            same_display(*old(self), *final(self)),
            same_keypad(*old(self), *final(self)),
            same_state(*old(self), *final(self)),
    {
        if self.delay_timer > 0 {
            self.delay_timer = self.delay_timer - 1;
        }
        if self.sound_timer > 0 {
            self.sound_timer = self.sound_timer - 1;
        }
    }

    /// The "sound should be playing now" signal the audio driver polls.
    pub fn should_emit_sound(&self) -> (r: bool)
        ensures
            r == (self.sound_timer > 0),
    {
        self.sound_timer > 0
    }
}

/// One timer tick on one counter: down by one, floored at zero.
pub open spec fn tick8(t: u8) -> u8 {
    if t > 0 {
        (t - 1) as u8
    } else {
        0u8
    }
}

/// Timer floor: a tick never drives a counter below zero and never raises
/// it, so no number of repeated ticks can either.
pub proof fn lemma_timer_floor(t: u8)
    ensures
        0 <= tick8(t) <= t,
{
}

/// Addition of two register bytes, truncated to 8 bits.
pub open spec fn wrap_add8(a: u8, b: u8) -> u8 {
    ((a + b) % 256) as u8
}

/// The carry out of an 8-bit addition: 1 exactly when the full sum exceeds 255.
pub open spec fn carry8(a: u8, b: u8) -> u8 {
    if a + b > 255 {
        1u8
    } else {
        0u8
    }
}

/// Subtraction of two register bytes, modulo 256.
pub open spec fn wrap_sub8(a: u8, b: u8) -> u8 {
    if a >= b {
        (a - b) as u8
    } else {
        ((a - b) + 256) as u8
    }
}

/// The NOT-borrow flag of an 8-bit subtraction: 1 exactly when `a >= b`.
pub open spec fn no_borrow8(a: u8, b: u8) -> u8 {
    if a >= b {
        1u8
    } else {
        0u8
    }
}

/// Whether the key a register selects is down; a register value with no
/// matching key counts as not pressed.
pub open spec fn key_down(s: Chip8, vx: u8) -> bool {
    vx < 16 && s.keypad.keys@[vx as int]
}

/// Only register `x` changes, to `val`.
pub open spec fn rel_set_reg(pre: Chip8, post: Chip8, x: int, val: u8) -> bool {
    &&& post.v@ == pre.v@.update(x, val)
    &&& post.pc == pre.pc
    &&& frame_regs_pc(pre, post)
}

/// Register `x` takes `val` and then VF takes `flag`, so VF holds the flag
/// even when `x` is 0xF itself.
pub open spec fn rel_set_reg_flag(pre: Chip8, post: Chip8, x: int, val: u8, flag: u8) -> bool {
    &&& post.v@ == pre.v@.update(x, val).update(15, flag)
    &&& post.pc == pre.pc
    &&& frame_regs_pc(pre, post)
}

/// The program counter alone moves: two further bytes ahead when `cond`
/// holds, else it stays.
pub open spec fn rel_skip_if(pre: Chip8, post: Chip8, cond: bool) -> bool {
    &&& post.pc == if cond {
        (pre.pc + 2) as u16
    } else {
        pre.pc
    }
    &&& same_regs(pre, post)
    &&& frame_regs_pc(pre, post)
}

/// The program counter alone moves, to `target`.
pub open spec fn rel_jump(pre: Chip8, post: Chip8, target: u16) -> bool {
    &&& post.pc == target
    &&& same_regs(pre, post)
    &&& frame_regs_pc(pre, post)
}

/// The index register alone changes, to `val`.
pub open spec fn rel_set_i(pre: Chip8, post: Chip8, val: u16) -> bool {
    &&& post.i == val
    &&& post.pc == pre.pc
    &&& same_regs(pre, post)
    &&& same_mem(pre, post)
    &&& same_stack(pre, post)
    &&& same_timers(pre, post)
    &&& same_display(pre, post)
    &&& same_keypad(pre, post)
    &&& same_state(pre, post)
}

/// The framebuffer alone changes, to fully dark.
pub open spec fn rel_cls(pre: Chip8, post: Chip8) -> bool {
    &&& post.display.memory@.len() == 2048
    &&& forall|p: int| 0 <= p < 2048 ==> !post.display.memory@[p]
    &&& post.pc == pre.pc
    &&& post.i == pre.i
    &&& same_regs(pre, post)
    &&& same_mem(pre, post)
    &&& same_stack(pre, post)
    &&& same_timers(pre, post)
    &&& same_keypad(pre, post)
    &&& same_state(pre, post)
}

/// Return from a subroutine: the stack pointer drops by one and the program
/// counter takes the popped return address; with the stack empty, a
/// `StackUnderflow` and no change at all.
pub open spec fn rel_ret(pre: Chip8, post: Chip8, r: Result<(), Chip8Error>) -> bool {
    if pre.sp == 0 {
        is_err(r, Chip8Error::StackUnderflow) && post == pre
    } else {
        &&& is_ok(r)
        &&& post.sp == pre.sp - 1
        &&& post.pc == pre.stack@[pre.sp - 1]
        &&& post.stack@ == pre.stack@
        &&& post.i == pre.i
        &&& same_regs(pre, post)
        &&& same_mem(pre, post)
        &&& same_timers(pre, post)
        &&& same_display(pre, post)
        &&& same_keypad(pre, post)
        &&& same_state(pre, post)
    }
}

/// Call the subroutine at `nnn`: the current program counter is pushed, the
/// stack pointer rises, and execution continues at `nnn`; with the stack
/// already 16 deep, a `StackOverflow` and no change at all.
pub open spec fn rel_call(pre: Chip8, post: Chip8, nnn: u16, r: Result<(), Chip8Error>) -> bool {
    if pre.sp >= 16 {
        is_err(r, Chip8Error::StackOverflow) && post == pre
    } else {
        &&& is_ok(r)
        &&& post.sp == pre.sp + 1
        &&& post.stack@ == pre.stack@.update(pre.sp as int, pre.pc)
        &&& post.pc == nnn
        &&& post.i == pre.i
        &&& same_regs(pre, post)
        &&& same_mem(pre, post)
        &&& same_timers(pre, post)
        &&& same_display(pre, post)
        &&& same_keypad(pre, post)
        &&& same_state(pre, post)
    }
}

/// The delay timer alone changes, to `val`.
pub open spec fn rel_set_delay(pre: Chip8, post: Chip8, val: u8) -> bool {
    &&& post.delay_timer == val
    &&& post.sound_timer == pre.sound_timer
    &&& post.pc == pre.pc
    &&& post.i == pre.i
    &&& same_regs(pre, post)
    &&& same_mem(pre, post)
    &&& same_stack(pre, post)
    &&& same_display(pre, post)
    &&& same_keypad(pre, post)
    &&& same_state(pre, post)
}

/// The sound timer alone changes, to `val`.
pub open spec fn rel_set_sound(pre: Chip8, post: Chip8, val: u8) -> bool {
    &&& post.sound_timer == val
    &&& post.delay_timer == pre.delay_timer
    &&& post.pc == pre.pc
    &&& post.i == pre.i
    &&& same_regs(pre, post)
    &&& same_mem(pre, post)
    &&& same_stack(pre, post)
    &&& same_display(pre, post)
    &&& same_keypad(pre, post)
    &&& same_state(pre, post)
}

/// Entry into the blocking key wait: the CPU suspends at the wait
/// instruction (the program counter steps back onto it) and remembers the
/// register the key index must land in.
pub open spec fn rel_wait_enter(pre: Chip8, post: Chip8, x: int) -> bool {
    &&& post.state == (CpuState::AwaitingKey { reg: x as u8 })
    &&& post.pc == (pre.pc - 2) as u16
    &&& post.i == pre.i
    &&& same_regs(pre, post)
    &&& same_mem(pre, post)
    &&& same_stack(pre, post)
    &&& same_timers(pre, post)
    &&& same_display(pre, post)
    &&& same_keypad(pre, post)
}

/// Sprite draw: the `n` bytes at I go to the framebuffer at (Vx, Vy) per
/// `draw_rel`, and VF records the collision; a sprite read reaching past the
/// top of memory is an `AddressOutOfRange` and no change at all.
pub open spec fn rel_drw(pre: Chip8, post: Chip8, x: int, y: int, n: int, r: Result<
    (),
    Chip8Error,
>) -> bool {
    if pre.i + n > 4096 {
        is_err(r, Chip8Error::AddressOutOfRange) && post == pre
    } else {
        let sprite = pre.memory@.subrange(pre.i as int, pre.i + n);
        let coll = draw_collides(pre.display.memory@, pre.v@[x] as int, pre.v@[y] as int, sprite);
        &&& is_ok(r)
        &&& draw_rel(
            pre.display.memory@,
            post.display.memory@,
            pre.v@[x] as int,
            pre.v@[y] as int,
            sprite,
            coll,
        )
        &&& post.v@ == pre.v@.update(15, if coll { 1u8 } else { 0u8 })
        &&& post.pc == pre.pc
        &&& post.i == pre.i
        &&& same_mem(pre, post)
        &&& same_stack(pre, post)
        &&& same_timers(pre, post)
        &&& same_keypad(pre, post)
        &&& same_state(pre, post)
    }
}

/// BCD store: the three decimal digits of Vx land at I, I+1, I+2; an access
/// past the top of memory is an `AddressOutOfRange` and no change at all.
pub open spec fn rel_bcd(pre: Chip8, post: Chip8, x: int, r: Result<(), Chip8Error>) -> bool {
    if pre.i + 2 >= 4096 {
        is_err(r, Chip8Error::AddressOutOfRange) && post == pre
    } else {
        let vx = pre.v@[x];
        &&& is_ok(r)
        &&& post.memory@ == pre.memory@.update(pre.i as int, (vx / 100) as u8).update(
            pre.i + 1,
            ((vx / 10) % 10) as u8,
        ).update(pre.i + 2, (vx % 10) as u8)
        &&& post.pc == pre.pc
        &&& post.i == pre.i
        &&& same_regs(pre, post)
        &&& same_stack(pre, post)
        &&& same_timers(pre, post)
        &&& same_display(pre, post)
        &&& same_keypad(pre, post)
        &&& same_state(pre, post)
    }
}

/// Register dump: V0..=Vx go to memory at I..=I+x; an access past the top of
/// memory is an `AddressOutOfRange` and no change at all.
pub open spec fn rel_dump(pre: Chip8, post: Chip8, x: int, r: Result<(), Chip8Error>) -> bool {
    if pre.i + x >= 4096 {
        is_err(r, Chip8Error::AddressOutOfRange) && post == pre
    } else {
        &&& is_ok(r)
        &&& post.memory@.len() == 4096
        &&& forall|a: int|
            0 <= a < 4096 ==> #[trigger] post.memory@[a] == if pre.i <= a <= pre.i + x {
                pre.v@[a - pre.i]
            } else {
                pre.memory@[a]
            }
        &&& post.pc == pre.pc
        &&& post.i == pre.i
        &&& same_regs(pre, post)
        &&& same_stack(pre, post)
        &&& same_timers(pre, post)
        &&& same_display(pre, post)
        &&& same_keypad(pre, post)
        &&& same_state(pre, post)
    }
}

/// Register load: V0..=Vx are read from memory at I..=I+x, the higher
/// registers stay; an access past the top of memory is an
/// `AddressOutOfRange` and no change at all.
pub open spec fn rel_load(pre: Chip8, post: Chip8, x: int, r: Result<(), Chip8Error>) -> bool {
    if pre.i + x >= 4096 {
        is_err(r, Chip8Error::AddressOutOfRange) && post == pre
    } else {
        &&& is_ok(r)
        &&& post.v@.len() == 16
        &&& forall|k: int|
            0 <= k < 16 ==> #[trigger] post.v@[k] == if k <= x {
                pre.memory@[pre.i + k]
            } else {
                pre.v@[k]
            }
        &&& post.pc == pre.pc
        &&& post.i == pre.i
        &&& same_mem(pre, post)
        &&& same_stack(pre, post)
        &&& same_timers(pre, post)
        &&& same_display(pre, post)
        &&& same_keypad(pre, post)
        &&& same_state(pre, post)
    }
}

/// What one instruction does to the machine: `post` and `r` against `pre`,
/// with `rb` the byte the random instruction drew.
pub open spec fn exec_rel(
    pre: Chip8,
    instr: Instruction,
    rb: u8,
    post: Chip8,
    r: Result<(), Chip8Error>,
) -> bool {
    match instr {
        Instruction::Cls => is_ok(r) && rel_cls(pre, post),
        Instruction::Ret => rel_ret(pre, post, r),
        Instruction::Jp { nnn } => is_ok(r) && rel_jump(pre, post, nnn),
        Instruction::Call { nnn } => rel_call(pre, post, nnn, r),
        Instruction::SeImm { x, kk } => is_ok(r) && rel_skip_if(pre, post, pre.v@[x as int] == kk),
        Instruction::SneImm { x, kk } => is_ok(r) && rel_skip_if(
            pre,
            post,
            pre.v@[x as int] != kk,
        ),
        Instruction::SeReg { x, y } => is_ok(r) && rel_skip_if(
            pre,
            post,
            pre.v@[x as int] == pre.v@[y as int],
        ),
        Instruction::LdImm { x, kk } => is_ok(r) && rel_set_reg(pre, post, x as int, kk),
        Instruction::AddImm { x, kk } => is_ok(r) && rel_set_reg(
            pre,
            post,
            x as int,
            wrap_add8(pre.v@[x as int], kk),
        ),
        Instruction::LdReg { x, y } => is_ok(r) && rel_set_reg(
            pre,
            post,
            x as int,
            pre.v@[y as int],
        ),
        Instruction::Or { x, y } => is_ok(r) && rel_set_reg(
            pre,
            post,
            x as int,
            pre.v@[x as int] | pre.v@[y as int],
        ),
        Instruction::And { x, y } => is_ok(r) && rel_set_reg(
            pre,
            post,
            x as int,
            pre.v@[x as int] & pre.v@[y as int],
        ),
        Instruction::Xor { x, y } => is_ok(r) && rel_set_reg(
            pre,
            post,
            x as int,
            pre.v@[x as int] ^ pre.v@[y as int],
        ),
        Instruction::AddReg { x, y } => is_ok(r) && rel_set_reg_flag(
            pre,
            post,
            x as int,
            wrap_add8(pre.v@[x as int], pre.v@[y as int]),
            carry8(pre.v@[x as int], pre.v@[y as int]),
        ),
        Instruction::SubReg { x, y } => is_ok(r) && rel_set_reg_flag(
            pre,
            post,
            x as int,
            wrap_sub8(pre.v@[x as int], pre.v@[y as int]),
            no_borrow8(pre.v@[x as int], pre.v@[y as int]),
        ),
        Instruction::Shr { x } => is_ok(r) && rel_set_reg_flag(
            pre,
            post,
            x as int,
            (pre.v@[x as int] / 2) as u8,
            (pre.v@[x as int] % 2) as u8,
        ),
        Instruction::SubN { x, y } => is_ok(r) && rel_set_reg_flag(
            pre,
            post,
            x as int,
            wrap_sub8(pre.v@[y as int], pre.v@[x as int]),
            no_borrow8(pre.v@[y as int], pre.v@[x as int]),
        ),
        Instruction::Shl { x } => is_ok(r) && rel_set_reg_flag(
            pre,
            post,
            x as int,
            ((pre.v@[x as int] * 2) % 256) as u8,
            if pre.v@[x as int] >= 128 {
                1u8
            } else {
                0u8
            },
        ),
        Instruction::SneReg { x, y } => is_ok(r) && rel_skip_if(
            pre,
            post,
            pre.v@[x as int] != pre.v@[y as int],
        ),
        Instruction::LdI { nnn } => is_ok(r) && rel_set_i(pre, post, nnn),
        Instruction::JpV0 { nnn } => is_ok(r) && rel_jump(pre, post, (nnn + pre.v@[0]) as u16),
        Instruction::Rnd { x, kk } => is_ok(r) && rel_set_reg(pre, post, x as int, rb & kk),
        Instruction::Drw { x, y, n } => rel_drw(pre, post, x as int, y as int, n as int, r),
        Instruction::Skp { x } => is_ok(r) && rel_skip_if(
            pre,
            post,
            key_down(pre, pre.v@[x as int]),
        ),
        Instruction::Sknp { x } => is_ok(r) && rel_skip_if(
            pre,
            post,
            !key_down(pre, pre.v@[x as int]),
        ),
        Instruction::LdFromDt { x } => is_ok(r) && rel_set_reg(
            pre,
            post,
            x as int,
            pre.delay_timer,
        ),
        Instruction::WaitKey { x } => is_ok(r) && rel_wait_enter(pre, post, x as int),
        Instruction::LdDt { x } => is_ok(r) && rel_set_delay(pre, post, pre.v@[x as int]),
        Instruction::LdSt { x } => is_ok(r) && rel_set_sound(pre, post, pre.v@[x as int]),
        Instruction::AddI { x } => is_ok(r) && rel_set_i(
            pre,
            post,
            ((pre.i + pre.v@[x as int]) % 0x10000) as u16,
        ),
        Instruction::LdFont { x } => is_ok(r) && rel_set_i(
            pre,
            post,
            (pre.v@[x as int] * 5) as u16,
        ),
        Instruction::Bcd { x } => rel_bcd(pre, post, x as int, r),
        Instruction::Dump { x } => rel_dump(pre, post, x as int, r),
        Instruction::Load { x } => rel_load(pre, post, x as int, r),
    }
}

/// The machine can fetch: both opcode bytes lie inside memory.
pub open spec fn fetch_ok(s: Chip8) -> bool {
    s.pc + 1 < 4096
}

/// The big-endian opcode at the program counter.
pub open spec fn fetched_op(s: Chip8) -> u16 {
    (s.memory@[s.pc as int] * 256 + s.memory@[s.pc as int + 1]) as u16
}

/// `s` with the program counter moved past the fetched opcode.
pub open spec fn advanced(s: Chip8) -> Chip8 {
    Chip8 {
        pc: (s.pc + 2) as u16,
        v: s.v,
        i: s.i,
        stack: s.stack,
        sp: s.sp,
        memory: s.memory,
        delay_timer: s.delay_timer,
        sound_timer: s.sound_timer,
        display: s.display,
        keypad: s.keypad,
        state: s.state,
    }
}

/// Only the program counter changes, moving past one opcode.
pub open spec fn rel_advance_only(pre: Chip8, post: Chip8) -> bool {
    &&& post.pc == (pre.pc + 2) as u16
    &&& same_regs(pre, post)
    &&& frame_regs_pc(pre, post)
}

/// The lowest pressed key at or above index `i`, or 16 when none is.
pub open spec fn first_key(keys: Seq<bool>, i: int) -> int
    decreases 16 - i,
{
    if i < 0 || i >= 16 {
        16
    } else if keys[i] {
        i
    } else {
        first_key(keys, i + 1)
    }
}

/// One polling cycle of a machine suspended at the key wait for register
/// `reg`: with no key down, nothing at all changes; otherwise the lowest
/// pressed key index lands in the register, the program counter moves past
/// the wait instruction, and the machine runs again.
pub open spec fn rel_wait_poll(pre: Chip8, post: Chip8, reg: int) -> bool {
    let k = first_key(pre.keypad.keys@, 0);
    if k == 16 {
        post == pre
    } else {
        &&& post.v@ == pre.v@.update(reg, k as u8)
        &&& post.pc == (pre.pc + 2) as u16
        &&& post.state == CpuState::Running
        &&& post.i == pre.i
        &&& same_mem(pre, post)
        &&& same_stack(pre, post)
        &&& same_timers(pre, post)
        &&& same_display(pre, post)
        &&& same_keypad(pre, post)
    }
}

/// Relies on rand::thread_rng and rand::Rng::gen: one byte drawn from the
/// thread-local generator, uniform over 0..=255; nothing is assumed about
/// its value here.
#[verifier::external_body]
fn random_byte() -> u8 {
    rand::thread_rng().gen()
}

impl Chip8 {
    /// CLS - clear the display.
    pub fn op_00e0(&mut self)
        requires
            old(self).wf(),
        ensures
            final(self).wf(),
            rel_cls(*old(self), *final(self)),
    {
        self.display.clear();
    }

    /// RET - return from a subroutine.
    pub fn op_00ee(&mut self) -> (r: Result<(), Chip8Error>)
        requires
            old(self).wf(),
            old(self).state == CpuState::Running,
        ensures
            final(self).wf(),
            rel_ret(*old(self), *final(self), r),
    {
        if self.sp == 0 {
            return Err(Chip8Error::StackUnderflow);
        }
        self.sp = self.sp - 1;
        self.pc = self.stack[self.sp];
        Ok(())
    }

    /// JP - jump to location nnn.
    pub fn op_1nnn(&mut self, nnn: u16)
        requires
            old(self).wf(),
            old(self).state == CpuState::Running,
            nnn < 0x1000,
        ensures
            final(self).wf(),
            rel_jump(*old(self), *final(self), nnn),
    {
        self.pc = nnn;
    }

    /// CALL - call the subroutine at nnn.
    pub fn op_2nnn(&mut self, nnn: u16) -> (r: Result<(), Chip8Error>)
        requires
            old(self).wf(),
            old(self).state == CpuState::Running,
            nnn < 0x1000,
        ensures
            final(self).wf(),
            rel_call(*old(self), *final(self), nnn, r),
    {
        if self.sp >= 16 {
            return Err(Chip8Error::StackOverflow);
        }
        self.stack.set(self.sp, self.pc);
        self.sp = self.sp + 1;
        self.pc = nnn;
        Ok(())
    }

    /// Skip the next instruction if Vx == kk.
    pub fn op_3xkk(&mut self, x: usize, kk: u8)
        requires
            old(self).wf(),
            old(self).state == CpuState::Running,
            x < 16,
            old(self).pc <= 0xFFFD,
        ensures
            final(self).wf(),
            rel_skip_if(*old(self), *final(self), old(self).v@[x as int] == kk),
    {
        if self.v[x] == kk {
            self.pc = self.pc + 2;
        }
    }

    /// Skip the next instruction if Vx != kk.
    pub fn op_4xkk(&mut self, x: usize, kk: u8)
        requires
            old(self).wf(),
            old(self).state == CpuState::Running,
            x < 16,
            old(self).pc <= 0xFFFD,
        ensures
            final(self).wf(),
            rel_skip_if(*old(self), *final(self), old(self).v@[x as int] != kk),
    {
        if self.v[x] != kk {
            self.pc = self.pc + 2;
        }
    }

    /// Skip the next instruction if Vx == Vy.
    pub fn op_5xy0(&mut self, x: usize, y: usize)
        requires
            old(self).wf(),
            old(self).state == CpuState::Running,
            x < 16,
            y < 16,
            old(self).pc <= 0xFFFD,
        ensures
            final(self).wf(),
            rel_skip_if(
                *old(self),
                *final(self),
                old(self).v@[x as int] == old(self).v@[y as int],
            ),
    {
        if self.v[x] == self.v[y] {
            self.pc = self.pc + 2;
        }
    }

    /// Vx = kk.
    pub fn op_6xkk(&mut self, x: usize, kk: u8)
        requires
            old(self).wf(),
            x < 16,
        ensures
            final(self).wf(),
            rel_set_reg(*old(self), *final(self), x as int, kk),
    {
        self.v.set(x, kk);
    }

    /// Vx = Vx + kk, wrapping at 256, no flag effect.
    pub fn op_7xkk(&mut self, x: usize, kk: u8)
        requires
            old(self).wf(),
            x < 16,
        ensures
            final(self).wf(),
            rel_set_reg(
                *old(self),
                *final(self),
                x as int,
                wrap_add8(old(self).v@[x as int], kk),
            ),
    {
        let vx = self.v[x];
        let sum: u16 = vx as u16 + kk as u16;
        self.v.set(x, (sum % 256) as u8);
    }

    /// Vx = Vy.
    pub fn op_8xy0(&mut self, x: usize, y: usize)
        requires
            old(self).wf(),
            x < 16,
            y < 16,
        ensures
            final(self).wf(),
            rel_set_reg(*old(self), *final(self), x as int, old(self).v@[y as int]),
    {
        let vy = self.v[y];
        self.v.set(x, vy);
    }

    /// Vx = Vx | Vy, no flag effect.
    pub fn op_8xy1(&mut self, x: usize, y: usize)
        requires
            old(self).wf(),
            x < 16,
            y < 16,
        ensures
            final(self).wf(),
            rel_set_reg(
                *old(self),
                *final(self),
                x as int,
                old(self).v@[x as int] | old(self).v@[y as int],
            ),
    {
        let vx = self.v[x];
        let vy = self.v[y];
        self.v.set(x, vx | vy);
    }

    /// Vx = Vx & Vy, no flag effect.
    pub fn op_8xy2(&mut self, x: usize, y: usize)
        requires
            old(self).wf(),
            x < 16,
            y < 16,
        ensures
            final(self).wf(),
            rel_set_reg(
                *old(self),
                *final(self),
                x as int,
                old(self).v@[x as int] & old(self).v@[y as int],
            ),
    {
        let vx = self.v[x];
        let vy = self.v[y];
        self.v.set(x, vx & vy);
    }

    /// Vx = Vx ^ Vy, no flag effect.
    pub fn op_8xy3(&mut self, x: usize, y: usize)
        requires
            old(self).wf(),
            x < 16,
            y < 16,
        ensures
            final(self).wf(),
            rel_set_reg(
                *old(self),
                *final(self),
                x as int,
                old(self).v@[x as int] ^ old(self).v@[y as int],
            ),
    {
        let vx = self.v[x];
        let vy = self.v[y];
        self.v.set(x, vx ^ vy);
    }

    /// Vx = Vx + Vy with VF = carry; both operands are read before either
    /// register is written, so x == y doubles correctly, and VF takes the
    /// flag even when x is 0xF.
    pub fn op_8xy4(&mut self, x: usize, y: usize)
        requires
            old(self).wf(),
            x < 16,
            y < 16,
        ensures
            final(self).wf(),
            rel_set_reg_flag(
                *old(self),
                *final(self),
                x as int,
                wrap_add8(old(self).v@[x as int], old(self).v@[y as int]),
                carry8(old(self).v@[x as int], old(self).v@[y as int]),
            ),
    {
        let vx = self.v[x];
        let vy = self.v[y];
        let sum: u16 = vx as u16 + vy as u16;
        let flag: u8 = if sum > 255 {
            1
        } else {
            0
        };
        self.v.set(x, (sum % 256) as u8);
        self.v.set(15, flag);
    }

    /// Vx = Vx - Vy with VF = NOT borrow (1 iff Vx >= Vy); both operands are
    /// read before either register is written.
    pub fn op_8xy5(&mut self, x: usize, y: usize)
        requires
            old(self).wf(),
            x < 16,
            y < 16,
        ensures
            final(self).wf(),
            rel_set_reg_flag(
                *old(self),
                *final(self),
                x as int,
                wrap_sub8(old(self).v@[x as int], old(self).v@[y as int]),
                no_borrow8(old(self).v@[x as int], old(self).v@[y as int]),
            ),
    {
        let vx = self.v[x];
        let vy = self.v[y];
        let flag: u8 = if vx >= vy {
            1
        } else {
            0
        };
        let diff: u8 = if vx >= vy {
            vx - vy
        } else {
            ((vx as u16 + 256) - vy as u16) as u8
        };
        self.v.set(x, diff);
        self.v.set(15, flag);
    }

    /// Vx >>= 1 with VF = the bit shifted out.
    pub fn op_8xy6(&mut self, x: usize)
        requires
            old(self).wf(),
            x < 16,
        ensures
            final(self).wf(),
            rel_set_reg_flag(
                *old(self),
                *final(self),
                x as int,
                (old(self).v@[x as int] / 2) as u8,
                (old(self).v@[x as int] % 2) as u8,
            ),
    {
        let vx = self.v[x];
        self.v.set(x, vx / 2);
        self.v.set(15, vx % 2);
    }

    /// Vx = Vy - Vx with VF = NOT borrow (1 iff Vy >= Vx); both operands are
    /// read before either register is written.
    pub fn op_8xy7(&mut self, x: usize, y: usize)
        requires
            old(self).wf(),
            x < 16,
            y < 16,
        ensures
            final(self).wf(),
            rel_set_reg_flag(
                *old(self),
                *final(self),
                x as int,
                wrap_sub8(old(self).v@[y as int], old(self).v@[x as int]),
                no_borrow8(old(self).v@[y as int], old(self).v@[x as int]),
            ),
    {
        let vx = self.v[x];
        let vy = self.v[y];
        let flag: u8 = if vy >= vx {
            1
        } else {
            0
        };
        let diff: u8 = if vy >= vx {
            vy - vx
        } else {
            ((vy as u16 + 256) - vx as u16) as u8
        };
        self.v.set(x, diff);
        self.v.set(15, flag);
    }

    /// Vx <<= 1 with VF = the bit shifted out, held to exactly 0 or 1.
    pub fn op_8xye(&mut self, x: usize)
        requires
            old(self).wf(),
            x < 16,
        ensures
            final(self).wf(),
            rel_set_reg_flag(
                *old(self),
                *final(self),
                x as int,
                ((old(self).v@[x as int] * 2) % 256) as u8,
                if old(self).v@[x as int] >= 128 {
                    1u8
                } else {
                    0u8
                },
            ),
    {
        let vx = self.v[x];
        let flag: u8 = if vx >= 128 {
            1
        } else {
            0
        };
        self.v.set(x, ((vx as u16 * 2) % 256) as u8);
        self.v.set(15, flag);
    }

    /// Skip the next instruction if Vx != Vy.
    pub fn op_9xy0(&mut self, x: usize, y: usize)
        requires
            old(self).wf(),
            old(self).state == CpuState::Running,
            x < 16,
            y < 16,
            old(self).pc <= 0xFFFD,
        ensures
            final(self).wf(),
            rel_skip_if(
                *old(self),
                *final(self),
                old(self).v@[x as int] != old(self).v@[y as int],
            ),
    {
        if self.v[x] != self.v[y] {
            self.pc = self.pc + 2;
        }
    }

    /// I = nnn.
    pub fn op_annn(&mut self, nnn: u16)
        requires
            old(self).wf(),
            nnn < 0x1000,
        ensures
            final(self).wf(),
            rel_set_i(*old(self), *final(self), nnn),
    {
        self.i = nnn;
    }

    /// Jump to nnn + V0.
    pub fn op_bnnn(&mut self, nnn: u16)
        requires
            old(self).wf(),
            old(self).state == CpuState::Running,
            nnn < 0x1000,
        ensures
            final(self).wf(),
            rel_jump(*old(self), *final(self), (nnn + old(self).v@[0]) as u16),
    {
        let v0 = self.v[0];
        self.pc = nnn + v0 as u16;
    }

    /// Vx = random byte & kk. The byte comes from the thread-local random
    /// source; whatever it was, only bits of kk survive.
    pub fn op_cxkk(&mut self, x: usize, kk: u8)
        requires
            old(self).wf(),
            x < 16,
        ensures
            final(self).wf(),
            exists|b: u8| rel_set_reg(*old(self), *final(self), x as int, b & kk),
    {
        let b = random_byte();
        self.apply_random(x, kk, b);
    }

    /// The deterministic tail of the random instruction: Vx = byte & kk for
    /// a byte already drawn. Public so a driver or a test can substitute its
    /// own source.
    pub fn apply_random(&mut self, x: usize, kk: u8, byte: u8)
        requires
            old(self).wf(),
            x < 16,
        ensures
            final(self).wf(),
            rel_set_reg(*old(self), *final(self), x as int, byte & kk),
    {
        self.v.set(x, byte & kk);
    }

    /// DRW - draw the n-byte sprite at memory I at (Vx, Vy), VF = collision.
    pub fn op_dxyn(&mut self, x: usize, y: usize, n: usize) -> (r: Result<(), Chip8Error>)
        requires
            old(self).wf(),
            x < 16,
            y < 16,
            n < 16,
        ensures
            final(self).wf(),
            rel_drw(*old(self), *final(self), x as int, y as int, n as int, r),
    {
        if self.i as usize + n > 4096 {
            return Err(Chip8Error::AddressOutOfRange);
        }
        let start = self.i as usize;
        let mut sprite: Vec<u8> = Vec::new();
        let mut j: usize = 0;
        while j < n
            invariant
                j <= n,
                start + n <= 4096,
                start == self.i as usize,
                self.memory@.len() == 4096,
                sprite@.len() == j,
                forall|k: int| 0 <= k < j ==> sprite@[k] == self.memory@[start + k],
            decreases n - j,
        {
            sprite.push(self.memory[start + j]);
            j = j + 1;
        }
        proof {
            assert(sprite@ =~= self.memory@.subrange(self.i as int, self.i as int + n));
        }
        let vx = self.v[x];
        let vy = self.v[y];
        let coll = self.display.draw(vx as usize, vy as usize, &sprite);
        let flag: u8 = if coll {
            1
        } else {
            0
        };
        self.v.set(15, flag);
        Ok(())
    }

    /// Skip the next instruction if the key selected by Vx is pressed.
    pub fn op_ex9e(&mut self, x: usize)
        requires
            old(self).wf(),
            old(self).state == CpuState::Running,
            x < 16,
            old(self).pc <= 0xFFFD,
        ensures
            final(self).wf(),
            rel_skip_if(*old(self), *final(self), key_down(*old(self), old(self).v@[x as int])),
    {
        let vx = self.v[x];
        let pressed = if vx < 16 {
            self.keypad.is_key_pressed(vx as usize)
        } else {
            false
        };
        if pressed {
            self.pc = self.pc + 2;
        }
    }

    /// Skip the next instruction if the key selected by Vx is not pressed.
    pub fn op_exa1(&mut self, x: usize)
        requires
            old(self).wf(),
            old(self).state == CpuState::Running,
            x < 16,
            old(self).pc <= 0xFFFD,
        ensures
            final(self).wf(),
            rel_skip_if(*old(self), *final(self), !key_down(*old(self), old(self).v@[x as int])),
    {
        let vx = self.v[x];
        let pressed = if vx < 16 {
            self.keypad.is_key_pressed(vx as usize)
        } else {
            false
        };
        if !pressed {
            self.pc = self.pc + 2;
        }
    }

    /// Vx = delay timer.
    pub fn op_fx07(&mut self, x: usize)
        requires
            old(self).wf(),
            x < 16,
        ensures
            final(self).wf(),
            rel_set_reg(*old(self), *final(self), x as int, old(self).delay_timer),
    {
        let dt = self.delay_timer;
        self.v.set(x, dt);
    }

    /// Fx0A - suspend until a key press, to land in Vx. The program counter
    /// steps back onto the wait instruction; polling happens on later cycles.
    pub fn op_fx0a(&mut self, x: usize)
        requires
            old(self).wf(),
            x < 16,
            old(self).pc >= 2,
        ensures
            final(self).wf(),
            rel_wait_enter(*old(self), *final(self), x as int),
    {
        self.state = CpuState::AwaitingKey { reg: x as u8 };
        self.pc = self.pc - 2;
    }

    /// Delay timer = Vx.
    pub fn op_fx15(&mut self, x: usize)
        requires
            old(self).wf(),
            x < 16,
        ensures
            final(self).wf(),
            rel_set_delay(*old(self), *final(self), old(self).v@[x as int]),
    {
        self.delay_timer = self.v[x];
    }

    /// Sound timer = Vx.
    pub fn op_fx18(&mut self, x: usize)
        requires
            old(self).wf(),
            x < 16,
        ensures
            final(self).wf(),
            rel_set_sound(*old(self), *final(self), old(self).v@[x as int]),
    {
        self.sound_timer = self.v[x];
    }

    /// I = I + Vx, wrapping at 16 bits; the sum may pass 0xFFF and is only
    /// checked when later used as an address.
    pub fn op_fx1e(&mut self, x: usize)
        requires
            old(self).wf(),
            x < 16,
        ensures
            final(self).wf(),
            rel_set_i(
                *old(self),
                *final(self),
                ((old(self).i + old(self).v@[x as int]) % 0x10000) as u16,
            ),
    {
        let sum: u32 = self.i as u32 + self.v[x] as u32;
        self.i = (sum % 0x10000) as u16;
    }

    /// I = address of the font glyph for digit Vx: five bytes per glyph from
    /// the bottom of memory.
    pub fn op_fx29(&mut self, x: usize)
        requires
            old(self).wf(),
            x < 16,
        ensures
            final(self).wf(),
            rel_set_i(*old(self), *final(self), (old(self).v@[x as int] * 5) as u16),
    {
        let vx = self.v[x];
        self.i = vx as u16 * 5;
    }

    /// Fx33 - store the hundreds, tens and ones digits of Vx at I, I+1, I+2.
    pub fn op_fx33(&mut self, x: usize) -> (r: Result<(), Chip8Error>)
        requires
            old(self).wf(),
            x < 16,
        ensures
            final(self).wf(),
            rel_bcd(*old(self), *final(self), x as int, r),
    {
        if self.i as usize + 2 >= 4096 {
            return Err(Chip8Error::AddressOutOfRange);
        }
        let vx = self.v[x];
        let base = self.i as usize;
        self.memory.set(base, vx / 100);
        self.memory.set(base + 1, (vx / 10) % 10);
        self.memory.set(base + 2, vx % 10);
        Ok(())
    }

    /// Fx55 - store V0..=Vx to memory starting at I.
    pub fn op_fx55(&mut self, x: usize) -> (r: Result<(), Chip8Error>)
        requires
            old(self).wf(),
            x < 16,
        ensures
            final(self).wf(),
            rel_dump(*old(self), *final(self), x as int, r),
    {
        if self.i as usize + x >= 4096 {
            return Err(Chip8Error::AddressOutOfRange);
        }
        let base = self.i as usize;
        let mut idx: usize = 0;
        while idx < x + 1
            invariant
                idx <= x + 1,
                x < 16,
                base == self.i as usize,
                base + x < 4096,
                self.memory@.len() == 4096,
                self.v@.len() == 16,
                self.v@ == old(self).v@,
                forall|a: int|
                    0 <= a < 4096 ==> #[trigger] self.memory@[a] == if base <= a < base + idx {
                        old(self).v@[a - base]
                    } else {
                        old(self).memory@[a]
                    },
                self.pc == old(self).pc,
                self.i == old(self).i,
                self.stack@ == old(self).stack@,
                self.sp == old(self).sp,
                self.delay_timer == old(self).delay_timer,
                self.sound_timer == old(self).sound_timer,
                self.display.memory@ == old(self).display.memory@,
                self.keypad.keys@ == old(self).keypad.keys@,
                self.state == old(self).state,
            decreases x + 1 - idx,
        {
            let val = self.v[idx];
            self.memory.set(base + idx, val);
            idx = idx + 1;
        }
        Ok(())
    }

    /// Fx65 - load V0..=Vx from memory starting at I; V(x+1)..=VF stay.
    pub fn op_fx65(&mut self, x: usize) -> (r: Result<(), Chip8Error>)
        requires
            old(self).wf(),
            x < 16,
        ensures
            final(self).wf(),
            rel_load(*old(self), *final(self), x as int, r),
    {
        if self.i as usize + x >= 4096 {
            return Err(Chip8Error::AddressOutOfRange);
        }
        let base = self.i as usize;
        let mut idx: usize = 0;
        while idx < x + 1
            invariant
                idx <= x + 1,
                x < 16,
                base == self.i as usize,
                base + x < 4096,
                self.memory@.len() == 4096,
                self.v@.len() == 16,
                self.memory@ == old(self).memory@,
                forall|k: int|
                    0 <= k < 16 ==> #[trigger] self.v@[k] == if 0 <= k < idx {
                        old(self).memory@[base + k]
                    } else {
                        old(self).v@[k]
                    },
                self.pc == old(self).pc,
                self.i == old(self).i,
                self.stack@ == old(self).stack@,
                self.sp == old(self).sp,
                self.delay_timer == old(self).delay_timer,
                self.sound_timer == old(self).sound_timer,
                self.display.memory@ == old(self).display.memory@,
                self.keypad.keys@ == old(self).keypad.keys@,
                self.state == old(self).state,
            decreases x + 1 - idx,
        {
            let val = self.memory[base + idx];
            self.v.set(idx, val);
            idx = idx + 1;
        }
        Ok(())
    }

    /// Routes one decoded instruction to its handler. The program counter
    /// already points past the opcode when this runs.
    pub fn execute_opcode(&mut self, instr: Instruction) -> (r: Result<(), Chip8Error>)
        requires
            old(self).wf(),
            wf_instr(instr),
            old(self).state == CpuState::Running,
            2 <= old(self).pc,
            old(self).pc <= 0xFFFD,
        ensures
            final(self).wf(),
            exists|rb: u8| exec_rel(*old(self), instr, rb, *final(self), r),
    {
        let r: Result<(), Chip8Error> = match instr {
            Instruction::Cls => {
                self.op_00e0();
                Ok(())
            },
            Instruction::Ret => self.op_00ee(),
            Instruction::Jp { nnn } => {
                self.op_1nnn(nnn);
                Ok(())
            },
            Instruction::Call { nnn } => self.op_2nnn(nnn),
            Instruction::SeImm { x, kk } => {
                self.op_3xkk(x as usize, kk);
                Ok(())
            },
            Instruction::SneImm { x, kk } => {
                self.op_4xkk(x as usize, kk);
                Ok(())
            },
            Instruction::SeReg { x, y } => {
                self.op_5xy0(x as usize, y as usize);
                Ok(())
            },
            Instruction::LdImm { x, kk } => {
                self.op_6xkk(x as usize, kk);
                Ok(())
            },
            Instruction::AddImm { x, kk } => {
                self.op_7xkk(x as usize, kk);
                Ok(())
            },
            Instruction::LdReg { x, y } => {
                self.op_8xy0(x as usize, y as usize);
                Ok(())
            },
            Instruction::Or { x, y } => {
                self.op_8xy1(x as usize, y as usize);
                Ok(())
            },
            Instruction::And { x, y } => {
                self.op_8xy2(x as usize, y as usize);
                Ok(())
            },
            Instruction::Xor { x, y } => {
                self.op_8xy3(x as usize, y as usize);
                Ok(())
            },
            Instruction::AddReg { x, y } => {
                self.op_8xy4(x as usize, y as usize);
                Ok(())
            },
            Instruction::SubReg { x, y } => {
                self.op_8xy5(x as usize, y as usize);
                Ok(())
            },
            Instruction::Shr { x } => {
                self.op_8xy6(x as usize);
                Ok(())
            },
            Instruction::SubN { x, y } => {
                self.op_8xy7(x as usize, y as usize);
                Ok(())
            },
            Instruction::Shl { x } => {
                self.op_8xye(x as usize);
                Ok(())
            },
            Instruction::SneReg { x, y } => {
                self.op_9xy0(x as usize, y as usize);
                Ok(())
            },
            Instruction::LdI { nnn } => {
                self.op_annn(nnn);
                Ok(())
            },
            Instruction::JpV0 { nnn } => {
                self.op_bnnn(nnn);
                Ok(())
            },
            Instruction::Rnd { x, kk } => {
                self.op_cxkk(x as usize, kk);
                Ok(())
            },
            Instruction::Drw { x, y, n } => self.op_dxyn(x as usize, y as usize, n as usize),
            Instruction::Skp { x } => {
                self.op_ex9e(x as usize);
                Ok(())
            },
            Instruction::Sknp { x } => {
                self.op_exa1(x as usize);
                Ok(())
            },
            Instruction::LdFromDt { x } => {
                self.op_fx07(x as usize);
                Ok(())
            },
            Instruction::WaitKey { x } => {
                self.op_fx0a(x as usize);
                Ok(())
            },
            Instruction::LdDt { x } => {
                self.op_fx15(x as usize);
                Ok(())
            },
            Instruction::LdSt { x } => {
                self.op_fx18(x as usize);
                Ok(())
            },
            Instruction::AddI { x } => {
                self.op_fx1e(x as usize);
                Ok(())
            },
            Instruction::LdFont { x } => {
                self.op_fx29(x as usize);
                Ok(())
            },
            Instruction::Bcd { x } => self.op_fx33(x as usize),
            Instruction::Dump { x } => self.op_fx55(x as usize),
            Instruction::Load { x } => self.op_fx65(x as usize),
        };
        proof {
            match instr {
                Instruction::Rnd { x, kk } => {
                    let b = choose|b: u8| rel_set_reg(*old(self), *self, x as int, b & kk);
                    assert(exec_rel(*old(self), instr, b, *self, r));
                },
                _ => {
                    assert(exec_rel(*old(self), instr, 0u8, *self, r));
                },
            }
        }
        r
    }

    /// One CPU tick. A running machine fetches the opcode at the program
    /// counter, moves the counter past it, decodes, and executes; a machine
    /// suspended at the key wait only polls the keypad. Fetching outside
    /// memory and undefined opcodes halt with their errors.
    pub fn cycle(&mut self) -> (r: Result<(), Chip8Error>)
        requires
            old(self).wf(),
        ensures
            final(self).wf(),
            old(self).state matches CpuState::AwaitingKey { reg } ==> is_ok(r) && rel_wait_poll(
                *old(self),
                *final(self),
                reg as int,
            ),
            old(self).state == CpuState::Running && !fetch_ok(*old(self)) ==> is_err(
                r,
                Chip8Error::AddressOutOfRange,
            ) && *final(self) == *old(self),
            old(self).state == CpuState::Running && fetch_ok(*old(self)) && spec_decode(
                fetched_op(*old(self)),
            ) is None ==> is_err(r, Chip8Error::UnrecognizedOpcode) && rel_advance_only(
                *old(self),
                *final(self),
            ),
            old(self).state == CpuState::Running && fetch_ok(*old(self)) ==> (spec_decode(
                fetched_op(*old(self)),
            ) matches Some(instr) ==> exists|rb: u8|
                exec_rel(advanced(*old(self)), instr, rb, *final(self), r)),
    {
        match self.state {
            CpuState::AwaitingKey { reg } => {
                let mut k: usize = 0;
                let mut found: usize = 16;
                while k < 16
                    invariant
                        *self == *old(self),
                        old(self).wf(),
                        old(self).state == (CpuState::AwaitingKey { reg }),
                        reg < 16,
                        k <= 16,
                        found <= 16,
                        found == 16 ==> first_key(self.keypad.keys@, 0) == first_key(
                            self.keypad.keys@,
                            k as int,
                        ),
                        found < 16 ==> found == first_key(self.keypad.keys@, 0),
                    decreases 16 - k,
                {
                    let pressed = self.keypad.keys[k];
                    if pressed && found == 16 {
                        found = k;
                    }
                    k = k + 1;
                }
                proof {
                    if found == 16 {
                        assert(first_key(self.keypad.keys@, 16) == 16);
                        assert(first_key(self.keypad.keys@, 0) == 16);
                    } else {
                        assert(found == first_key(self.keypad.keys@, 0));
                    }
                }
                if found < 16 {
                    self.v.set(reg as usize, found as u8);
                    self.pc = self.pc + 2;
                    self.state = CpuState::Running;
                }
                Ok(())
            },
            CpuState::Running => {
                if self.pc >= 4095 {
                    return Err(Chip8Error::AddressOutOfRange);
                }
                let hi = self.memory[self.pc as usize];
                let lo = self.memory[self.pc as usize + 1];
                let op: u16 = hi as u16 * 256 + lo as u16;
                self.pc = self.pc + 2;
                let ghost mid = *self;
                match decode(op) {
                    None => Err(Chip8Error::UnrecognizedOpcode),
                    Some(instr) => {
                        proof {
                            crate::instr::lemma_decode_wf(op);
                            assert(mid == advanced(*old(self)));
                        }
                        let res = self.execute_opcode(instr);
                        proof {
                            let rb = choose|rb: u8| exec_rel(mid, instr, rb, *self, res);
                            assert(exec_rel(advanced(*old(self)), instr, rb, *self, res));
                        }
                        res
                    },
                }
            },
        }
    }
}

/// With no key pressed at or above `i`, the scan comes up empty.
proof fn lemma_first_key_none(keys: Seq<bool>, i: int)
    requires
        0 <= i <= 16,
        forall|k: int| i <= k < 16 ==> !keys[k],
    ensures
        first_key(keys, i) == 16,
    decreases 16 - i,
{
    if i < 16 {
        lemma_first_key_none(keys, i + 1);
    }
}

/// The scan finds the lowest pressed key at or above `i`, or 16 when none.
proof fn lemma_first_key_lowest(keys: Seq<bool>, i: int)
    requires
        0 <= i <= 16,
    ensures
        i <= first_key(keys, i) <= 16,
        first_key(keys, i) == 16 ==> forall|k: int| i <= k < 16 ==> !keys[k],
        first_key(keys, i) < 16 ==> i <= first_key(keys, i) < 16 && keys[first_key(keys, i)]
            && forall|k: int| i <= k < first_key(keys, i) ==> !keys[k],
    decreases 16 - i,
{
    if 0 <= i < 16 && !keys[i] {
        lemma_first_key_lowest(keys, i + 1);
    }
}

/// A CALL that succeeded followed by a RET restores the program counter and
/// the stack pointer, and touches no register, memory cell, timer, pixel or
/// key: the round-trip returns to the instruction after the call.
pub proof fn lemma_call_ret_round_trip(
    s0: Chip8,
    s1: Chip8,
    s2: Chip8,
    nnn: u16,
    r1: Result<(), Chip8Error>,
    r2: Result<(), Chip8Error>,
)
    requires
        s0.wf(),
        rel_call(s0, s1, nnn, r1),
        is_ok(r1),
        rel_ret(s1, s2, r2),
    ensures
        is_ok(r2),
        s2.pc == s0.pc,
        s2.sp == s0.sp,
        same_regs(s0, s2),
        same_mem(s0, s2),
        same_timers(s0, s2),
        same_display(s0, s2),
        same_keypad(s0, s2),
        same_state(s0, s2),
{
}

/// Key-wait suspension: a polling cycle with no key pressed changes nothing
/// at all, however often it repeats; once some key is pressed, the very next
/// polling cycle stores the lowest pressed key index in the awaited register,
/// advances the program counter by exactly 2 and resumes running, so the
/// wait is never re-executed.
pub proof fn lemma_key_wait(pre: Chip8, post: Chip8, x: int)
    requires
        pre.wf(),
        0 <= x < 16,
        pre.state == (CpuState::AwaitingKey { reg: x as u8 }),
        rel_wait_poll(pre, post, x),
    ensures
        (forall|k: int| 0 <= k < 16 ==> !pre.keypad.keys@[k]) ==> post == pre,
        (exists|k: int| 0 <= k < 16 && pre.keypad.keys@[k]) ==> {
            let lowest = first_key(pre.keypad.keys@, 0);
            &&& 0 <= lowest < 16
            &&& pre.keypad.keys@[lowest]
            &&& (forall|k: int| 0 <= k < lowest ==> !pre.keypad.keys@[k])
            &&& post.v@ == pre.v@.update(x, lowest as u8)
            &&& post.pc == pre.pc + 2
            &&& post.state == CpuState::Running
        },
{
    if forall|k: int| 0 <= k < 16 ==> !pre.keypad.keys@[k] {
        lemma_first_key_none(pre.keypad.keys@, 0);
    }
    lemma_first_key_lowest(pre.keypad.keys@, 0);
}

} // verus!
