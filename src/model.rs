//! The mathematical model of the machine and the meaning of every instruction.
use vstd::prelude::*;
use crate::font::font;

verus! {

/// Bytes of addressable memory.
pub const MEM_SIZE: usize = 4096;
/// Address at which a program is loaded and execution starts.
pub const PROGRAM_START: usize = 0x200;
/// Largest program that fits between the load address and the end of memory.
pub const MAX_PROGRAM_LEN: usize = 3584;
/// Width of the frame buffer in pixels.
pub const SCREEN_WIDTH: usize = 64;
/// Height of the frame buffer in pixels.
pub const SCREEN_HEIGHT: usize = 32;
/// Number of pixels in the frame buffer.
pub const SCREEN_SIZE: usize = 2048;
/// Number of general registers, of keys, and of call-stack slots.
pub const NUM_REGS: usize = 16;
/// Register that receives the carry, borrow, shifted-out and collision flags.
pub const FLAG_REG: usize = 15;
/// Deepest nesting of subroutine calls.
pub const STACK_DEPTH: usize = 16;
/// Number of keys on the keypad.
pub const NUM_KEYS: usize = 16;

/// Why a program could not be loaded or an instruction could not be executed.
/// `addr` is always the address of the instruction at fault.
#[derive(Debug, Clone, Copy, PartialEq, Eq, Structural)]
pub enum Chip8Error {
    /// The program does not fit between the load address and the end of memory.
    ProgramTooLarge { len: usize },
    /// The word at `addr` is not an instruction of the machine.
    InvalidOpcode { addr: u16, opcode: u16 },
    /// A call was made with all stack slots in use.
    StackOverflow { addr: u16 },
    /// A return was made with no call active.
    StackUnderflow { addr: u16 },
    /// The instruction, or a memory operand of it, lies outside memory.
    MemoryOutOfRange { addr: u16 },
}

/// The whole state of a machine.
pub struct Chip8State {
    pub mem: Seq<u8>,
    pub regs: Seq<u8>,
    pub index: u16,
    pub pc: u16,
    /// Pixel `(x, y)` is at `y * 64 + x`.
    pub vram: Seq<bool>,
    /// Return addresses of the active calls, innermost last.
    pub stack: Seq<u16>,
    pub keys: Seq<bool>,
    pub delay_timer: u8,
    pub sound_timer: u8,
    /// Whether the next key press is to be written into register `await_reg`.
    pub awaiting_key: bool,
    pub await_reg: u8,
    /// Set by clearing or drawing; cleared by whoever repaints.
    pub draw_flag: bool,
}

impl Chip8State {
    pub open spec fn wf(self) -> bool {
        &&& self.mem.len() == MEM_SIZE
        &&& self.regs.len() == NUM_REGS
        &&& self.vram.len() == SCREEN_SIZE
        &&& self.stack.len() <= STACK_DEPTH
        &&& self.keys.len() == NUM_KEYS
        &&& self.await_reg < NUM_REGS
    }
}

/// Memory of a fresh machine holding `program` at the load address.
pub open spec fn loaded_memory(program: Seq<u8>) -> Seq<u8> {
    Seq::new(
        MEM_SIZE as nat,
        |a: int|
            if a < 80 {
                font()[a]
            } else if PROGRAM_START <= a < PROGRAM_START + program.len() {
                program[a - PROGRAM_START]
            } else {
                0u8
            },
    )
}

/// A fresh machine holding `program` at the load address.
pub open spec fn loaded_state(program: Seq<u8>) -> Chip8State {
    Chip8State {
        mem: loaded_memory(program),
        regs: Seq::new(NUM_REGS as nat, |i: int| 0u8),
        index: 0,
        pc: PROGRAM_START as u16,
        vram: Seq::new(SCREEN_SIZE as nat, |i: int| false),
        stack: Seq::empty(),
        keys: Seq::new(NUM_KEYS as nat, |i: int| false),
        delay_timer: 0,
        sound_timer: 0,
        awaiting_key: false,
        await_reg: 0,
        draw_flag: false,
    }
}

/// A fresh machine with no program.
pub open spec fn initial_state() -> Chip8State {
    loaded_state(Seq::empty())
}

/// The big-endian word at address `a`.
pub open spec fn word_at(mem: Seq<u8>, a: int) -> u16 {
    (mem[a] as int * 256 + mem[a + 1] as int) as u16
}

/// Bits 11–8 of an instruction: the first register operand.
pub open spec fn op_x(op: u16) -> int {
    (op as int / 256) % 16
}

/// Bits 7–4 of an instruction: the second register operand.
pub open spec fn op_y(op: u16) -> int {
    (op as int / 16) % 16
}

/// Bits 3–0 of an instruction.
pub open spec fn op_n(op: u16) -> int {
    op as int % 16
}

/// The low byte of an instruction.
pub open spec fn op_kk(op: u16) -> u8 {
    (op as int % 256) as u8
}

/// The low twelve bits of an instruction: an address.
pub open spec fn op_nnn(op: u16) -> u16 {
    (op as int % 4096) as u16
}

/// Advances the program counter past the next instruction.
pub open spec fn skip_if(s: Chip8State, cond: bool) -> Chip8State {
    if cond {
        Chip8State { pc: (s.pc + 2) as u16, ..s }
    } else {
        s
    }
}

pub open spec fn set_reg(s: Chip8State, r: int, v: u8) -> Chip8State {
    Chip8State { regs: s.regs.update(r, v), ..s }
}

/// Sets register `r` to `v`, then the flag register to `flag`.
pub open spec fn set_reg_flag(s: Chip8State, r: int, v: u8, flag: bool) -> Chip8State {
    Chip8State { regs: s.regs.update(r, v).update(FLAG_REG as int, if flag { 1u8 } else { 0u8 }), ..s }
}

/// Bit `j % 8` (from the left) of row `j / 8` of the glyph at `start`.
pub open spec fn sprite_bit(mem: Seq<u8>, start: int, j: int) -> bool {
    mem[start + j / 8] & (0x80u8 >> ((j % 8) as u8)) != 0
}

/// The frame-buffer cell that bit `j` of a glyph drawn at `(x, y)` lands on,
/// wrapping over the whole buffer.
pub open spec fn pixel_of(x: u8, y: u8, j: int) -> int {
    (x + j % 8 + (y + j / 8) * 64) % 2048
}

/// Whether one of the first `k` bits of the glyph at `start`, drawn at `(x, y)`, is set
/// and lands on cell `p`.
pub open spec fn covers(mem: Seq<u8>, start: int, x: u8, y: u8, k: int, p: int) -> bool {
    exists|j: int| 0 <= j < k && #[trigger] sprite_bit(mem, start, j) && pixel_of(x, y, j) == p
}

/// The frame buffer after drawing the `n`-row glyph at `start` at `(x, y)`:
/// every covered cell is flipped.
pub open spec fn drawn(vram: Seq<bool>, mem: Seq<u8>, start: int, x: u8, y: u8, n: int) -> Seq<bool> {
    Seq::new(vram.len(), |p: int| vram[p] != covers(mem, start, x, y, 8 * n, p))
}

/// Whether drawing the glyph turns some lit cell off.
pub open spec fn collides(vram: Seq<bool>, mem: Seq<u8>, start: int, x: u8, y: u8, n: int) -> bool {
    exists|j: int| 0 <= j < 8 * n && #[trigger] sprite_bit(mem, start, j) && vram[pixel_of(x, y, j)]
}

/// The lowest key at or above `from` that is down, or 16 if there is none.
pub open spec fn lowest_down(keys: Seq<bool>, from: int) -> int
    decreases NUM_KEYS - from,
{
    if from >= NUM_KEYS {
        NUM_KEYS as int
    } else if keys[from] {
        from
    } else {
        lowest_down(keys, from + 1)
    }
}

pub open spec fn invalid(addr: u16, op: u16) -> Result<Chip8State, Chip8Error> {
    Err(Chip8Error::InvalidOpcode { addr, opcode: op })
}

/// Instructions `8xy?`: register-to-register arithmetic and logic.
/// The shifts `8xy6` and `8xyE` read and write register `x` alone (`y` is
/// ignored) and put the low bit of `Vx` in the flag register, as this machine
/// variant does; subtraction flags a borrow with 1.
pub open spec fn execute_alu(s: Chip8State, addr: u16, op: u16) -> Result<Chip8State, Chip8Error> {
    let x = op_x(op);
    let vx = s.regs[x];
    let vy = s.regs[op_y(op)];
    let n = op_n(op);
    if n == 0 {
        Ok(set_reg(s, x, vy))
    } else if n == 1 {
        Ok(set_reg(s, x, vx | vy))
    } else if n == 2 {
        Ok(set_reg(s, x, vx & vy))
    } else if n == 3 {
        Ok(set_reg(s, x, vx ^ vy))
    } else if n == 4 {
        Ok(set_reg_flag(s, x, ((vx + vy) % 256) as u8, vx + vy > 255))
    } else if n == 5 {
        Ok(set_reg_flag(s, x, ((vx - vy + 256) % 256) as u8, vx < vy))
    } else if n == 6 {
        Ok(set_reg(set_reg(s, FLAG_REG as int, vx % 2), x, vx / 2))
    } else if n == 7 {
        Ok(set_reg_flag(s, x, ((vy - vx + 256) % 256) as u8, vy < vx))
    } else if n == 14 {
        Ok(set_reg(set_reg(s, FLAG_REG as int, vx % 2), x, ((vx * 2) % 256) as u8))
    } else {
        invalid(addr, op)
    }
}

/// Instruction `Dxyn`: draws an `n`-row glyph from the index register at
/// `(Vx, Vy)`; the flag register tells whether a lit pixel went out.
pub open spec fn execute_draw(s: Chip8State, addr: u16, op: u16) -> Result<Chip8State, Chip8Error> {
    let x = s.regs[op_x(op)];
    let y = s.regs[op_y(op)];
    let n = op_n(op);
    let start = s.index as int;
    if start + n > MEM_SIZE {
        Err(Chip8Error::MemoryOutOfRange { addr })
    } else {
        let c = collides(s.vram, s.mem, start, x, y, n);
        Ok(Chip8State {
            vram: drawn(s.vram, s.mem, start, x, y, n),
            regs: s.regs.update(FLAG_REG as int, if c { 1u8 } else { 0u8 }),
            draw_flag: true,
            ..s
        })
    }
}

/// Instructions `Ex9E` and `ExA1`: skip on the state of key `Vx`.
pub open spec fn execute_key(s: Chip8State, addr: u16, op: u16) -> Result<Chip8State, Chip8Error> {
    let vx = s.regs[op_x(op)];
    let kk = op_kk(op);
    if kk == 0x9E {
        Ok(skip_if(s, vx < NUM_KEYS && s.keys[vx as int]))
    } else if kk == 0xA1 {
        Ok(skip_if(s, vx < NUM_KEYS && !s.keys[vx as int]))
    } else {
        invalid(addr, op)
    }
}

/// Instructions `Fx??`: timers, keypad wait, index register and memory transfers.
pub open spec fn execute_misc(s: Chip8State, addr: u16, op: u16) -> Result<Chip8State, Chip8Error> {
    let x = op_x(op);
    let vx = s.regs[x];
    let kk = op_kk(op);
    let i = s.index as int;
    if kk == 0x07 {
        Ok(set_reg(s, x, s.delay_timer))
    } else if kk == 0x0A {
        let k = lowest_down(s.keys, 0);
        if k < NUM_KEYS {
            Ok(set_reg(s, x, k as u8))
        } else {
            Ok(Chip8State { awaiting_key: true, await_reg: x as u8, ..s })
        }
    } else if kk == 0x15 {
        Ok(Chip8State { delay_timer: vx, ..s })
    } else if kk == 0x18 {
        Ok(Chip8State { sound_timer: vx, ..s })
    } else if kk == 0x1E {
        Ok(Chip8State { index: ((i + vx) % 65536) as u16, ..s })
    } else if kk == 0x29 {
        Ok(Chip8State { index: (vx * 5) as u16, ..s })
    } else if kk == 0x33 {
        if i + 2 >= MEM_SIZE {
            Err(Chip8Error::MemoryOutOfRange { addr })
        } else {
            Ok(Chip8State {
                mem: s.mem.update(i, vx / 100).update(i + 1, (vx / 10) % 10).update(i + 2, vx % 10),
                ..s
            })
        }
    } else if kk == 0x55 {
        if i + x >= MEM_SIZE {
            Err(Chip8Error::MemoryOutOfRange { addr })
        } else {
            Ok(Chip8State {
                mem: Seq::new(MEM_SIZE as nat, |a: int| if i <= a <= i + x { s.regs[a - i] } else { s.mem[a] }),
                ..s
            })
        }
    } else if kk == 0x65 {
        if i + x >= MEM_SIZE {
            Err(Chip8Error::MemoryOutOfRange { addr })
        } else {
            Ok(Chip8State {
                regs: Seq::new(NUM_REGS as nat, |r: int| if r <= x { s.mem[i + r] } else { s.regs[r] }),
                ..s
            })
        }
    } else {
        invalid(addr, op)
    }
}

/// The effect of instruction `op`, fetched from `addr`, on `s`, whose program
/// counter already points past it. `rnd` is the random byte that `Cxkk` uses.
pub open spec fn execute(s: Chip8State, addr: u16, op: u16, rnd: u8) -> Result<Chip8State, Chip8Error> {
    let family = op as int / 4096;
    let x = op_x(op);
    let vx = s.regs[x];
    let vy = s.regs[op_y(op)];
    let kk = op_kk(op);
    let nnn = op_nnn(op);
    if family == 0 {
        if op == 0x00E0 {
            Ok(Chip8State { vram: Seq::new(SCREEN_SIZE as nat, |p: int| false), draw_flag: true, ..s })
        } else if op == 0x00EE {
            if s.stack.len() == 0 {
                Err(Chip8Error::StackUnderflow { addr })
            } else {
                Ok(Chip8State { pc: s.stack.last(), stack: s.stack.drop_last(), ..s })
            }
        } else {
            invalid(addr, op)
        }
    } else if family == 1 {
        Ok(Chip8State { pc: nnn, ..s })
    } else if family == 2 {
        if s.stack.len() >= STACK_DEPTH {
            Err(Chip8Error::StackOverflow { addr })
        } else {
            Ok(Chip8State { pc: nnn, stack: s.stack.push(s.pc), ..s })
        }
    } else if family == 3 {
        Ok(skip_if(s, vx == kk))
    } else if family == 4 {
        Ok(skip_if(s, vx != kk))
    } else if family == 5 {
        if op_n(op) == 0 {
            Ok(skip_if(s, vx == vy))
        } else {
            invalid(addr, op)
        }
    } else if family == 6 {
        Ok(set_reg(s, x, kk))
    } else if family == 7 {
        Ok(set_reg(s, x, ((vx + kk) % 256) as u8))
    } else if family == 8 {
        execute_alu(s, addr, op)
    } else if family == 9 {
        if op_n(op) == 0 {
            Ok(skip_if(s, vx != vy))
        } else {
            invalid(addr, op)
        }
    } else if family == 10 {
        Ok(Chip8State { index: nnn, ..s })
    } else if family == 11 {
        Ok(Chip8State { pc: (nnn + s.regs[0]) as u16, ..s })
    } else if family == 12 {
        Ok(set_reg(s, x, rnd & kk))
    } else if family == 13 {
        execute_draw(s, addr, op)
    } else if family == 14 {
        execute_key(s, addr, op)
    } else {
        execute_misc(s, addr, op)
    }
}

/// The end of every cycle: each nonzero timer goes down by one.
pub open spec fn tick_timers(s: Chip8State) -> Chip8State {
    Chip8State {
        delay_timer: if s.delay_timer > 0 { (s.delay_timer - 1) as u8 } else { 0 },
        sound_timer: if s.sound_timer > 0 { (s.sound_timer - 1) as u8 } else { 0 },
        ..s
    }
}

/// One instruction cycle: fetch, execute, tick the timers. The result holds the
/// new state and whether the tone sounds, which it does when the sound timer
/// goes from 1 to 0. On an error the machine is left as it was.
pub open spec fn step(s: Chip8State, rnd: u8) -> Result<(Chip8State, bool), Chip8Error> {
    if s.pc as int + 1 >= MEM_SIZE {
        Err(Chip8Error::MemoryOutOfRange { addr: s.pc })
    } else {
        let op = word_at(s.mem, s.pc as int);
        let next = Chip8State { pc: (s.pc + 2) as u16, ..s };
        match execute(next, s.pc, op, rnd) {
            Ok(t) => Ok((tick_timers(t), t.sound_timer == 1)),
            Err(e) => Err(e),
        }
    }
}

/// A key goes down; a pending wait for a key is resolved by it.
pub open spec fn press_key(s: Chip8State, k: int) -> Chip8State {
    if 0 <= k < NUM_KEYS {
        let t = Chip8State { keys: s.keys.update(k, true), ..s };
        if s.awaiting_key {
            Chip8State { regs: t.regs.update(s.await_reg as int, k as u8), awaiting_key: false, ..t }
        } else {
            t
        }
    } else {
        s
    }
}

/// A key goes up.
pub open spec fn release_key(s: Chip8State, k: int) -> Chip8State {
    if 0 <= k < NUM_KEYS {
        Chip8State { keys: s.keys.update(k, false), ..s }
    } else {
        s
    }
}

} // verus!
