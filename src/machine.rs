//! The executable machine: one value that owns all state, loaded with a program,
//! advanced one instruction at a time and fed key events.
use vstd::prelude::*;
use crate::font::{font_set, FONT_LEN};
use crate::model::{
    execute, execute_alu, execute_draw, execute_key, execute_misc, initial_state, loaded_memory,
    loaded_state, lowest_down, press_key, release_key, step, word_at, Chip8Error, Chip8State,
    FLAG_REG, MAX_PROGRAM_LEN, MEM_SIZE, NUM_KEYS, NUM_REGS, PROGRAM_START, SCREEN_SIZE,
    STACK_DEPTH,
};
use crate::screen::draw_sprite;

verus! {

/// A CHIP-8 machine.
pub struct Chip8Interpreter {
    mem: Vec<u8>,
    regs: Vec<u8>,
    index: u16,
    pc: u16,
    vram: Vec<bool>,
    stack: Vec<u16>,
    keys: Vec<bool>,
    delay_timer: u8,
    sound_timer: u8,
    awaiting_key: bool,
    await_reg: u8,
    draw_flag: bool,
}

impl View for Chip8Interpreter {
    type V = Chip8State;

    closed spec fn view(&self) -> Chip8State {
        Chip8State {
            mem: self.mem@,
            regs: self.regs@,
            index: self.index,
            pc: self.pc,
            vram: self.vram@,
            stack: self.stack@,
            keys: self.keys@,
            delay_timer: self.delay_timer,
            sound_timer: self.sound_timer,
            awaiting_key: self.awaiting_key,
            await_reg: self.await_reg,
            draw_flag: self.draw_flag,
        }
    }
}

fn filled<T: Copy>(v: T, n: usize) -> (r: Vec<T>)
    ensures
        r@ == Seq::new(n as nat, |i: int| v),
{
    let mut r: Vec<T> = Vec::new();
    while r.len() < n
        invariant
            r.len() <= n,
            forall|i: int| 0 <= i < r.len() ==> r@[i] == v,
        decreases n - r.len(),
    {
        r.push(v);
    }
    assert(r@ =~= Seq::new(n as nat, |i: int| v));
    r
}

impl Default for Chip8Interpreter {
    /// The same as [`Chip8Interpreter::new`].
    fn default() -> (m: Self)
        ensures
            m@ == initial_state(),
    {
        Self::new()
    }
}

impl Chip8Interpreter {
    /// A fresh machine holding `program` at the load address.
    fn with_program(program: &[u8]) -> (m: Self)
        requires
            program@.len() <= MAX_PROGRAM_LEN,
        ensures
            m@ == loaded_state(program@),
    {
        let font = font_set();
        let mut mem: Vec<u8> = Vec::new();
        let len = program.len();
        while mem.len() < MEM_SIZE
            invariant
                mem.len() <= MEM_SIZE,
                len == program@.len() <= MAX_PROGRAM_LEN,
                font@ == crate::font::font(),
                forall|a: int| 0 <= a < mem.len() ==> mem@[a] == #[trigger] loaded_memory(program@)[a],
            decreases MEM_SIZE - mem.len(),
        {
            let a = mem.len();
            let b = if a < FONT_LEN {
                font[a]
            } else if PROGRAM_START <= a && a < PROGRAM_START + len {
                program[a - PROGRAM_START]
            } else {
                0u8
            };
            mem.push(b);
        }
        assert(mem@ =~= loaded_memory(program@));
        let m = Chip8Interpreter {
            mem,
            regs: filled(0u8, NUM_REGS),
            index: 0,
            pc: PROGRAM_START as u16,
            vram: filled(false, SCREEN_SIZE),
            stack: Vec::new(),
            keys: filled(false, NUM_KEYS),
            delay_timer: 0,
            sound_timer: 0,
            awaiting_key: false,
            await_reg: 0,
            draw_flag: false,
        };
        assert(m@.stack =~= Seq::<u16>::empty());
        m
    }

    /// A fresh machine: glyph set installed, everything else zero, the program
    /// counter at the load address.
    pub fn new() -> (m: Self)
        ensures
            m@ == initial_state(),
            m@.wf(),
    {
        let empty: Vec<u8> = Vec::new();
        Self::with_program(empty.as_slice())
    }

    /// Replaces the whole state by a fresh machine holding `program` at the load
    /// address. A program too large for memory is refused and nothing changes.
    pub fn load(&mut self, program: &[u8]) -> (r: Result<(), Chip8Error>)
        ensures
            program@.len() <= MAX_PROGRAM_LEN ==> r == Ok::<(), Chip8Error>(()) && final(self)@ == loaded_state(program@)
                && final(self)@.wf(),
            program@.len() > MAX_PROGRAM_LEN ==> r == Err::<(), Chip8Error>(Chip8Error::ProgramTooLarge { len: program@.len() as usize })
                && final(self)@ == old(self)@,
    {
        if program.len() > MAX_PROGRAM_LEN {
            return Err(Chip8Error::ProgramTooLarge { len: program.len() });
        }
        *self = Self::with_program(program);
        Ok(())
    }

    /// Key `index` goes down; if the machine waits for a key, the wait ends with
    /// `index` written into the waiting register. Indices past 15 are ignored.
    pub fn set_key(&mut self, index: usize)
        requires
            old(self)@.wf(),
        ensures
            final(self)@ == press_key(old(self)@, index as int),
            final(self)@.wf(),
    {
        if index < NUM_KEYS {
            self.keys[index] = true;
            if self.awaiting_key {
                self.regs[self.await_reg as usize] = index as u8;
                self.awaiting_key = false;
            }
        }
    }

    /// Key `index` goes up. Indices past 15 are ignored.
    pub fn unset_key(&mut self, index: usize)
        requires
            old(self)@.wf(),
        ensures
            final(self)@ == release_key(old(self)@, index as int),
            final(self)@.wf(),
    {
        if index < NUM_KEYS {
            self.keys[index] = false;
        }
    }

    /// The word at the program counter, if it lies wholly in memory.
    fn fetch(&self) -> (r: Option<u16>)
        requires
            self@.wf(),
        ensures
            r == if self.pc as int + 1 >= MEM_SIZE { None } else { Some(word_at(self@.mem, self.pc as int)) },
    {
        let pc = self.pc as usize;
        if pc + 1 >= MEM_SIZE {
            return None;
        }
        let hi = self.mem[pc];
        let lo = self.mem[pc + 1];
        Some((hi as u16) * 256 + lo as u16)
    }

    /// Instructions `8xy?`.
    fn execute_alu(&mut self, addr: u16, op: u16) -> (r: Result<(), Chip8Error>)
        requires
            old(self)@.wf(),
        ensures
            match r {
                Ok(_) => execute_alu(old(self)@, addr, op) == Ok::<Chip8State, Chip8Error>(final(self)@),
                Err(e) => execute_alu(old(self)@, addr, op) == Err::<Chip8State, Chip8Error>(e) && final(self)@ == old(self)@,
            },
            final(self)@.wf(),
    {
        let x = ((op / 256) % 16) as usize;
        let y = ((op / 16) % 16) as usize;
        let n = op % 16;
        let vx = self.regs[x];
        let vy = self.regs[y];
        if n == 0 {
            self.regs[x] = vy;
        } else if n == 1 {
            self.regs[x] = vx | vy;
        } else if n == 2 {
            self.regs[x] = vx & vy;
        } else if n == 3 {
            self.regs[x] = vx ^ vy;
        } else if n == 4 {
            let sum = vx as u16 + vy as u16;
            self.regs[x] = (sum % 256) as u8;
            self.regs[FLAG_REG] = if sum > 255 { 1 } else { 0 };
        } else if n == 5 {
            self.regs[x] = ((vx as u16 + 256 - vy as u16) % 256) as u8;
            self.regs[FLAG_REG] = if vx < vy { 1 } else { 0 };
        } else if n == 6 {
            self.regs[FLAG_REG] = vx % 2;
            self.regs[x] = vx / 2;
        } else if n == 7 {
            self.regs[x] = ((vy as u16 + 256 - vx as u16) % 256) as u8;
            self.regs[FLAG_REG] = if vy < vx { 1 } else { 0 };
        } else if n == 14 {
            self.regs[FLAG_REG] = vx % 2;
            self.regs[x] = ((vx as u16 * 2) % 256) as u8;
        } else {
            return Err(Chip8Error::InvalidOpcode { addr, opcode: op });
        }
        Ok(())
    }

    /// Instruction `Dxyn`.
    fn execute_draw(&mut self, addr: u16, op: u16) -> (r: Result<(), Chip8Error>)
        requires
            old(self)@.wf(),
        ensures
            match r {
                Ok(_) => execute_draw(old(self)@, addr, op) == Ok::<Chip8State, Chip8Error>(final(self)@),
                Err(e) => execute_draw(old(self)@, addr, op) == Err::<Chip8State, Chip8Error>(e) && final(self)@ == old(self)@,
            },
            final(self)@.wf(),
    {
        let x = self.regs[((op / 256) % 16) as usize];
        let y = self.regs[((op / 16) % 16) as usize];
        let n = (op % 16) as usize;
        let start = self.index as usize;
        if start + n > MEM_SIZE {
            return Err(Chip8Error::MemoryOutOfRange { addr });
        }
        let collision = draw_sprite(&mut self.vram, &self.mem, start, x, y, n);
        self.regs[FLAG_REG] = if collision { 1 } else { 0 };
        self.draw_flag = true;
        Ok(())
    }

    /// Instructions `Ex9E` and `ExA1`.
    fn execute_key(&mut self, addr: u16, op: u16) -> (r: Result<(), Chip8Error>)
        requires
            old(self)@.wf(),
            old(self).pc <= MEM_SIZE,
        ensures
            match r {
                Ok(_) => execute_key(old(self)@, addr, op) == Ok::<Chip8State, Chip8Error>(final(self)@),
                Err(e) => execute_key(old(self)@, addr, op) == Err::<Chip8State, Chip8Error>(e) && final(self)@ == old(self)@,
            },
            final(self)@.wf(),
    {
        let vx = self.regs[((op / 256) % 16) as usize];
        let kk = (op % 256) as u8;
        if kk == 0x9E {
            if (vx as usize) < NUM_KEYS && self.keys[vx as usize] {
                self.pc = self.pc + 2;
            }
        } else if kk == 0xA1 {
            if (vx as usize) < NUM_KEYS && !self.keys[vx as usize] {
                self.pc = self.pc + 2;
            }
        } else {
            return Err(Chip8Error::InvalidOpcode { addr, opcode: op });
        }
        Ok(())
    }

    /// The lowest key that is down, or 16 if none is.
    fn lowest_key_down(&self) -> (r: usize)
        requires
            self@.wf(),
        ensures
            r == lowest_down(self@.keys, 0),
    {
        let mut k: usize = 0;
        while k < NUM_KEYS && !self.keys[k]
            invariant
                k <= NUM_KEYS,
                self@.wf(),
                lowest_down(self@.keys, k as int) == lowest_down(self@.keys, 0),
            decreases NUM_KEYS - k,
        {
            k = k + 1;
        }
        k
    }

    /// Instructions `Fx??`.
    fn execute_misc(&mut self, addr: u16, op: u16) -> (r: Result<(), Chip8Error>)
        requires
            old(self)@.wf(),
        ensures
            match r {
                Ok(_) => execute_misc(old(self)@, addr, op) == Ok::<Chip8State, Chip8Error>(final(self)@),
                Err(e) => execute_misc(old(self)@, addr, op) == Err::<Chip8State, Chip8Error>(e) && final(self)@ == old(self)@,
            },
            final(self)@.wf(),
    {
        let ghost s0 = self@;
        let x = ((op / 256) % 16) as usize;
        let vx = self.regs[x];
        let kk = (op % 256) as u8;
        let i = self.index as usize;
        if kk == 0x07 {
            self.regs[x] = self.delay_timer;
        } else if kk == 0x0A {
            let k = self.lowest_key_down();
            if k < NUM_KEYS {
                self.regs[x] = k as u8;
            } else {
                self.awaiting_key = true;
                self.await_reg = x as u8;
            }
        } else if kk == 0x15 {
            self.delay_timer = vx;
        } else if kk == 0x18 {
            self.sound_timer = vx;
        } else if kk == 0x1E {
            self.index = ((i + vx as usize) % 65536) as u16;
        } else if kk == 0x29 {
            self.index = vx as u16 * 5;
        } else if kk == 0x33 {
            if i + 2 >= MEM_SIZE {
                return Err(Chip8Error::MemoryOutOfRange { addr });
            }
            self.mem[i] = vx / 100;
            self.mem[i + 1] = (vx / 10) % 10;
            self.mem[i + 2] = vx % 10;
        } else if kk == 0x55 {
            if i + x >= MEM_SIZE {
                return Err(Chip8Error::MemoryOutOfRange { addr });
            }
            let mut r: usize = 0;
            while r <= x
                invariant
                    s0.wf(),
                    x < NUM_REGS,
                    i == s0.index,
                    i + x < MEM_SIZE,
                    r <= x + 1,
                    self@ == (Chip8State { mem: self@.mem, ..s0 }),
                    self@.mem.len() == MEM_SIZE,
                    forall|a: int| 0 <= a < MEM_SIZE ==> #[trigger] self@.mem[a] == if i <= a < i + r { s0.regs[a - i] } else { s0.mem[a] },
                decreases x + 1 - r,
            {
                self.mem[i + r] = self.regs[r];
                r = r + 1;
            }
            assert(self@.mem =~= Seq::new(MEM_SIZE as nat, |a: int| if i <= a <= i + x { s0.regs[a - i] } else { s0.mem[a] }));
        } else if kk == 0x65 {
            if i + x >= MEM_SIZE {
                return Err(Chip8Error::MemoryOutOfRange { addr });
            }
            let mut r: usize = 0;
            while r <= x
                invariant
                    s0.wf(),
                    x < NUM_REGS,
                    i == s0.index,
                    i + x < MEM_SIZE,
                    r <= x + 1,
                    self@ == (Chip8State { regs: self@.regs, ..s0 }),
                    self@.regs.len() == NUM_REGS,
                    forall|q: int| 0 <= q < NUM_REGS ==> #[trigger] self@.regs[q] == if q < r { s0.mem[i + q] } else { s0.regs[q] },
                decreases x + 1 - r,
            {
                self.regs[r] = self.mem[i + r];
                r = r + 1;
            }
            assert(self@.regs =~= Seq::new(NUM_REGS as nat, |q: int| if q <= x { s0.mem[i + q] } else { s0.regs[q] }));
        } else {
            return Err(Chip8Error::InvalidOpcode { addr, opcode: op });
        }
        Ok(())
    }

    /// Executes `op`, fetched from `addr`; the program counter already points past it.
    fn execute(&mut self, addr: u16, op: u16, rnd: u8) -> (r: Result<(), Chip8Error>)
        requires
            old(self)@.wf(),
            old(self).pc <= MEM_SIZE,
        ensures
            match r {
                Ok(_) => execute(old(self)@, addr, op, rnd) == Ok::<Chip8State, Chip8Error>(final(self)@),
                Err(e) => execute(old(self)@, addr, op, rnd) == Err::<Chip8State, Chip8Error>(e) && final(self)@ == old(self)@,
            },
            final(self)@.wf(),
    {
        let family = op / 4096;
        let x = ((op / 256) % 16) as usize;
        let y = ((op / 16) % 16) as usize;
        let kk = (op % 256) as u8;
        let nnn = op % 4096;
        let vx = self.regs[x];
        let vy = self.regs[y];
        if family == 0 {
            if op == 0x00E0 {
                self.vram = filled(false, SCREEN_SIZE);
                self.draw_flag = true;
            } else if op == 0x00EE {
                match self.stack.pop() {
                    Some(ret) => {
                        self.pc = ret;
                    },
                    None => {
                        return Err(Chip8Error::StackUnderflow { addr });
                    },
                }
            } else {
                return Err(Chip8Error::InvalidOpcode { addr, opcode: op });
            }
        } else if family == 1 {
            self.pc = nnn;
        } else if family == 2 {
            if self.stack.len() >= STACK_DEPTH {
                return Err(Chip8Error::StackOverflow { addr });
            }
            self.stack.push(self.pc);
            self.pc = nnn;
        } else if family == 3 {
            if vx == kk {
                self.pc = self.pc + 2;
            }
        } else if family == 4 {
            if vx != kk {
                self.pc = self.pc + 2;
            }
        } else if family == 5 {
            if op % 16 != 0 {
                return Err(Chip8Error::InvalidOpcode { addr, opcode: op });
            }
            if vx == vy {
                self.pc = self.pc + 2;
            }
        } else if family == 6 {
            self.regs[x] = kk;
        } else if family == 7 {
            self.regs[x] = ((vx as u16 + kk as u16) % 256) as u8;
        } else if family == 8 {
            return self.execute_alu(addr, op);
        } else if family == 9 {
            if op % 16 != 0 {
                return Err(Chip8Error::InvalidOpcode { addr, opcode: op });
            }
            if vx != vy {
                self.pc = self.pc + 2;
            }
        } else if family == 10 {
            self.index = nnn;
        } else if family == 11 {
            self.pc = nnn + self.regs[0] as u16;
        } else if family == 12 {
            self.regs[x] = rnd & kk;
        } else if family == 13 {
            return self.execute_draw(addr, op);
        } else if family == 14 {
            return self.execute_key(addr, op);
        } else {
            return self.execute_misc(addr, op);
        }
        Ok(())
    }

    /// One instruction cycle: fetch the word at the program counter, execute it,
    /// then count each nonzero timer down by one. `rnd` is the random byte that
    /// `Cxkk` masks. Returns whether the tone sounds, which it does on the cycle
    /// where the sound timer goes from 1 to 0. On an error the machine is left
    /// exactly as it was.
    pub fn tick(&mut self, rnd: u8) -> (r: Result<bool, Chip8Error>)
        requires
            old(self)@.wf(),
        ensures
            match step(old(self)@, rnd) {
                Ok((t, tone)) => r == Ok::<bool, Chip8Error>(tone) && final(self)@ == t,
                Err(e) => r == Err::<bool, Chip8Error>(e) && final(self)@ == old(self)@,
            },
            final(self)@.wf(),
    {
        let addr = self.pc;
        let op = match self.fetch() {
            Some(op) => op,
            None => {
                return Err(Chip8Error::MemoryOutOfRange { addr });
            },
        };
        self.pc = addr + 2;
        if let Err(e) = self.execute(addr, op, rnd) {
            self.pc = addr;
            return Err(e);
        }
        let tone = self.sound_timer == 1;
        if self.delay_timer > 0 {
            self.delay_timer = self.delay_timer - 1;
        }
        if self.sound_timer > 0 {
            self.sound_timer = self.sound_timer - 1;
        }
        Ok(tone)
    }

    /// The program counter.
    pub fn pc(&self) -> (r: u16)
        ensures
            r == self@.pc,
    {
        self.pc
    }

    /// The index register.
    pub fn index(&self) -> (r: u16)
        ensures
            r == self@.index,
    {
        self.index
    }

    /// General register `r`.
    pub fn register(&self, r: usize) -> (v: u8)
        requires
            self@.wf(),
            r < NUM_REGS,
        ensures
            v == self@.regs[r as int],
    {
        self.regs[r]
    }

    /// The byte at address `addr`.
    pub fn memory(&self, addr: usize) -> (v: u8)
        requires
            self@.wf(),
            addr < MEM_SIZE,
        ensures
            v == self@.mem[addr as int],
    {
        self.mem[addr]
    }

    /// The frame buffer, pixel `(x, y)` at `y * 64 + x`.
    pub fn pixels(&self) -> (r: &Vec<bool>)
        ensures
            r@ == self@.vram,
    {
        &self.vram
    }

    /// Whether the frame buffer changed since the flag was last cleared.
    pub fn draw_flag(&self) -> (r: bool)
        ensures
            r == self@.draw_flag,
    {
        self.draw_flag
    }

    /// Clears the redraw flag, once the frame buffer has been painted.
    pub fn clear_draw_flag(&mut self)
        ensures
            final(self)@ == (Chip8State { draw_flag: false, ..old(self)@ }),
    {
        self.draw_flag = false;
    }

    /// The delay timer.
    pub fn delay_timer(&self) -> (r: u8)
        ensures
            r == self@.delay_timer,
    {
        self.delay_timer
    }

    /// The sound timer.
    pub fn sound_timer(&self) -> (r: u8)
        ensures
            r == self@.sound_timer,
    {
        self.sound_timer
    }

    /// The number of active subroutine calls.
    pub fn stack_depth(&self) -> (r: usize)
        ensures
            r == self@.stack.len(),
    {
        self.stack.len()
    }

    /// Whether key `k` is down; false for indices past 15.
    pub fn is_key_down(&self, k: usize) -> (r: bool)
        requires
            self@.wf(),
        ensures
            r == (k < NUM_KEYS && self@.keys[k as int]),
    {
        k < NUM_KEYS && self.keys[k]
    }

    /// The register that the next key press is to be written into, if the
    /// machine waits for a key.
    pub fn awaiting_key(&self) -> (r: Option<u8>)
        ensures
            r == if self@.awaiting_key { Some(self@.await_reg) } else { None::<u8> },
    {
        if self.awaiting_key {
            Some(self.await_reg)
        } else {
            None
        }
    }
}

} // verus!
