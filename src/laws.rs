//! Properties of the machine, stated over the model and proved.
use vstd::prelude::*;
use crate::font::font;
use crate::model::{
    collides, covers, drawn, loaded_state, op_kk, op_x, op_y, pixel_of, press_key, release_key,
    sprite_bit, step, word_at, Chip8Error, Chip8State, FLAG_REG, MAX_PROGRAM_LEN, MEM_SIZE,
    NUM_KEYS, PROGRAM_START, SCREEN_SIZE, STACK_DEPTH,
};

verus! {

/// The state after one cycle, or the state itself where the cycle fails.
pub open spec fn next_state(s: Chip8State, rnd: u8) -> Chip8State {
    match step(s, rnd) {
        Ok((t, _)) => t,
        Err(_) => s,
    }
}

/// Whether the tone sounds in the cycle from `s`.
pub open spec fn tone(s: Chip8State, rnd: u8) -> bool {
    match step(s, rnd) {
        Ok((_, b)) => b,
        Err(_) => false,
    }
}

/// The instruction at the program counter.
pub open spec fn current_op(s: Chip8State) -> u16 {
    word_at(s.mem, s.pc as int)
}

/// Loading puts byte `i` of the program at address `0x200 + i` and the glyph set
/// at addresses `0..80`, whatever the machine held before: the loaded state
/// depends on the program alone.
pub proof fn lemma_load_layout(program: Seq<u8>)
    requires
        program.len() <= MAX_PROGRAM_LEN,
    ensures
        loaded_state(program).wf(),
        forall|i: int| 0 <= i < program.len() ==> #[trigger] loaded_state(program).mem[PROGRAM_START + i] == program[i],
        forall|a: int| 0 <= a < 80 ==> #[trigger] loaded_state(program).mem[a] == font()[a],
        loaded_state(program).pc == PROGRAM_START,
{
}

/// `7xkk` adds modulo 256 and leaves the flag register alone (unless it is the target).
pub proof fn lemma_add_immediate_wraps(s: Chip8State, rnd: u8)
    requires
        s.wf(),
        s.pc + 1 < MEM_SIZE,
        current_op(s) / 4096 == 7,
    ensures
        step(s, rnd) is Ok,
        next_state(s, rnd).regs[op_x(current_op(s))] == (s.regs[op_x(current_op(s))] + op_kk(current_op(s))) % 256,
        op_x(current_op(s)) != FLAG_REG ==> next_state(s, rnd).regs[FLAG_REG as int] == s.regs[FLAG_REG as int],
{
}

/// `8xy4`, `8xy5` and `8xy7` set the flag register to exactly 1 on carry or
/// borrow and to 0 otherwise, and store the wrapped result.
pub proof fn lemma_arith_flags(s: Chip8State, rnd: u8)
    requires
        s.wf(),
        s.pc + 1 < MEM_SIZE,
        current_op(s) / 4096 == 8,
        current_op(s) % 16 == 4 || current_op(s) % 16 == 5 || current_op(s) % 16 == 7,
    ensures
        step(s, rnd) is Ok,
        ({
            let op = current_op(s);
            let vx = s.regs[op_x(op)];
            let vy = s.regs[op_y(op)];
            let t = next_state(s, rnd);
            &&& op % 16 == 4 ==> t.regs[FLAG_REG as int] == (if vx + vy > 255 { 1u8 } else { 0u8 })
                && (op_x(op) != FLAG_REG ==> t.regs[op_x(op)] == (vx + vy) % 256)
            &&& op % 16 == 5 ==> t.regs[FLAG_REG as int] == (if vx < vy { 1u8 } else { 0u8 })
                && (op_x(op) != FLAG_REG ==> t.regs[op_x(op)] == (vx - vy + 256) % 256)
            &&& op % 16 == 7 ==> t.regs[FLAG_REG as int] == (if vy < vx { 1u8 } else { 0u8 })
                && (op_x(op) != FLAG_REG ==> t.regs[op_x(op)] == (vy - vx + 256) % 256)
        }),
{
}

/// A call `2nnn` at `P` to a subroutine whose first instruction is `00EE` comes
/// back to `P + 2` with the stack as it was, at any depth below the limit.
pub proof fn lemma_call_return(s: Chip8State, rnd1: u8, rnd2: u8)
    requires
        s.wf(),
        s.stack.len() < STACK_DEPTH,
        s.pc + 1 < MEM_SIZE,
        current_op(s) / 4096 == 2,
        current_op(s) % 4096 + 1 < MEM_SIZE,
        word_at(s.mem, current_op(s) as int % 4096) == 0x00EE,
    ensures
        step(s, rnd1) is Ok,
        next_state(s, rnd1).stack == s.stack.push((s.pc + 2) as u16),
        step(next_state(s, rnd1), rnd2) is Ok,
        next_state(next_state(s, rnd1), rnd2).pc == s.pc + 2,
        next_state(next_state(s, rnd1), rnd2).stack == s.stack,
{
    let t = next_state(s, rnd1);
    assert(t.pc == current_op(s) % 4096);
    assert(t.stack.drop_last() =~= s.stack);
}

/// A call succeeds while fewer than 16 calls are active and fails at 16; a return
/// with no call active fails.
pub proof fn lemma_stack_limits(s: Chip8State, rnd: u8)
    requires
        s.wf(),
        s.pc + 1 < MEM_SIZE,
    ensures
        current_op(s) / 4096 == 2 ==> (step(s, rnd) is Ok <==> s.stack.len() < STACK_DEPTH),
        current_op(s) / 4096 == 2 && s.stack.len() == STACK_DEPTH ==> step(s, rnd) == Err::<(Chip8State, bool), Chip8Error>(Chip8Error::StackOverflow { addr: s.pc }),
        current_op(s) == 0x00EE && s.stack.len() == 0 ==> step(s, rnd) == Err::<(Chip8State, bool), Chip8Error>(Chip8Error::StackUnderflow { addr: s.pc }),
{
}

/// Drawing a glyph twice at the same place gives back the frame buffer, and the
/// second drawing collides exactly where a set bit of the glyph lands on a
/// pixel that was off before the first.
pub proof fn lemma_draw_twice(vram: Seq<bool>, mem: Seq<u8>, start: int, x: u8, y: u8, n: int)
    requires
        vram.len() == SCREEN_SIZE,
        0 <= n < 16,
        0 <= start,
        start + n <= mem.len(),
    ensures
        drawn(drawn(vram, mem, start, x, y, n), mem, start, x, y, n) == vram,
        collides(drawn(vram, mem, start, x, y, n), mem, start, x, y, n) == exists|j: int|
            0 <= j < 8 * n && #[trigger] sprite_bit(mem, start, j) && !vram[pixel_of(x, y, j)],
{
    let once = drawn(vram, mem, start, x, y, n);
    assert(drawn(once, mem, start, x, y, n) =~= vram);
    assert forall|j: int| 0 <= j < 8 * n && #[trigger] sprite_bit(mem, start, j) implies
        once[pixel_of(x, y, j)] == !vram[pixel_of(x, y, j)] by {
        assert(covers(mem, start, x, y, 8 * n, pixel_of(x, y, j)));
    }
}

/// `00E0` turns every pixel off and raises the redraw flag, whatever was on screen.
pub proof fn lemma_clear_screen(s: Chip8State, rnd: u8)
    requires
        s.wf(),
        s.pc + 1 < MEM_SIZE,
        current_op(s) == 0x00E0,
    ensures
        step(s, rnd) is Ok,
        next_state(s, rnd).vram.len() == SCREEN_SIZE,
        forall|p: int| 0 <= p < SCREEN_SIZE ==> !#[trigger] next_state(s, rnd).vram[p],
        next_state(s, rnd).draw_flag,
{
}

/// Every cycle that does not itself load a timer counts each timer down by one,
/// stopping at 0, and the tone sounds exactly when the sound timer goes from 1 to 0.
pub proof fn lemma_timers_count_down(s: Chip8State, rnd: u8)
    requires
        s.wf(),
        step(s, rnd) is Ok,
        !(current_op(s) / 4096 == 15 && (op_kk(current_op(s)) == 0x15 || op_kk(current_op(s)) == 0x18)),
    ensures
        next_state(s, rnd).delay_timer == if s.delay_timer > 0 { s.delay_timer - 1 } else { 0 },
        next_state(s, rnd).sound_timer == if s.sound_timer > 0 { s.sound_timer - 1 } else { 0 },
        tone(s, rnd) == (s.sound_timer == 1),
{
}

/// With no key down, `Fx0A` makes the machine wait; the next key press writes its
/// number into register `x` and ends the wait, and later key events leave that
/// register alone.
pub proof fn lemma_await_key(s: Chip8State, rnd: u8, k: int, later: int, down: bool)
    requires
        s.wf(),
        s.pc + 1 < MEM_SIZE,
        current_op(s) / 4096 == 15,
        op_kk(current_op(s)) == 0x0A,
        forall|i: int| 0 <= i < NUM_KEYS ==> !#[trigger] s.keys[i],
        0 <= k < NUM_KEYS,
    ensures
        step(s, rnd) is Ok,
        next_state(s, rnd).awaiting_key,
        next_state(s, rnd).await_reg == op_x(current_op(s)),
        press_key(next_state(s, rnd), k).regs[op_x(current_op(s))] == k,
        !press_key(next_state(s, rnd), k).awaiting_key,
        ({
            let u = press_key(next_state(s, rnd), k);
            let v = if down { press_key(u, later) } else { release_key(u, later) };
            v.regs[op_x(current_op(s))] == k
        }),
{
    let ks = s.keys;
    assert forall|i: int| 0 <= i <= NUM_KEYS implies #[trigger] crate::model::lowest_down(ks, i) == NUM_KEYS by {
        lemma_no_key_down(ks, i);
    }
}

/// The state after `n` cycles, stopping at the first that fails.
pub open spec fn run(s: Chip8State, rnd: u8, n: nat) -> Chip8State
    decreases n,
{
    if n == 0 {
        s
    } else {
        run(next_state(s, rnd), rnd, (n - 1) as nat)
    }
}

/// How many of the first `n` cycles sound the tone.
pub open spec fn tones(s: Chip8State, rnd: u8, n: nat) -> nat
    decreases n,
{
    if n == 0 {
        0
    } else {
        (if tone(s, rnd) { 1nat } else { 0nat }) + tones(next_state(s, rnd), rnd, (n - 1) as nat)
    }
}

/// On a machine spinning on a jump to itself, `n` cycles take each timer down by
/// `n`, never below 0, change nothing else, and sound the tone once if the sound
/// timer was between 1 and `n`, else never.
pub proof fn lemma_timers_run_out(s: Chip8State, rnd: u8, n: nat)
    requires
        s.wf(),
        s.pc + 1 < MEM_SIZE,
        current_op(s) == 0x1000 + s.pc,
    ensures
        run(s, rnd, n) == (Chip8State {
            delay_timer: if s.delay_timer > n { (s.delay_timer - n) as u8 } else { 0u8 },
            sound_timer: if s.sound_timer > n { (s.sound_timer - n) as u8 } else { 0u8 },
            ..s
        }),
        tones(s, rnd, n) == if 0 < s.sound_timer <= n { 1nat } else { 0nat },
    decreases n,
{
    if n > 0 {
        let t = next_state(s, rnd);
        assert(t == (Chip8State {
            delay_timer: if s.delay_timer > 0 { (s.delay_timer - 1) as u8 } else { 0u8 },
            sound_timer: if s.sound_timer > 0 { (s.sound_timer - 1) as u8 } else { 0u8 },
            ..s
        }));
        lemma_timers_run_out(t, rnd, (n - 1) as nat);
    }
}

proof fn lemma_no_key_down(keys: Seq<bool>, i: int)
    requires
        keys.len() == NUM_KEYS,
        0 <= i <= NUM_KEYS,
        forall|j: int| 0 <= j < NUM_KEYS ==> !#[trigger] keys[j],
    ensures
        crate::model::lowest_down(keys, i) == NUM_KEYS,
    decreases NUM_KEYS - i,
{
    if i < NUM_KEYS {
        lemma_no_key_down(keys, i + 1);
    }
}

} // verus!
