//! Laws of the instruction set, proved of the model that the interpreter
//! implements.

use crate::instruction::{decode, Instruction};
use crate::machine::{
    first_released_from, sprite_bit, sprite_covers, sprite_index, timer_remaining, Machine,
    Outcome, Step, RAM_SIZE, STACK_CAPACITY,
};
use vstd::arithmetic::div_mod::{
    lemma_fundamental_div_mod, lemma_mod_multiples_vanish, lemma_small_mod,
};
use vstd::prelude::*;

verus! {

/// Adding one register to another with carry leaves their sum modulo 256 in
/// the destination, and sets the flag register to 1 if the sum exceeded 255
/// and to 0 if it did not. Where the destination is the flag register itself,
/// the sum is what it holds in the end. Nothing else changes but the program
/// counter, which moves to the next instruction.
pub proof fn law_add_with_carry(m: Machine, x: usize, y: usize, elapsed_ms: nat, random: u8)
    requires
        m.v.len() == 16,
        x < 16,
        y < 16,
    ensures
        ({
            let step = m.execute(Instruction::AddReg { x, y }, elapsed_ms, random);
            let sum = m.v[x as int] + m.v[y as int];
            &&& step.outcome == Outcome::Executed
            &&& step.machine.v[x as int] == sum % 256
            &&& x != 0xF ==> step.machine.v[0xF] == if sum > 255 { 1int } else { 0int }
            &&& forall|r: int| 0 <= r < 15 && r != x ==> step.machine.v[r] == m.v[r]
            &&& step.machine == Machine { v: step.machine.v, pc: m.pc + 2, ..m }
        }),
{
}

/// Subtracting one register from another leaves the difference modulo 256 of
/// their values before the instruction in the destination, whichever
/// registers they are, and sets the flag register to 1 if nothing had to be
/// borrowed (the minuend was at least the subtrahend) and to 0 otherwise.
/// Where the destination is the flag register itself, the difference is what
/// it holds in the end.
pub proof fn law_sub_with_borrow(m: Machine, x: usize, y: usize, elapsed_ms: nat, random: u8)
    requires
        m.v.len() == 16,
        x < 16,
        y < 16,
    ensures
        ({
            let step = m.execute(Instruction::SubReg { x, y }, elapsed_ms, random);
            let a = m.v[x as int];
            let b = m.v[y as int];
            &&& step.outcome == Outcome::Executed
            &&& step.machine.v[x as int] == (a - b) % 256
            &&& x != 0xF ==> step.machine.v[0xF] == if a >= b { 1int } else { 0int }
            &&& forall|r: int| 0 <= r < 15 && r != x ==> step.machine.v[r] == m.v[r]
            &&& step.machine == Machine { v: step.machine.v, pc: m.pc + 2, ..m }
        }),
{
}

/// The reversed subtraction is the subtraction with the operands exchanged:
/// the destination receives `Vy - Vx` modulo 256, of the values before the
/// instruction, and the flag register is 1 exactly if `Vy >= Vx`.
pub proof fn law_reversed_sub(m: Machine, x: usize, y: usize, elapsed_ms: nat, random: u8)
    requires
        m.v.len() == 16,
        x < 16,
        y < 16,
    ensures
        ({
            let step = m.execute(Instruction::SubFrom { x, y }, elapsed_ms, random);
            let a = m.v[x as int];
            let b = m.v[y as int];
            &&& step.outcome == Outcome::Executed
            &&& step.machine.v[x as int] == (b - a) % 256
            &&& x != 0xF ==> step.machine.v[0xF] == if b >= a { 1int } else { 0int }
            &&& forall|r: int| 0 <= r < 15 && r != x ==> step.machine.v[r] == m.v[r]
            &&& step.machine == Machine { v: step.machine.v, pc: m.pc + 2, ..m }
        }),
{
}

/// A shift to the right leaves the register shifted by one bit and bit 0 of
/// its old value in the flag register. Where the register is the flag
/// register itself, the shifted value is what it holds in the end.
pub proof fn law_shift_right(m: Machine, x: usize, elapsed_ms: nat, random: u8)
    requires
        m.v.len() == 16,
        x < 16,
    ensures
        ({
            let step = m.execute(Instruction::ShiftRight { x }, elapsed_ms, random);
            let a = m.v[x as int];
            &&& step.outcome == Outcome::Executed
            &&& step.machine.v[x as int] == a >> 1
            &&& x != 0xF ==> step.machine.v[0xF] == a & 1
            &&& forall|r: int| 0 <= r < 15 && r != x ==> step.machine.v[r] == m.v[r]
            &&& step.machine == Machine { v: step.machine.v, pc: m.pc + 2, ..m }
        }),
{
    let a = m.v[x as int];
    assert(a >> 1 == a / 2) by (bit_vector);
    assert(a & 1 == a % 2) by (bit_vector);
}

/// A shift to the left leaves the register shifted by one bit, the top bit
/// dropped, and bit 7 of its old value, as 0 or 1, in the flag register.
/// Where the register is the flag register itself, the shifted value is what
/// it holds in the end.
pub proof fn law_shift_left(m: Machine, x: usize, elapsed_ms: nat, random: u8)
    requires
        m.v.len() == 16,
        x < 16,
    ensures
        ({
            let step = m.execute(Instruction::ShiftLeft { x }, elapsed_ms, random);
            let a = m.v[x as int];
            &&& step.outcome == Outcome::Executed
            &&& step.machine.v[x as int] == a << 1
            &&& step.machine.v[x as int] == (2 * a) % 256
            &&& x != 0xF ==> step.machine.v[0xF] == (a >> 7) & 1
            &&& x != 0xF ==> step.machine.v[0xF] <= 1
            &&& forall|r: int| 0 <= r < 15 && r != x ==> step.machine.v[r] == m.v[r]
            &&& step.machine == Machine { v: step.machine.v, pc: m.pc + 2, ..m }
        }),
{
    let a = m.v[x as int];
    assert(a << 1 == (a * 2) % 256) by (bit_vector);
    assert((a >> 7) & 1 == a / 128) by (bit_vector);
}

/// A call followed by a return continues right after the call. Whatever the
/// subroutine did in between, as long as it left the call stack as it found
/// it, the return puts the program counter two bytes past the call, takes
/// the return address off the stack again, and changes nothing else: neither
/// the call nor the return touches a register.
pub proof fn law_call_then_return(
    m: Machine,
    addr: u16,
    subroutine_end: Machine,
    elapsed_ms: nat,
    random: u8,
)
    requires
        m.stack.len() < STACK_CAPACITY,
        0 <= m.pc,
        m.pc + 2 <= u16::MAX,
        subroutine_end.stack == m.call(addr).stack,
    ensures
        ({
            let called = m.execute(Instruction::Call { addr }, elapsed_ms, random);
            let returned = subroutine_end.execute(Instruction::Return, elapsed_ms, random);
            &&& called.outcome == Outcome::Executed
            &&& called.machine == m.call(addr)
            &&& called.machine.pc == addr
            &&& called.machine.v == m.v
            &&& returned.outcome == Outcome::Executed
            &&& returned.machine.pc == m.pc + 2
            &&& returned.machine.stack == m.stack
            &&& returned.machine == Machine {
                pc: m.pc + 2,
                stack: m.stack,
                ..subroutine_end
            }
        }),
{
    let pushed = m.stack.push((m.pc + 2) as u16);
    assert(pushed.drop_last() =~= m.stack);
}

/// A delay timer read less than one period after it was set still reads the
/// value set; read `k` whole periods after, with `k` below the value, it
/// reads the value less `k`; and read once as many periods as the value have
/// gone by, it reads zero.
pub proof fn law_delay_timer_decay(value: u8, elapsed_ms: nat, k: nat)
    ensures
        elapsed_ms < 15 ==> timer_remaining(value, elapsed_ms) == value,
        k < value ==> timer_remaining(value, k * 15) == value - k,
        elapsed_ms >= value * 15 ==> timer_remaining(value, elapsed_ms) == 0,
{
}

/// Setting the delay timer from a register and reading it back into a
/// register gives what is left of the value after the time between the two.
pub proof fn law_delay_set_then_read(m: Machine, x: usize, z: usize, elapsed_ms: nat, random: u8)
    requires
        m.v.len() == 16,
        x < 16,
        z < 16,
    ensures
        ({
            let set = m.execute(Instruction::SetDelay { x }, 0, random);
            let read = set.machine.execute(Instruction::ReadDelay { x: z }, elapsed_ms, random);
            &&& set.outcome == Outcome::Executed
            &&& read.outcome == Outcome::Executed
            &&& read.machine.v[z as int] == timer_remaining(m.v[x as int], elapsed_ms)
        }),
{
}

/// A skip on equality with an immediate moves the program counter on by four
/// where the register holds the immediate, and by two where it does not, and
/// changes nothing else.
pub proof fn law_skip_eq_imm(m: Machine, x: usize, kk: u8, elapsed_ms: nat, random: u8)
    ensures
        ({
            let step = m.execute(Instruction::SkipEqImm { x, kk }, elapsed_ms, random);
            &&& step.outcome == Outcome::Executed
            &&& step.machine == Machine {
                pc: m.pc + if m.v[x as int] == kk { 4int } else { 2int },
                ..m
            }
        }),
{
}

/// An instruction that is refused leaves the machine as it was.
pub proof fn law_fault_changes_nothing(m: Machine, elapsed_ms: nat, random: u8)
    ensures
        m.step(elapsed_ms, random).outcome is Fault ==> m.step(elapsed_ms, random).machine == m,
{
}

/// A jump to its own address is a fixed point: a tick at it changes nothing,
/// and so does any number of ticks.
pub proof fn law_jump_to_self_stays(m: Machine, elapsed_ms: nat, random: u8)
    requires
        m.pending() == Some(Instruction::Jump { addr: m.pc as u16 }),
    ensures
        m.step(elapsed_ms, random) == (Step { machine: m, outcome: Outcome::Executed }),
{
    assert(m.step(elapsed_ms, random).machine =~= m);
}

/// A tick of an instruction that neither reads the delay timer nor asks for
/// a random byte is the same whatever the clock and the generator would have
/// answered.
pub proof fn law_step_ignores_unused_inputs(
    m: Machine,
    elapsed_a: nat,
    random_a: u8,
    elapsed_b: nat,
    random_b: u8,
)
    requires
        !m.reads_outside(),
    ensures
        m.step(elapsed_a, random_a) == m.step(elapsed_b, random_b),
{
}

/// Plotting pixels changes the flag register and the framebuffer and nothing
/// else.
pub proof fn lemma_plot_first_frame(m: Machine, x: int, y: int, count: nat)
    requires
        m.v.len() == 16,
    ensures
        ({
            let drawn = m.plot_first(x, y, count);
            &&& drawn.pc == m.pc
            &&& drawn.stack == m.stack
            &&& drawn.i == m.i
            &&& drawn.ram == m.ram
            &&& drawn.delay == m.delay
            &&& drawn.sound == m.sound
            &&& drawn.keypad == m.keypad
            &&& drawn.update_screen == m.update_screen
            &&& drawn.v.len() == m.v.len()
            &&& forall|r: int| 0 <= r < 15 ==> drawn.v[r] == m.v[r]
        }),
    decreases count,
{
    if count > 0 {
        lemma_plot_first_frame(m, x, y, (count - 1) as nat);
    }
}

/// Around an edge `m` cells away, the place `p` is `d` cells after `v` exactly
/// if `d` is how far `p` lies after `v`.
pub proof fn lemma_wrap_offset(v: int, d: int, p: int, m: int)
    requires
        0 < m,
        0 <= d < m,
        0 <= p < m,
    ensures
        p == (v + d) % m <==> (p - v) % m == d,
{
    lemma_small_mod(d as nat, m as nat);
    lemma_small_mod(p as nat, m as nat);
    if p == (v + d) % m {
        let t = (v + d) / m;
        lemma_fundamental_div_mod(v + d, m);
        assert(p - v == m * (-t) + d) by (nonlinear_arith)
            requires
                v + d == m * t + p,
        ;
        lemma_mod_multiples_vanish(-t, d, m);
    }
    if (p - v) % m == d {
        let t = (p - v) / m;
        lemma_fundamental_div_mod(p - v, m);
        assert(v + d == m * (-t) + p) by (nonlinear_arith)
            requires
                p - v == m * t + d,
        ;
        lemma_mod_multiples_vanish(-t, p, m);
    }
}

/// Pixel `k` of a sprite drawn at `(vx, vy)` falls on one cell, and no other
/// pixel of the sprite falls on that cell.
pub proof fn lemma_sprite_index(vx: int, vy: int, k: int, r: int, q: int)
    requires
        0 <= vx < 256,
        0 <= vy < 256,
        0 <= k < 128,
        0 <= r < 32,
        0 <= q < 64,
    ensures
        (r == (vy + k / 8) % 32 && q == (vx + k % 8) % 64) <==> ((q - vx) % 64 < 8
            && sprite_index(vx, vy, r, q) == k),
{
    let dr = (r - vy) % 32;
    let dq = (q - vx) % 64;
    lemma_wrap_offset(vy, k / 8, r, 32);
    lemma_wrap_offset(vx, k % 8, q, 64);
    if dq < 8 && 8 * dr + dq == k {
        assert(dr == k / 8);
        assert(dq == k % 8);
    }
}

/// What plotting one pixel does to each cell of the framebuffer and to the
/// flag register.
pub proof fn lemma_plot_cell(m: Machine, x: int, y: int, k: int)
    requires
        m.wf(),
        0 <= x < 16,
        0 <= y < 16,
        0 <= k < 128,
    ensures
        ({
            let d = m.plot(x, y, k);
            let py = (m.v[y] + k / 8) % 32;
            let px = (m.v[x] + k % 8) % 64;
            &&& d.wf()
            &&& forall|r: int, q: int|
                0 <= r < 32 && 0 <= q < 64 ==> #[trigger] d.vram[r][q] == if r == py && q == px {
                    m.vram[r][q] ^ m.sprite_pixel(k)
                } else {
                    m.vram[r][q]
                }
            &&& d.v[0xF] == m.v[0xF] | m.hit(m.v[x] as int, m.v[y] as int, k)
        }),
{
}

/// What plotting the first `count` pixels of a sprite comes to, cell by cell,
/// where neither coordinate register is the flag register: a cell that a
/// pixel falls on is combined with that pixel by exclusive or, every other
/// cell stays, and the flag register holds the collisions collected.
pub proof fn lemma_plot_first_closed_form(c: Machine, x: int, y: int, count: nat)
    requires
        c.wf(),
        0 <= x < 15,
        0 <= y < 15,
        count <= 128,
        c.v[0xF] == 0,
    ensures
        ({
            let d = c.plot_first(x, y, count);
            let vx = c.v[x] as int;
            let vy = c.v[y] as int;
            &&& d.wf()
            &&& forall|r: int, q: int|
                0 <= r < 32 && 0 <= q < 64 ==> #[trigger] d.vram[r][q] == if sprite_covers(
                    vx,
                    vy,
                    count as int,
                    r,
                    q,
                ) {
                    c.vram[r][q] ^ c.sprite_pixel(sprite_index(vx, vy, r, q))
                } else {
                    c.vram[r][q]
                }
            &&& d.v[0xF] == c.collisions(vx, vy, count)
        }),
    decreases count,
{
    if count > 0 {
        let k = (count - 1) as int;
        let prev = c.plot_first(x, y, k as nat);
        let d = c.plot_first(x, y, count);
        lemma_plot_first_closed_form(c, x, y, k as nat);
        lemma_plot_first_frame(c, x, y, k as nat);
        lemma_plot_cell(prev, x, y, k);
        let vx = c.v[x] as int;
        let vy = c.v[y] as int;
        let py = (vy + k / 8) % 32;
        let px = (vx + k % 8) % 64;
        assert(d == prev.plot(x, y, k));
        assert(prev.v[x] == c.v[x] && prev.v[y] == c.v[y]);
        assert(prev.sprite_pixel(k) == c.sprite_pixel(k));
        lemma_sprite_index(vx, vy, k, py, px);
        assert(!sprite_covers(vx, vy, k, py, px));
        assert(prev.vram[py][px] == c.vram[py][px]);
        assert forall|r: int, q: int| 0 <= r < 32 && 0 <= q < 64 implies #[trigger] d.vram[r][q]
            == if sprite_covers(vx, vy, count as int, r, q) {
            c.vram[r][q] ^ c.sprite_pixel(sprite_index(vx, vy, r, q))
        } else {
            c.vram[r][q]
        } by {
            lemma_sprite_index(vx, vy, k, r, q);
        }
    }
}

/// The collisions that a sprite collects depend on the framebuffer, memory
/// and the address register only.
pub proof fn lemma_collisions_frame(a: Machine, b: Machine, vx: int, vy: int, count: nat)
    requires
        a.vram == b.vram,
        a.ram == b.ram,
        a.i == b.i,
    ensures
        a.collisions(vx, vy, count) == b.collisions(vx, vy, count),
    decreases count,
{
    if count > 0 {
        lemma_collisions_frame(a, b, vx, vy, (count - 1) as nat);
    }
}

/// The collisions collected are 0 or 1, and 0 exactly where no pixel hit.
pub proof fn lemma_collisions_value(m: Machine, vx: int, vy: int, count: nat)
    ensures
        m.collisions(vx, vy, count) <= 1,
        m.collisions(vx, vy, count) == 0 <==> forall|k: int|
            0 <= k < count ==> #[trigger] m.hit(vx, vy, k) == 0,
    decreases count,
{
    if count > 0 {
        let k = count - 1;
        lemma_collisions_value(m, vx, vy, k as nat);
        let before = m.collisions(vx, vy, k as nat);
        let row = m.ram[m.i + k / 8];
        let shift = (7 - k % 8) as u8;
        let cell = m.vram[(vy + k / 8) % 32][(vx + k % 8) % 64];
        let h = m.hit(vx, vy, k);
        assert(h == ((row >> shift) & 1) & cell);
        assert(((row >> shift) & 1) & cell <= 1) by (bit_vector);
        assert(before <= 1 && h <= 1 ==> (before | h) <= 1 && ((before | h) == 0 <==> before == 0
            && h == 0)) by (bit_vector);
    }
}

/// What a draw does, cell by cell, where neither coordinate register is the
/// flag register. Each of the `8 * n` pixels of the sprite falls on the cell
/// at its offset from `(Vx, Vy)`, taken around the edges, and is combined
/// with it by exclusive or; no other cell changes. The flag register ends as
/// 1 if some set pixel fell on a lit cell and as 0 if none did. The
/// framebuffer is marked for a redraw, and no other register changes.
pub proof fn law_draw_cell_by_cell(
    m: Machine,
    x: usize,
    y: usize,
    n: usize,
    elapsed_ms: nat,
    random: u8,
)
    requires
        m.wf(),
        x < 15,
        y < 15,
        n < 16,
        n > 0 ==> m.i + n <= RAM_SIZE,
    ensures
        ({
            let step = m.execute(Instruction::Draw { x, y, n }, elapsed_ms, random);
            let vx = m.v[x as int] as int;
            let vy = m.v[y as int] as int;
            &&& step.outcome == Outcome::Executed
            &&& step.machine.wf()
            &&& step.machine.update_screen
            &&& step.machine.pc == m.pc + 2
            &&& step.machine.i == m.i
            &&& step.machine.ram == m.ram
            &&& forall|r: int, q: int|
                0 <= r < 32 && 0 <= q < 64 ==> #[trigger] step.machine.vram[r][q]
                    == if sprite_covers(vx, vy, 8 * n, r, q) {
                    m.vram[r][q] ^ m.sprite_pixel(sprite_index(vx, vy, r, q))
                } else {
                    m.vram[r][q]
                }
            &&& step.machine.v[0xF] == m.collisions(vx, vy, (8 * n) as nat)
            &&& step.machine.v[0xF] <= 1
            &&& step.machine.v[0xF] == 0 <==> forall|k: int|
                0 <= k < 8 * n ==> #[trigger] m.hit(vx, vy, k) == 0
            &&& forall|r: int| 0 <= r < 15 ==> step.machine.v[r] == m.v[r]
        }),
{
    let cleared = m.with_register(0xF, 0);
    let count = (8 * n) as nat;
    lemma_plot_first_closed_form(cleared, x as int, y as int, count);
    lemma_plot_first_frame(cleared, x as int, y as int, count);
    lemma_collisions_frame(cleared, m, m.v[x as int] as int, m.v[y as int] as int, count);
    lemma_collisions_value(m, m.v[x as int] as int, m.v[y as int] as int, count);
}

/// Sprite coordinates wrap. The pixel in row `row` and column `col` of a
/// sprite falls on the cell in row `(Vy + row) mod 32` and column
/// `(Vx + col) mod 64`. So of a sprite drawn at `Vx = 63` the columns after
/// the first fall on the framebuffer's columns from 0 on, and of one drawn at
/// `Vy = 31` the rows after the first fall on its rows from 0 on.
pub proof fn law_draw_wraps(
    m: Machine,
    x: usize,
    y: usize,
    n: usize,
    row: int,
    col: int,
    elapsed_ms: nat,
    random: u8,
)
    requires
        m.wf(),
        x < 15,
        y < 15,
        n < 16,
        m.i + n <= RAM_SIZE,
        0 <= row < n,
        0 <= col < 8,
    ensures
        ({
            let drawn = m.execute(Instruction::Draw { x, y, n }, elapsed_ms, random).machine;
            let r = (m.v[y as int] + row) % 32;
            let q = (m.v[x as int] + col) % 64;
            &&& drawn.vram[r][q] == m.vram[r][q] ^ sprite_bit(m.ram[m.i + row], col)
            &&& m.v[x as int] == 63 && col >= 1 ==> q == col - 1
            &&& m.v[y as int] == 31 && row >= 1 ==> r == row - 1
        }),
{
    law_draw_cell_by_cell(m, x, y, n, elapsed_ms, random);
    let k = 8 * row + col;
    let r = (m.v[y as int] + row) % 32;
    let q = (m.v[x as int] + col) % 64;
    lemma_sprite_index(m.v[x as int] as int, m.v[y as int] as int, k, r, q);
}

/// A cell combined twice with the same pixel is as it was, and the pixel hits
/// the combined cell exactly where it is set and did not hit the cell before.
pub proof fn lemma_pixel_twice(cell: u8, row: u8, col: int)
    requires
        0 <= col < 8,
    ensures
        ({
            let pixel = sprite_bit(row, col);
            &&& (cell ^ pixel) ^ pixel == cell
            &&& pixel & (cell ^ pixel) == 0 <==> (pixel == 1 ==> pixel & cell == 1)
        }),
{
    let shift = (7 - col) as u8;
    assert(((cell ^ ((row >> shift) & 1)) ^ ((row >> shift) & 1)) == cell) by (bit_vector);
    assert((((row >> shift) & 1) & (cell ^ ((row >> shift) & 1)) == 0) <==> (((row >> shift) & 1)
        == 1 ==> ((row >> shift) & 1) & cell == 1)) by (bit_vector);
}

/// A framebuffer drawn over twice with the same sprite at the same place is
/// as it was.
pub proof fn lemma_redraw_cells(m: Machine, once: Machine, twice: Machine, vx: int, vy: int, count: int)
    requires
        m.wf(),
        once.wf(),
        twice.wf(),
        once.ram == m.ram,
        once.i == m.i,
        forall|r: int, q: int|
            0 <= r < 32 && 0 <= q < 64 ==> #[trigger] once.vram[r][q] == if sprite_covers(
                vx,
                vy,
                count,
                r,
                q,
            ) {
                m.vram[r][q] ^ m.sprite_pixel(sprite_index(vx, vy, r, q))
            } else {
                m.vram[r][q]
            },
        forall|r: int, q: int|
            0 <= r < 32 && 0 <= q < 64 ==> #[trigger] twice.vram[r][q] == if sprite_covers(
                vx,
                vy,
                count,
                r,
                q,
            ) {
                once.vram[r][q] ^ once.sprite_pixel(sprite_index(vx, vy, r, q))
            } else {
                once.vram[r][q]
            },
    ensures
        twice.vram == m.vram,
{
    assert forall|r: int, q: int| 0 <= r < 32 && 0 <= q < 64 implies #[trigger] twice.vram[r][q]
        == m.vram[r][q] by {
        if sprite_covers(vx, vy, count, r, q) {
            let k = sprite_index(vx, vy, r, q);
            lemma_pixel_twice(m.vram[r][q], m.ram[m.i + k / 8], k % 8);
        }
    }
    assert(twice.vram =~~= m.vram);
}

/// Pixel `k` of a sprite drawn a second time hits exactly where it is set and
/// did not hit the first time.
pub proof fn lemma_redraw_hit(m: Machine, once: Machine, vx: int, vy: int, count: int, k: int)
    requires
        0 <= vx < 256,
        0 <= vy < 256,
        0 <= k < count <= 128,
        once.ram == m.ram,
        once.i == m.i,
        forall|r: int, q: int|
            0 <= r < 32 && 0 <= q < 64 ==> #[trigger] once.vram[r][q] == if sprite_covers(
                vx,
                vy,
                count,
                r,
                q,
            ) {
                m.vram[r][q] ^ m.sprite_pixel(sprite_index(vx, vy, r, q))
            } else {
                m.vram[r][q]
            },
    ensures
        once.hit(vx, vy, k) == 0 <==> (m.sprite_pixel(k) == 1 ==> m.hit(vx, vy, k) == 1),
{
    let r = (vy + k / 8) % 32;
    let q = (vx + k % 8) % 64;
    lemma_sprite_index(vx, vy, k, r, q);
    assert(sprite_covers(vx, vy, count, r, q));
    assert(once.vram[r][q] == m.vram[r][q] ^ m.sprite_pixel(k));
    lemma_pixel_twice(m.vram[r][q], m.ram[m.i + k / 8], k % 8);
}

/// Drawing the same sprite twice at the same place restores the framebuffer.
/// The second draw puts out exactly the pixels that the first one lit, so its
/// flag is 0 only where the first draw lit none: where every set pixel of the
/// sprite fell on a cell that was lit already.
pub proof fn law_draw_twice_restores(
    m: Machine,
    x: usize,
    y: usize,
    n: usize,
    elapsed_ms: nat,
    random: u8,
)
    requires
        m.wf(),
        x < 15,
        y < 15,
        n < 16,
        n > 0 ==> m.i + n <= RAM_SIZE,
    ensures
        ({
            let once = m.execute(Instruction::Draw { x, y, n }, elapsed_ms, random).machine;
            let twice = once.execute(Instruction::Draw { x, y, n }, elapsed_ms, random);
            let vx = m.v[x as int] as int;
            let vy = m.v[y as int] as int;
            &&& twice.outcome == Outcome::Executed
            &&& twice.machine.vram == m.vram
            &&& twice.machine.v[0xF] == 0 <==> forall|k: int|
                0 <= k < 8 * n && m.sprite_pixel(k) == 1 ==> #[trigger] m.hit(vx, vy, k) == 1
        }),
{
    let once = m.execute(Instruction::Draw { x, y, n }, elapsed_ms, random).machine;
    let twice = once.execute(Instruction::Draw { x, y, n }, elapsed_ms, random).machine;
    let vx = m.v[x as int] as int;
    let vy = m.v[y as int] as int;
    law_draw_cell_by_cell(m, x, y, n, elapsed_ms, random);
    law_draw_cell_by_cell(once, x, y, n, elapsed_ms, random);
    lemma_redraw_cells(m, once, twice, vx, vy, 8 * n);
    assert forall|k: int| 0 <= k < 8 * n implies (#[trigger] once.hit(vx, vy, k) == 0 <==> (
    m.sprite_pixel(k) == 1 ==> m.hit(vx, vy, k) == 1)) by {
        lemma_redraw_hit(m, once, vx, vy, 8 * n, k);
    }
    if twice.v[0xF] == 0 {
        assert forall|k: int| 0 <= k < 8 * n && m.sprite_pixel(k) == 1 implies #[trigger] m.hit(
            vx,
            vy,
            k,
        ) == 1 by {
            assert(once.hit(vx, vy, k) == 0);
        }
    }
}

/// Plotting pixels keeps the dimensions of the machine.
pub proof fn lemma_plot_first_wf(m: Machine, x: int, y: int, count: nat)
    requires
        m.wf(),
        0 <= x < 16,
        0 <= y < 16,
        count <= 128,
    ensures
        m.plot_first(x, y, count).wf(),
    decreases count,
{
    if count > 0 {
        lemma_plot_first_wf(m, x, y, (count - 1) as nat);
        lemma_plot_cell(m.plot_first(x, y, (count - 1) as nat), x, y, count - 1);
    }
}

/// An instruction with its operands in range keeps the dimensions of the
/// machine: sixteen registers, 4096 bytes of memory, a framebuffer of 32 rows
/// of 64 cells, sixteen keys, an address register of sixteen bits, and a call
/// stack of no more than sixteen return addresses.
pub proof fn law_execute_preserves_wf(m: Machine, ins: Instruction, elapsed_ms: nat, random: u8)
    requires
        m.wf(),
        ins.wf(),
    ensures
        m.execute(ins, elapsed_ms, random).machine.wf(),
{
    match ins {
        Instruction::Draw { x, y, n } => {
            lemma_plot_first_wf(m.with_register(0xF, 0), x as int, y as int, (8 * n) as nat);
        },
        _ => {},
    }
}

/// A tick keeps the dimensions of the machine.
pub proof fn law_step_preserves_wf(m: Machine, elapsed_ms: nat, random: u8)
    requires
        m.wf(),
    ensures
        m.step(elapsed_ms, random).machine.wf(),
{
    if m.can_fetch() {
        Instruction::lemma_decode_wf(m.opcode());
        match decode(m.opcode()) {
            Some(ins) => law_execute_preserves_wf(m, ins, elapsed_ms, random),
            None => {},
        }
    }
}

/// Plotting pixels on a framebuffer of cells that are 0 or 1 leaves one.
pub proof fn lemma_plot_first_binary(m: Machine, x: int, y: int, count: nat)
    requires
        m.wf(),
        m.binary_screen(),
        0 <= x < 16,
        0 <= y < 16,
        count <= 128,
    ensures
        m.plot_first(x, y, count).binary_screen(),
    decreases count,
{
    if count > 0 {
        let k = count - 1;
        let prev = m.plot_first(x, y, k as nat);
        lemma_plot_first_binary(m, x, y, k as nat);
        lemma_plot_first_wf(m, x, y, k as nat);
        lemma_plot_cell(prev, x, y, k);
        let drawn = prev.plot(x, y, k);
        assert forall|r: int, q: int| 0 <= r < 32 && 0 <= q < 64 implies #[trigger] drawn.vram[r][q]
            <= 1 by {
            let cell = prev.vram[r][q];
            let row = prev.ram[prev.i + k / 8];
            let shift = (7 - k % 8) as u8;
            assert(cell <= 1 ==> cell ^ ((row >> shift) & 1) <= 1) by (bit_vector);
        }
    }
}

/// The framebuffer holds one bit per cell: it starts with every cell 0, and a
/// tick on a framebuffer of cells that are 0 or 1 leaves one.
pub proof fn law_screen_stays_binary(m: Machine, elapsed_ms: nat, random: u8)
    requires
        m.wf(),
        m.binary_screen(),
    ensures
        Machine::initial().binary_screen(),
        m.step(elapsed_ms, random).machine.binary_screen(),
{
    if m.can_fetch() {
        Instruction::lemma_decode_wf(m.opcode());
        match decode(m.opcode()) {
            Some(Instruction::Draw { x, y, n }) => {
                let cleared = m.with_register(0xF, 0);
                lemma_plot_first_binary(cleared, x as int, y as int, (8 * n) as nat);
            },
            _ => {},
        }
    }
}

/// The key that a key wait reports is the lowest slot that holds 0, and the
/// wait stalls exactly if no slot holds 0.
pub proof fn law_first_released(keypad: Seq<u8>, from: int)
    requires
        0 <= from,
    ensures
        match first_released_from(keypad, from) {
            Some(slot) => {
                &&& from <= slot < keypad.len()
                &&& keypad[slot] == 0
                &&& forall|k: int| from <= k < slot ==> keypad[k] != 0
            },
            None => forall|k: int| from <= k < keypad.len() ==> keypad[k] != 0,
        },
    decreases keypad.len() - from,
{
    if from < keypad.len() && keypad[from] != 0 {
        law_first_released(keypad, from + 1);
    }
}

/// The three bytes that the decimal store writes are the hundreds, tens and
/// ones of the register: each is a digit, and together they make its value.
pub proof fn law_store_bcd_digits(m: Machine, x: usize, elapsed_ms: nat, random: u8)
    requires
        m.wf(),
        x < 16,
        m.i + 2 < RAM_SIZE,
    ensures
        ({
            let step = m.execute(Instruction::StoreBcd { x }, elapsed_ms, random);
            let ram = step.machine.ram;
            &&& step.outcome == Outcome::Executed
            &&& ram[m.i] < 10 && ram[m.i + 1] < 10 && ram[m.i + 2] < 10
            &&& 100 * ram[m.i] + 10 * ram[m.i + 1] + ram[m.i + 2] == m.v[x as int]
            &&& forall|a: int| 0 <= a < RAM_SIZE && !(m.i <= a <= m.i + 2) ==> ram[a] == m.ram[a]
            &&& step.machine == Machine { ram, pc: m.pc + 2, ..m }
        }),
{
}

/// Loading the registers back from where they were stored restores them: the
/// load is the inverse of the store.
pub proof fn law_store_then_load(m: Machine, x: usize, elapsed_ms: nat, random: u8)
    requires
        m.wf(),
        x < 16,
        m.i + x < RAM_SIZE,
    ensures
        ({
            let stored = m.execute(Instruction::StoreRegisters { x }, elapsed_ms, random);
            let loaded = stored.machine.execute(
                Instruction::LoadRegisters { x },
                elapsed_ms,
                random,
            );
            &&& stored.outcome == Outcome::Executed
            &&& loaded.outcome == Outcome::Executed
            &&& forall|r: int| 0 <= r <= x ==> stored.machine.ram[m.i + r] == m.v[r]
            &&& loaded.machine.v == m.v
            &&& loaded.machine.i == m.i
        }),
{
    let stored = m.execute(Instruction::StoreRegisters { x }, elapsed_ms, random).machine;
    let loaded = stored.execute(Instruction::LoadRegisters { x }, elapsed_ms, random).machine;
    assert(loaded.v =~= m.v);
}

} // verus!
