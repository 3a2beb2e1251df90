//! The mathematical model of the machine: its state as sequences and
//! integers, and the effect of every instruction as a function on that state.

use crate::instruction::{decode, Instruction};
use vstd::prelude::*;

verus! {

/// Bytes of addressable memory.
pub const RAM_SIZE: usize = 4096;

/// Address at which a program is loaded and execution starts.
pub const ROM_START: usize = 0x200;

/// Number of return addresses the call stack can hold.
pub const STACK_CAPACITY: usize = 16;

/// Milliseconds per step of the delay timer.
pub const TIMER_PERIOD_MS: u128 = 15;

/// Bytes per glyph of the built-in font.
pub const GLYPH_BYTES: u16 = 5;

/// The built-in font: sixteen glyphs of five rows each, for the digits 0 to F.
pub const FONTS: [u8; 80] = [
    0xF0, 0x90, 0x90, 0x90, 0xF0, 0x20, 0x60, 0x20, 0x20, 0x70, 0xF0, 0x10, 0xF0, 0x80, 0xF0, 0xF0,
    0x10, 0xF0, 0x10, 0xF0, 0x90, 0x90, 0xF0, 0x10, 0x10, 0xF0, 0x80, 0xF0, 0x10, 0xF0, 0xF0, 0x80,
    0xF0, 0x90, 0xF0, 0xF0, 0x10, 0x20, 0x40, 0x40, 0xF0, 0x90, 0xF0, 0x90, 0xF0, 0xF0, 0x90, 0xF0,
    0x10, 0xF0, 0xF0, 0x90, 0xF0, 0x90, 0x90, 0xE0, 0x90, 0xE0, 0x90, 0xE0, 0xF0, 0x80, 0x80, 0x80,
    0xF0, 0xE0, 0x90, 0x90, 0x90, 0xE0, 0xF0, 0x80, 0xF0, 0x80, 0xF0, 0xF0, 0x80, 0xF0, 0x80, 0x80,
];

/// Why an instruction could not be carried out. A fault leaves the machine
/// exactly as it was.
#[derive(Clone, Copy, Debug, PartialEq, Eq, Structural)]
pub enum Fault {
    /// The program counter does not point at two bytes inside memory.
    FetchOutOfBounds,
    /// A call was made with the call stack full.
    StackOverflow,
    /// A return was made with the call stack empty.
    StackUnderflow,
    /// The instruction would read or write beyond the end of memory.
    MemoryOutOfBounds,
    /// The register names a key that the keypad does not have.
    KeyOutOfRange,
}

/// What one tick did.
#[derive(Clone, Copy, Debug, PartialEq, Eq, Structural)]
pub enum Outcome {
    /// The instruction was carried out.
    Executed,
    /// A key wait found no key to report; the same instruction runs again next tick.
    WaitingForKey,
    /// The word at the program counter is no instruction; it was skipped.
    Unrecognized(u16),
    /// The instruction could not be carried out; nothing changed.
    Fault(Fault),
}

/// The state of the machine.
#[verifier::ext_equal]
pub struct Machine {
    /// The sixteen registers; index 15 is the flag register.
    pub v: Seq<u8>,
    /// The program counter.
    pub pc: int,
    /// The return addresses of the calls in progress, oldest first.
    pub stack: Seq<u16>,
    /// The address register.
    pub i: int,
    /// Memory.
    pub ram: Seq<u8>,
    /// The framebuffer, as rows of pixels.
    pub vram: Seq<Seq<u8>>,
    /// The value the delay timer was last set to (or zero once it ran out).
    pub delay: u8,
    /// The sound timer.
    pub sound: u8,
    /// The keypad: one slot per key, 1 while the key is held.
    pub keypad: Seq<u8>,
    /// Whether the framebuffer is due for a redraw.
    pub update_screen: bool,
}

/// The result of a tick.
#[verifier::ext_equal]
pub struct Step {
    /// The state after the tick.
    pub machine: Machine,
    /// What the tick did.
    pub outcome: Outcome,
}

/// What a delay timer set to `value` reads after `elapsed_ms` milliseconds: it
/// loses one per full timer period and stops at zero.
pub open spec fn timer_remaining(value: u8, elapsed_ms: nat) -> u8 {
    if elapsed_ms / (TIMER_PERIOD_MS as nat) >= value as nat {
        0
    } else {
        (value - elapsed_ms / (TIMER_PERIOD_MS as nat)) as u8
    }
}

/// Bit `col` of a sprite row, counted from the most significant bit.
pub open spec fn sprite_bit(row: u8, col: int) -> u8 {
    (row >> ((7 - col) as u8)) & 1
}

/// The lowest keypad slot from `from` on that holds 0, if there is one.
pub open spec fn first_released_from(keypad: Seq<u8>, from: int) -> Option<int>
    decreases keypad.len() - from,
{
    if from < 0 || from >= keypad.len() {
        None
    } else if keypad[from] == 0 {
        Some(from)
    } else {
        first_released_from(keypad, from + 1)
    }
}

/// The number of the sprite pixel that falls on the framebuffer cell in row
/// `r` and column `q` when the sprite is drawn with its corner at column `vx`
/// and row `vy`: eight times the row offset plus the column offset, both
/// taken around the edges. It is meaningful where the column offset is below 8.
pub open spec fn sprite_index(vx: int, vy: int, r: int, q: int) -> int {
    8 * ((r - vy) % (crate::VRAM_HEIGHT as int)) + (q - vx) % (crate::VRAM_WIDTH as int)
}

/// Whether one of the first `count` pixels of a sprite drawn at `(vx, vy)`
/// falls on the cell in row `r` and column `q`.
pub open spec fn sprite_covers(vx: int, vy: int, count: int, r: int, q: int) -> bool {
    (q - vx) % (crate::VRAM_WIDTH as int) < 8 && sprite_index(vx, vy, r, q) < count
}

/// An all-zero framebuffer.
pub open spec fn blank_screen() -> Seq<Seq<u8>> {
    Seq::new(crate::VRAM_HEIGHT as nat, |r: int| Seq::new(crate::VRAM_WIDTH as nat, |c: int| 0u8))
}

impl Machine {
    /// The dimensions of every part of the state are those of the machine.
    pub open spec fn wf(self) -> bool {
        &&& self.v.len() == 16
        &&& self.stack.len() <= STACK_CAPACITY
        &&& 0 <= self.i <= u16::MAX
        &&& self.ram.len() == RAM_SIZE
        &&& self.vram.len() == crate::VRAM_HEIGHT
        &&& forall|r: int| 0 <= r < crate::VRAM_HEIGHT ==> (#[trigger] self.vram[r]).len() == crate::VRAM_WIDTH
        &&& self.keypad.len() == 16
    }

    /// Every cell of the framebuffer is 0 or 1.
    pub open spec fn binary_screen(self) -> bool {
        forall|r: int, q: int|
            0 <= r < crate::VRAM_HEIGHT && 0 <= q < crate::VRAM_WIDTH ==> #[trigger] self.vram[r][q]
                <= 1
    }

    /// The machine as it is switched on: everything zero, the font at the
    /// bottom of memory, the program counter at the entry point, and the
    /// framebuffer due for a first redraw.
    pub open spec fn initial() -> Machine {
        Machine {
            v: Seq::new(16, |r: int| 0u8),
            pc: ROM_START as int,
            stack: Seq::empty(),
            i: 0,
            ram: Seq::new(RAM_SIZE as nat, |a: int| if a < 80 { FONTS@[a] } else { 0u8 }),
            vram: blank_screen(),
            delay: 0,
            sound: 0,
            keypad: Seq::new(16, |k: int| 0u8),
            update_screen: true,
        }
    }

    /// Memory with `data` copied in from the entry point on.
    pub open spec fn with_rom(self, data: Seq<u8>) -> Machine {
        Machine {
            ram: Seq::new(
                RAM_SIZE as nat,
                |a: int|
                    if ROM_START <= a < ROM_START + data.len() {
                        data[a - ROM_START]
                    } else {
                        self.ram[a]
                    },
            ),
            ..self
        }
    }

    /// The keypad with one slot set.
    pub open spec fn with_key(self, slot: int, value: u8) -> Machine {
        Machine { keypad: self.keypad.update(slot, value), ..self }
    }

    /// The big-endian word at the program counter.
    pub open spec fn opcode(self) -> u16 {
        (self.ram[self.pc] as int * 256 + self.ram[self.pc + 1] as int) as u16
    }

    /// The program counter moved on by `bytes`.
    pub open spec fn advance(self, bytes: int) -> Machine {
        Machine { pc: self.pc + bytes, ..self }
    }

    /// The program counter moved past this instruction, and past the next one
    /// too if `skip` holds.
    pub open spec fn skip_if(self, skip: bool) -> Machine {
        self.advance(if skip { 4 } else { 2 })
    }

    /// Register `x` set to `value`.
    pub open spec fn with_register(self, x: int, value: u8) -> Machine {
        Machine { v: self.v.update(x, value), ..self }
    }

    /// `00E0`
    pub open spec fn clear_screen(self) -> Machine {
        Machine { vram: blank_screen(), update_screen: true, ..self }.advance(2)
    }

    /// `00EE`, with a call in progress.
    pub open spec fn ret(self) -> Machine {
        Machine { pc: self.stack.last() as int, stack: self.stack.drop_last(), ..self }
    }

    /// `1nnn`
    pub open spec fn jump(self, addr: u16) -> Machine {
        Machine { pc: addr as int, ..self }
    }

    /// `2nnn`, with room on the stack.
    pub open spec fn call(self, addr: u16) -> Machine {
        Machine { pc: addr as int, stack: self.stack.push((self.pc + 2) as u16), ..self }
    }

    /// `3xkk`
    pub open spec fn skip_eq_imm(self, x: int, kk: u8) -> Machine {
        self.skip_if(self.v[x] == kk)
    }

    /// `4xkk`
    pub open spec fn skip_ne_imm(self, x: int, kk: u8) -> Machine {
        self.skip_if(self.v[x] != kk)
    }

    /// `5xy0`
    pub open spec fn skip_eq_reg(self, x: int, y: int) -> Machine {
        self.skip_if(self.v[x] == self.v[y])
    }

    /// `9xy0`
    pub open spec fn skip_ne_reg(self, x: int, y: int) -> Machine {
        self.skip_if(self.v[x] != self.v[y])
    }

    /// `6xkk`
    pub open spec fn load_imm(self, x: int, kk: u8) -> Machine {
        self.with_register(x, kk).advance(2)
    }

    /// `7xkk`
    pub open spec fn add_imm(self, x: int, kk: u8) -> Machine {
        self.with_register(x, ((self.v[x] + kk) % 256) as u8).advance(2)
    }

    /// `8xy0`
    pub open spec fn mov(self, x: int, y: int) -> Machine {
        self.with_register(x, self.v[y]).advance(2)
    }

    /// `8xy1`
    pub open spec fn or(self, x: int, y: int) -> Machine {
        self.with_register(x, self.v[x] | self.v[y]).advance(2)
    }

    /// `8xy2`
    pub open spec fn and(self, x: int, y: int) -> Machine {
        self.with_register(x, self.v[x] & self.v[y]).advance(2)
    }

    /// `8xy3`
    pub open spec fn xor(self, x: int, y: int) -> Machine {
        self.with_register(x, self.v[x] ^ self.v[y]).advance(2)
    }

    /// `8xy4`: the flag receives the carry and the destination the sum of
    /// the operands as they were before the instruction. Where the
    /// destination is the flag register, the sum is what it holds.
    pub open spec fn add_reg(self, x: int, y: int) -> Machine {
        let sum = self.v[x] + self.v[y];
        let carry = if sum > 255 { 1u8 } else { 0u8 };
        self.with_register(0xF, carry).with_register(x, (sum % 256) as u8).advance(2)
    }

    /// `8xy5`: the flag is 1 where nothing is borrowed, and the destination
    /// receives the difference of the operands as they were before the
    /// instruction. Where the destination is the flag register, the
    /// difference is what it holds.
    pub open spec fn sub_reg(self, x: int, y: int) -> Machine {
        let a = self.v[x];
        let b = self.v[y];
        self.with_register(0xF, if a >= b { 1u8 } else { 0u8 }).with_register(
            x,
            ((a - b) % 256) as u8,
        ).advance(2)
    }

    /// `8xy7`: as `8xy5` with the operands exchanged.
    pub open spec fn sub_from(self, x: int, y: int) -> Machine {
        let a = self.v[x];
        let b = self.v[y];
        self.with_register(0xF, if b >= a { 1u8 } else { 0u8 }).with_register(
            x,
            ((b - a) % 256) as u8,
        ).advance(2)
    }

    /// `8xy6`: the flag receives bit 0 of the register as it was before the
    /// instruction, and the register that value halved. Where the register
    /// is the flag register, the halved value is what it holds.
    pub open spec fn shift_right(self, x: int) -> Machine {
        let a = self.v[x];
        self.with_register(0xF, (a % 2) as u8).with_register(x, (a / 2) as u8).advance(2)
    }

    /// `8xyE`: the flag receives bit 7 of the register as it was before the
    /// instruction, and the register that value doubled, the top bit dropped.
    /// Where the register is the flag register, the doubled value is what it
    /// holds.
    pub open spec fn shift_left(self, x: int) -> Machine {
        let a = self.v[x];
        self.with_register(0xF, (a / 128) as u8).with_register(x, ((a * 2) % 256) as u8).advance(
            2,
        )
    }

    /// `Annn`
    pub open spec fn load_address(self, addr: u16) -> Machine {
        Machine { i: addr as int, ..self }.advance(2)
    }

    /// `Bnnn`
    pub open spec fn jump_offset(self, addr: u16) -> Machine {
        Machine { pc: addr + self.v[0], ..self }
    }

    /// `Cxkk`, with the random byte that was drawn.
    pub open spec fn random(self, x: int, kk: u8, random: u8) -> Machine {
        self.with_register(x, random & kk).advance(2)
    }

    /// Pixel `k` of the sprite at the address register, 0 or 1.
    pub open spec fn sprite_pixel(self, k: int) -> u8 {
        sprite_bit(self.ram[self.i + k / 8], k % 8)
    }

    /// What pixel `k` of the sprite at the address register, drawn at
    /// `(vx, vy)`, adds to the flag register: the pixel and the cell it falls
    /// on combined by `&`. It is 1 where a set pixel falls on a lit cell, which
    /// the draw then puts out, and 0 elsewhere.
    pub open spec fn hit(self, vx: int, vy: int, k: int) -> u8 {
        self.sprite_pixel(k) & self.vram[(vy + k / 8) % (crate::VRAM_HEIGHT as int)][(vx + k % 8)
            % (crate::VRAM_WIDTH as int)]
    }

    /// What the first `count` pixels of the sprite at the address register,
    /// drawn at `(vx, vy)`, collect in the flag register: their hits combined
    /// by `|`.
    pub open spec fn collisions(self, vx: int, vy: int, count: nat) -> u8
        decreases count,
    {
        if count == 0 {
            0
        } else {
            self.collisions(vx, vy, (count - 1) as nat) | self.hit(vx, vy, count - 1)
        }
    }

    /// One pixel of a sprite: pixel `k` is column `k % 8` of row `k / 8`. The
    /// pixel is combined into the framebuffer by exclusive or, at the position
    /// that the registers give now, wrapped at the edges; the flag register
    /// collects whether a lit pixel went out.
    pub open spec fn plot(self, x: int, y: int, k: int) -> Machine {
        let row = k / 8;
        let col = k % 8;
        let py = (self.v[y] + row) % (crate::VRAM_HEIGHT as int);
        let px = (self.v[x] + col) % (crate::VRAM_WIDTH as int);
        let bit = sprite_bit(self.ram[self.i + row], col);
        let cell = self.vram[py][px];
        Machine {
            v: self.v.update(0xF, self.v[0xF] | (bit & cell)),
            vram: self.vram.update(py, self.vram[py].update(px, cell ^ bit)),
            ..self
        }
    }

    /// The first `count` pixels of a sprite plotted in order.
    pub open spec fn plot_first(self, x: int, y: int, count: nat) -> Machine
        decreases count,
    {
        if count == 0 {
            self
        } else {
            self.plot_first(x, y, (count - 1) as nat).plot(x, y, count - 1)
        }
    }

    /// `Dxyn`, with the sprite inside memory: the flag is cleared, then the
    /// pixels are plotted row by row.
    pub open spec fn draw(self, x: int, y: int, n: int) -> Machine {
        let drawn = self.with_register(0xF, 0).plot_first(x, y, (8 * n) as nat);
        Machine { update_screen: true, ..drawn }.advance(2)
    }

    /// `Ex9E`, with a key that exists.
    pub open spec fn skip_key_pressed(self, x: int) -> Machine {
        self.skip_if(self.keypad[self.v[x] as int] == 1)
    }

    /// `ExA1`, with a key that exists.
    pub open spec fn skip_key_released(self, x: int) -> Machine {
        self.skip_if(self.keypad[self.v[x] as int] != 1)
    }

    /// `Fx07`, read `elapsed_ms` after the timer was set. A timer found to
    /// have run out is set to zero.
    pub open spec fn read_delay(self, x: int, elapsed_ms: nat) -> Machine {
        let left = timer_remaining(self.delay, elapsed_ms);
        Machine { delay: if left == 0 { 0 } else { self.delay }, ..self }.with_register(
            x,
            left,
        ).advance(2)
    }

    /// `Fx0A`, with the slot that was found.
    pub open spec fn key_found(self, x: int, slot: int) -> Machine {
        self.with_register(x, slot as u8).advance(2)
    }

    /// `Fx15`
    pub open spec fn set_delay(self, x: int) -> Machine {
        Machine { delay: self.v[x], ..self }.advance(2)
    }

    /// `Fx18`
    pub open spec fn set_sound(self, x: int) -> Machine {
        Machine { sound: self.v[x], ..self }.advance(2)
    }

    /// `Fx1E`: the address register is sixteen bits wide and wraps.
    pub open spec fn add_address(self, x: int) -> Machine {
        Machine { i: (self.i + self.v[x]) % 0x10000, ..self }.advance(2)
    }

    /// `Fx29`
    pub open spec fn load_glyph(self, x: int) -> Machine {
        Machine { i: self.v[x] * GLYPH_BYTES, ..self }.advance(2)
    }

    /// `Fx33`, with the three bytes inside memory.
    pub open spec fn store_bcd(self, x: int) -> Machine {
        let value = self.v[x];
        Machine {
            ram: self.ram.update(self.i, (value / 100) as u8).update(
                self.i + 1,
                ((value % 100) / 10) as u8,
            ).update(self.i + 2, (value % 10) as u8),
            ..self
        }.advance(2)
    }

    /// `Fx55`, with the block inside memory.
    pub open spec fn store_registers(self, x: int) -> Machine {
        Machine {
            ram: Seq::new(
                self.ram.len(),
                |a: int|
                    if self.i <= a <= self.i + x {
                        self.v[a - self.i]
                    } else {
                        self.ram[a]
                    },
            ),
            ..self
        }.advance(2)
    }

    /// `Fx65`, with the block inside memory.
    pub open spec fn load_registers(self, x: int) -> Machine {
        Machine {
            v: Seq::new(
                self.v.len(),
                |r: int|
                    if r <= x {
                        self.ram[self.i + r]
                    } else {
                        self.v[r]
                    },
            ),
            ..self
        }.advance(2)
    }

    /// The step that carries an instruction out and ends in state `next`.
    pub open spec fn done(next: Machine) -> Step {
        Step { machine: next, outcome: Outcome::Executed }
    }

    /// The step that refuses an instruction and leaves the state as it is.
    pub open spec fn fault(self, fault: Fault) -> Step {
        Step { machine: self, outcome: Outcome::Fault(fault) }
    }

    /// The effect of one instruction. `elapsed_ms` is the time since the
    /// delay timer was set and `random` the random byte drawn; each matters
    /// to one instruction only.
    pub open spec fn execute(self, ins: Instruction, elapsed_ms: nat, random: u8) -> Step {
        match ins {
            Instruction::ClearScreen => Self::done(self.clear_screen()),
            Instruction::Return => if self.stack.len() == 0 {
                self.fault(Fault::StackUnderflow)
            } else {
                Self::done(self.ret())
            },
            Instruction::Jump { addr } => Self::done(self.jump(addr)),
            Instruction::Call { addr } => if self.stack.len() >= STACK_CAPACITY {
                self.fault(Fault::StackOverflow)
            } else {
                Self::done(self.call(addr))
            },
            Instruction::SkipEqImm { x, kk } => Self::done(self.skip_eq_imm(x as int, kk)),
            Instruction::SkipNeImm { x, kk } => Self::done(self.skip_ne_imm(x as int, kk)),
            Instruction::SkipEqReg { x, y } => Self::done(self.skip_eq_reg(x as int, y as int)),
            Instruction::LoadImm { x, kk } => Self::done(self.load_imm(x as int, kk)),
            Instruction::AddImm { x, kk } => Self::done(self.add_imm(x as int, kk)),
            Instruction::Move { x, y } => Self::done(self.mov(x as int, y as int)),
            Instruction::Or { x, y } => Self::done(self.or(x as int, y as int)),
            Instruction::And { x, y } => Self::done(self.and(x as int, y as int)),
            Instruction::Xor { x, y } => Self::done(self.xor(x as int, y as int)),
            Instruction::AddReg { x, y } => Self::done(self.add_reg(x as int, y as int)),
            Instruction::SubReg { x, y } => Self::done(self.sub_reg(x as int, y as int)),
            Instruction::ShiftRight { x } => Self::done(self.shift_right(x as int)),
            Instruction::SubFrom { x, y } => Self::done(self.sub_from(x as int, y as int)),
            Instruction::ShiftLeft { x } => Self::done(self.shift_left(x as int)),
            Instruction::SkipNeReg { x, y } => Self::done(self.skip_ne_reg(x as int, y as int)),
            Instruction::LoadAddress { addr } => Self::done(self.load_address(addr)),
            Instruction::JumpOffset { addr } => Self::done(self.jump_offset(addr)),
            Instruction::Random { x, kk } => Self::done(self.random(x as int, kk, random)),
            Instruction::Draw { x, y, n } => if n > 0 && self.i + n > RAM_SIZE {
                self.fault(Fault::MemoryOutOfBounds)
            } else {
                Self::done(self.draw(x as int, y as int, n as int))
            },
            Instruction::SkipKeyPressed { x } => if self.v[x as int] >= 16 {
                self.fault(Fault::KeyOutOfRange)
            } else {
                Self::done(self.skip_key_pressed(x as int))
            },
            Instruction::SkipKeyReleased { x } => if self.v[x as int] >= 16 {
                self.fault(Fault::KeyOutOfRange)
            } else {
                Self::done(self.skip_key_released(x as int))
            },
            Instruction::ReadDelay { x } => Self::done(self.read_delay(x as int, elapsed_ms)),
            Instruction::WaitKey { x } => match first_released_from(self.keypad, 0) {
                Some(slot) => Self::done(self.key_found(x as int, slot)),
                None => Step { machine: self, outcome: Outcome::WaitingForKey },
            },
            Instruction::SetDelay { x } => Self::done(self.set_delay(x as int)),
            Instruction::SetSound { x } => Self::done(self.set_sound(x as int)),
            Instruction::AddAddress { x } => Self::done(self.add_address(x as int)),
            Instruction::LoadGlyph { x } => Self::done(self.load_glyph(x as int)),
            Instruction::StoreBcd { x } => if self.i + 2 >= RAM_SIZE {
                self.fault(Fault::MemoryOutOfBounds)
            } else {
                Self::done(self.store_bcd(x as int))
            },
            Instruction::StoreRegisters { x } => if self.i + x >= RAM_SIZE {
                self.fault(Fault::MemoryOutOfBounds)
            } else {
                Self::done(self.store_registers(x as int))
            },
            Instruction::LoadRegisters { x } => if self.i + x >= RAM_SIZE {
                self.fault(Fault::MemoryOutOfBounds)
            } else {
                Self::done(self.load_registers(x as int))
            },
        }
    }

    /// The effect of an opcode word: that of the instruction it decodes to,
    /// or, where it decodes to none, a report and a move to the next word.
    pub open spec fn run(self, opcode: u16, elapsed_ms: nat, random: u8) -> Step {
        match decode(opcode) {
            Some(ins) => self.execute(ins, elapsed_ms, random),
            None => Step { machine: self.advance(2), outcome: Outcome::Unrecognized(opcode) },
        }
    }

    /// Whether the program counter can move past this instruction and the
    /// next one and still fit its sixteen bits.
    pub open spec fn can_advance(self) -> bool {
        0 <= self.pc && self.pc + 4 <= u16::MAX
    }

    /// Whether the program counter points at two bytes inside memory.
    pub open spec fn can_fetch(self) -> bool {
        0 <= self.pc && self.pc + 1 < RAM_SIZE
    }

    /// The instruction that the next tick will run, if the program counter
    /// points at one.
    pub open spec fn pending(self) -> Option<Instruction> {
        if self.can_fetch() {
            decode(self.opcode())
        } else {
            None
        }
    }

    /// Whether the next tick reads the clock or draws a random byte.
    pub open spec fn reads_outside(self) -> bool {
        self.pending() matches Some(ins) && (ins is ReadDelay || ins is Random)
    }

    /// One tick: fetch the word at the program counter and run it.
    pub open spec fn step(self, elapsed_ms: nat, random: u8) -> Step {
        if self.can_fetch() {
            self.run(self.opcode(), elapsed_ms, random)
        } else {
            self.fault(Fault::FetchOutOfBounds)
        }
    }
}

} // verus!
