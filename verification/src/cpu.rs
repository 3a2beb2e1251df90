//! The interpreter: the machine's state in arrays, and one handler per
//! instruction, each proved to do to the state what the model says.

use crate::instruction::Instruction;
use crate::laws::lemma_plot_first_frame;
use crate::machine::{
    first_released_from, Fault, Machine, Outcome, Step, FONTS, GLYPH_BYTES, RAM_SIZE, ROM_START,
    STACK_CAPACITY,
};
use crate::stack::CallStack;
use crate::timer::Timer;
use crate::{VRAM_HEIGHT, VRAM_WIDTH};
use rand::Rng;
use vstd::prelude::*;

verus! {

/// Why a program could not be loaded.
#[derive(Clone, Copy, Debug, PartialEq, Eq, Structural)]
pub enum LoadError {
    /// The program is longer than the memory from the entry point to the end.
    RomTooLarge,
}

/// Draws a byte with `rand::thread_rng().gen::<u8>()`. The byte is random:
/// nothing is claimed of it.
#[verifier::external_body]
fn random_byte() -> u8 {
    rand::thread_rng().gen::<u8>()
}

/// The interpreter.
pub struct CPU {
    v: [u8; 16],
    pc: u16,
    stack: CallStack,
    i: u16,
    ram: [u8; RAM_SIZE],
    /// The framebuffer, as rows of cells. The interpreter writes 0 and 1.
    pub vram: [[u8; VRAM_WIDTH]; VRAM_HEIGHT],
    delay_timer: Timer,
    sound_timer: u8,
    /// The keypad: one slot per key, 1 while the key is held.
    pub keypad: [u8; 16],
    /// Whether the framebuffer is due for a redraw.
    pub update_screen: bool,
}

impl CPU {
    /// The state of the interpreter as a machine of the model.
    pub closed spec fn view(&self) -> Machine {
        Machine {
            v: self.v@,
            pc: self.pc as int,
            stack: self.stack@,
            i: self.i as int,
            ram: self.ram@,
            vram: Seq::new(VRAM_HEIGHT as nat, |r: int| self.vram@[r]@),
            delay: self.delay_timer@,
            sound: self.sound_timer,
            keypad: self.keypad@,
            update_screen: self.update_screen,
        }
    }

    /// The arrays of the interpreter have the dimensions of the machine.
    proof fn lemma_wf_but_stack(&self)
        ensures
            self@.stack.len() <= STACK_CAPACITY ==> self@.wf(),
    {
    }

    /// An interpreter in the initial state.
    pub fn new() -> (cpu: CPU)
        ensures
            cpu@ == Machine::initial(),
            cpu@.wf(),
    {
        let mut ram = [0u8; RAM_SIZE];
        let mut a: usize = 0;
        while a < 80
            invariant
                a <= 80,
                forall|b: int| 0 <= b < a ==> ram@[b] == FONTS@[b],
                forall|b: int| a <= b < RAM_SIZE ==> ram@[b] == 0,
            decreases 80 - a,
        {
            ram[a] = FONTS[a];
            a = a + 1;
        }
        let cpu = CPU {
            v: [0; 16],
            pc: ROM_START as u16,
            stack: CallStack::new(),
            i: 0,
            ram,
            vram: [[0; VRAM_WIDTH]; VRAM_HEIGHT],
            delay_timer: Timer::new(),
            sound_timer: 0,
            keypad: [0; 16],
            update_screen: true,
        };
        assert(cpu@ =~~= Machine::initial());
        proof {
            cpu.lemma_wf_but_stack();
        }
        cpu
    }

    /// Copies a program into memory from the entry point on, if it fits.
    /// A program that does not fit is refused and memory stays as it was.
    pub fn load_rom(&mut self, data: &Vec<u8>) -> (loaded: Result<(), LoadError>)
        ensures
            loaded is Ok <==> data@.len() <= RAM_SIZE - ROM_START,
            final(self)@ == if loaded is Ok {
                old(self)@.with_rom(data@)
            } else {
                old(self)@
            },
            final(self)@.wf(),
    {
        proof {
            use_type_invariant(&self.stack);
            self.stack.lemma_bounded();
            self.lemma_wf_but_stack();
        }
        if data.len() > RAM_SIZE - ROM_START {
            return Err(LoadError::RomTooLarge);
        }
        let mut k: usize = 0;
        while k < data.len()
            invariant
                k <= data@.len() <= RAM_SIZE - ROM_START,
                forall|a: int|
                    0 <= a < RAM_SIZE ==> self.ram@[a] == if ROM_START <= a < ROM_START + k {
                        data@[a - ROM_START]
                    } else {
                        old(self).ram@[a]
                    },
                self.v == old(self).v,
                self.pc == old(self).pc,
                self.stack == old(self).stack,
                self.i == old(self).i,
                self.vram == old(self).vram,
                self.delay_timer == old(self).delay_timer,
                self.sound_timer == old(self).sound_timer,
                self.keypad == old(self).keypad,
                self.update_screen == old(self).update_screen,
            decreases data@.len() - k,
        {
            self.ram[ROM_START + k] = data[k];
            k = k + 1;
        }
        assert(self@ =~= old(self)@.with_rom(data@));
        Ok(())
    }

    /// Moves the program counter to the next instruction.
    fn next(&mut self)
        requires
            old(self).pc <= u16::MAX - 2,
        ensures
            final(self)@ == old(self)@.advance(2),
    {
        self.pc = self.pc + 2;
    }

    /// Clears the display.
    pub fn op00e0(&mut self)
        requires
            old(self)@.can_advance(),
        ensures
            final(self)@ == old(self)@.clear_screen(),
    {
        self.vram = [[0; VRAM_WIDTH]; VRAM_HEIGHT];
        self.update_screen = true;
        self.next();
        assert(self@ =~~= old(self)@.clear_screen());
    }

    /// Returns from a subroutine.
    pub fn op00ee(&mut self) -> (outcome: Outcome)
        ensures
            (Step { machine: final(self)@, outcome }) == old(self)@.execute(
                Instruction::Return,
                0,
                0,
            ),
    {
        match self.stack.pop() {
            Some(addr) => {
                self.pc = addr;
                Outcome::Executed
            },
            None => Outcome::Fault(Fault::StackUnderflow),
        }
    }

    /// Jumps to location nnn.
    pub fn op1nnn(&mut self, nnn: u16)
        ensures
            final(self)@ == old(self)@.jump(nnn),
    {
        self.pc = nnn;
    }

    /// Calls the subroutine at nnn.
    pub fn op2nnn(&mut self, nnn: u16) -> (outcome: Outcome)
        requires
            old(self)@.can_advance(),
        ensures
            (Step { machine: final(self)@, outcome }) == old(self)@.execute(
                Instruction::Call { addr: nnn },
                0,
                0,
            ),
    {
        if self.stack.push(self.pc + 2) {
            self.pc = nnn;
            Outcome::Executed
        } else {
            Outcome::Fault(Fault::StackOverflow)
        }
    }

    /// Moves the program counter past this instruction, and past the next one
    /// too if `skip` holds.
    fn skip_if(&mut self, skip: bool)
        requires
            old(self)@.can_advance(),
        ensures
            final(self)@ == old(self)@.skip_if(skip),
    {
        if skip {
            self.pc = self.pc + 4;
        } else {
            self.pc = self.pc + 2;
        }
    }

    /// Skips the next instruction if Vx = kk.
    pub fn op3xkk(&mut self, x: usize, kk: u8)
        requires
            x < 16,
            old(self)@.can_advance(),
        ensures
            final(self)@ == old(self)@.skip_eq_imm(x as int, kk),
    {
        self.skip_if(self.v[x] == kk);
    }

    /// Skips the next instruction if Vx != kk.
    pub fn op4xkk(&mut self, x: usize, kk: u8)
        requires
            x < 16,
            old(self)@.can_advance(),
        ensures
            final(self)@ == old(self)@.skip_ne_imm(x as int, kk),
    {
        self.skip_if(self.v[x] != kk);
    }

    /// Skips the next instruction if Vx = Vy.
    pub fn op5xy0(&mut self, x: usize, y: usize)
        requires
            x < 16,
            y < 16,
            old(self)@.can_advance(),
        ensures
            final(self)@ == old(self)@.skip_eq_reg(x as int, y as int),
    {
        self.skip_if(self.v[x] == self.v[y]);
    }

    /// Sets Vx = kk.
    pub fn op6xkk(&mut self, x: usize, kk: u8)
        requires
            x < 16,
            old(self)@.can_advance(),
        ensures
            final(self)@ == old(self)@.load_imm(x as int, kk),
    {
        self.v[x] = kk;
        self.next();
    }

    /// Sets Vx = Vx + kk.
    pub fn op7xkk(&mut self, x: usize, kk: u8)
        requires
            x < 16,
            old(self)@.can_advance(),
        ensures
            final(self)@ == old(self)@.add_imm(x as int, kk),
    {
        self.v[x] = self.v[x].wrapping_add(kk);
        self.next();
    }

    /// Sets Vx = Vy.
    pub fn op8xy0(&mut self, x: usize, y: usize)
        requires
            x < 16,
            y < 16,
            old(self)@.can_advance(),
        ensures
            final(self)@ == old(self)@.mov(x as int, y as int),
    {
        self.v[x] = self.v[y];
        self.next();
    }

    /// Sets Vx = Vx OR Vy.
    pub fn op8xy1(&mut self, x: usize, y: usize)
        requires
            x < 16,
            y < 16,
            old(self)@.can_advance(),
        ensures
            final(self)@ == old(self)@.or(x as int, y as int),
    {
        self.v[x] = self.v[x] | self.v[y];
        self.next();
    }

    /// Sets Vx = Vx AND Vy.
    pub fn op8xy2(&mut self, x: usize, y: usize)
        requires
            x < 16,
            y < 16,
            old(self)@.can_advance(),
        ensures
            final(self)@ == old(self)@.and(x as int, y as int),
    {
        self.v[x] = self.v[x] & self.v[y];
        self.next();
    }

    /// Sets Vx = Vx XOR Vy.
    pub fn op8xy3(&mut self, x: usize, y: usize)
        requires
            x < 16,
            y < 16,
            old(self)@.can_advance(),
        ensures
            final(self)@ == old(self)@.xor(x as int, y as int),
    {
        self.v[x] = self.v[x] ^ self.v[y];
        self.next();
    }

    /// Sets Vx = Vx + Vy and VF = carry.
    pub fn op8xy4(&mut self, x: usize, y: usize)
        requires
            x < 16,
            y < 16,
            old(self)@.can_advance(),
        ensures
            final(self)@ == old(self)@.add_reg(x as int, y as int),
            final(self)@.v[x as int] == (old(self)@.v[x as int] + old(self)@.v[y as int]) % 256,
            x != 0xF ==> final(self)@.v[0xF] == if old(self)@.v[x as int] + old(self)@.v[y as int]
                > 255 {
                1int
            } else {
                0int
            },
            forall|k: int| 0 <= k < 15 && k != x ==> final(self)@.v[k] == old(self)@.v[k],
    {
        let a = self.v[x];
        let b = self.v[y];
        let carry: u8 = if a as u16 + b as u16 > 255 {
            1
        } else {
            0
        };
        self.v[0xf] = carry;
        self.v[x] = a.wrapping_add(b);
        self.next();
    }

    /// Sets Vx = Vx - Vy and VF = NOT borrow.
    pub fn op8xy5(&mut self, x: usize, y: usize)
        requires
            x < 16,
            y < 16,
            old(self)@.can_advance(),
        ensures
            final(self)@ == old(self)@.sub_reg(x as int, y as int),
            final(self)@.v[x as int] == (old(self)@.v[x as int] - old(self)@.v[y as int]) % 256,
            x != 0xF ==> final(self)@.v[0xF] == if old(self)@.v[x as int] >= old(self)@.v[y as int] {
                1int
            } else {
                0int
            },
            forall|k: int| 0 <= k < 15 && k != x ==> final(self)@.v[k] == old(self)@.v[k],
    {
        let a = self.v[x];
        let b = self.v[y];
        self.v[0xf] = if a >= b {
            1
        } else {
            0
        };
        self.v[x] = a.wrapping_sub(b);
        self.next();
    }

    /// Sets Vx = Vx SHR 1 and VF = bit 0 of the old Vx. The source is Vx,
    /// not Vy.
    pub fn op8xy6(&mut self, x: usize)
        requires
            x < 16,
            old(self)@.can_advance(),
        ensures
            final(self)@ == old(self)@.shift_right(x as int),
            final(self)@.v[x as int] == old(self)@.v[x as int] >> 1,
            final(self)@.v[x as int] == old(self)@.v[x as int] / 2,
            x != 0xF ==> final(self)@.v[0xF] == old(self)@.v[x as int] & 1,
            x != 0xF ==> final(self)@.v[0xF] == old(self)@.v[x as int] % 2,
            forall|k: int| 0 <= k < 15 && k != x ==> final(self)@.v[k] == old(self)@.v[k],
    {
        let a = self.v[x];
        self.v[0xf] = a & 1;
        self.v[x] = a >> 1;
        proof {
            assert(a & 1 == a % 2) by (bit_vector);
            assert(a >> 1 == a / 2) by (bit_vector);
        }
        self.next();
    }

    /// Sets Vx = Vy - Vx and VF = NOT borrow.
    pub fn op8xy7(&mut self, x: usize, y: usize)
        requires
            x < 16,
            y < 16,
            old(self)@.can_advance(),
        ensures
            final(self)@ == old(self)@.sub_from(x as int, y as int),
            final(self)@.v[x as int] == (old(self)@.v[y as int] - old(self)@.v[x as int]) % 256,
            x != 0xF ==> final(self)@.v[0xF] == if old(self)@.v[y as int] >= old(self)@.v[x as int] {
                1int
            } else {
                0int
            },
            forall|k: int| 0 <= k < 15 && k != x ==> final(self)@.v[k] == old(self)@.v[k],
    {
        let a = self.v[x];
        let b = self.v[y];
        self.v[0xf] = if b >= a {
            1
        } else {
            0
        };
        self.v[x] = b.wrapping_sub(a);
        self.next();
    }

    /// Sets Vx = Vx SHL 1 and VF = bit 7 of the old Vx. The source is Vx,
    /// not Vy.
    pub fn op8xye(&mut self, x: usize)
        requires
            x < 16,
            old(self)@.can_advance(),
        ensures
            final(self)@ == old(self)@.shift_left(x as int),
            final(self)@.v[x as int] == old(self)@.v[x as int] << 1,
            final(self)@.v[x as int] == (2 * old(self)@.v[x as int]) % 256,
            x != 0xF ==> final(self)@.v[0xF] == (old(self)@.v[x as int] >> 7) & 1,
            x != 0xF ==> final(self)@.v[0xF] == old(self)@.v[x as int] / 128,
            forall|k: int| 0 <= k < 15 && k != x ==> final(self)@.v[k] == old(self)@.v[k],
    {
        let a = self.v[x];
        self.v[0xf] = (a >> 7) & 1;
        self.v[x] = a << 1;
        proof {
            assert((a >> 7) & 1 == a / 128) by (bit_vector);
            assert(a << 1 == (a * 2) % 256) by (bit_vector);
        }
        self.next();
    }

    /// Skips the next instruction if Vx != Vy.
    pub fn op9xy0(&mut self, x: usize, y: usize)
        requires
            x < 16,
            y < 16,
            old(self)@.can_advance(),
        ensures
            final(self)@ == old(self)@.skip_ne_reg(x as int, y as int),
    {
        self.skip_if(self.v[x] != self.v[y]);
    }

    /// Sets I = nnn.
    pub fn opannn(&mut self, nnn: u16)
        requires
            old(self)@.can_advance(),
        ensures
            final(self)@ == old(self)@.load_address(nnn),
    {
        self.i = nnn;
        self.next();
    }

    /// Jumps to location nnn + V0.
    pub fn opbnnn(&mut self, nnn: u16)
        requires
            nnn < 0x1000,
        ensures
            final(self)@ == old(self)@.jump_offset(nnn),
    {
        self.pc = nnn + self.v[0] as u16;
    }

    /// Sets Vx = random byte AND kk.
    pub fn opcxkk(&mut self, x: usize, kk: u8, random: u8)
        requires
            x < 16,
            old(self)@.can_advance(),
        ensures
            final(self)@ == old(self)@.random(x as int, kk, random),
    {
        self.v[x] = random & kk;
        self.next();
    }

    /// Displays the n-byte sprite at memory location I at (Vx, Vy) and sets VF
    /// = collision.
    pub fn opdxyn(&mut self, x: usize, y: usize, n: usize) -> (outcome: Outcome)
        requires
            x < 16,
            y < 16,
            n < 16,
            old(self)@.can_advance(),
        ensures
            (Step { machine: final(self)@, outcome }) == old(self)@.execute(
                Instruction::Draw { x, y, n },
                0,
                0,
            ),
    {
        if n > 0 && self.i as usize + n > RAM_SIZE {
            return Outcome::Fault(Fault::MemoryOutOfBounds);
        }
        self.v[0xf] = 0;
        let ghost cleared = self@;
        assert(cleared =~= old(self)@.with_register(0xF, 0));
        let mut row: usize = 0;
        while row < n
            invariant
                x < 16,
                y < 16,
                row <= n < 16,
                n > 0 ==> self.i + n <= RAM_SIZE,
                self@ == cleared.plot_first(x as int, y as int, (8 * row) as nat),
                cleared.pc == old(self)@.pc,
                old(self)@.can_advance(),
            decreases n - row,
        {
            let mut bit: usize = 0;
            while bit < 8
                invariant
                    x < 16,
                    y < 16,
                    row < n < 16,
                    bit <= 8,
                    self.i + n <= RAM_SIZE,
                    self@ == cleared.plot_first(x as int, y as int, (8 * row + bit) as nat),
                decreases 8 - bit,
            {
                let ghost before = self@;
                let py = (self.v[y] as usize + row) % VRAM_HEIGHT;
                let px = (self.v[x] as usize + bit) % VRAM_WIDTH;
                let val = (self.ram[self.i as usize + row] >> ((7 - bit) as u8)) & 1;
                let cell = self.vram[py][px];
                self.v[0xf] = self.v[0xf] | (val & cell);
                self.vram[py][px] = cell ^ val;
                assert(self@ =~~= before.plot(x as int, y as int, (8 * row + bit) as int));
                bit = bit + 1;
            }
            row = row + 1;
        }
        proof {
            lemma_plot_first_frame(cleared, x as int, y as int, (8 * n) as nat);
        }
        self.update_screen = true;
        self.next();
        Outcome::Executed
    }

    /// Skips the next instruction if the key with the value of Vx is pressed.
    pub fn opex9e(&mut self, x: usize) -> (outcome: Outcome)
        requires
            x < 16,
            old(self)@.can_advance(),
        ensures
            (Step { machine: final(self)@, outcome }) == old(self)@.execute(
                Instruction::SkipKeyPressed { x },
                0,
                0,
            ),
    {
        let key = self.v[x] as usize;
        if key >= 16 {
            return Outcome::Fault(Fault::KeyOutOfRange);
        }
        self.skip_if(self.keypad[key] == 1);
        Outcome::Executed
    }

    /// Skips the next instruction if the key with the value of Vx is not
    /// pressed.
    pub fn opexa1(&mut self, x: usize) -> (outcome: Outcome)
        requires
            x < 16,
            old(self)@.can_advance(),
        ensures
            (Step { machine: final(self)@, outcome }) == old(self)@.execute(
                Instruction::SkipKeyReleased { x },
                0,
                0,
            ),
    {
        let key = self.v[x] as usize;
        if key >= 16 {
            return Outcome::Fault(Fault::KeyOutOfRange);
        }
        self.skip_if(self.keypad[key] != 1);
        Outcome::Executed
    }

    /// Sets Vx = delay timer value.
    pub fn opfx07(&mut self, x: usize, elapsed_ms: u128)
        requires
            x < 16,
            old(self)@.can_advance(),
        ensures
            final(self)@ == old(self)@.read_delay(x as int, elapsed_ms as nat),
    {
        self.v[x] = self.delay_timer.get_value_after(elapsed_ms);
        self.next();
    }

    /// Waits for a key: stores the first released key in Vx, or stays at this
    /// instruction.
    pub fn opfx0a(&mut self, x: usize) -> (outcome: Outcome)
        requires
            x < 16,
            old(self)@.can_advance(),
        ensures
            (Step { machine: final(self)@, outcome }) == old(self)@.execute(
                Instruction::WaitKey { x },
                0,
                0,
            ),
    {
        let mut k: usize = 0;
        while k < 16
            invariant
                k <= 16,
                x < 16,
                *self == *old(self),
                self@.can_advance(),
                first_released_from(self@.keypad, 0) == first_released_from(self@.keypad, k as int),
            decreases 16 - k,
        {
            if self.keypad[k] == 0 {
                self.v[x] = k as u8;
                self.next();
                return Outcome::Executed;
            }
            k = k + 1;
        }
        Outcome::WaitingForKey
    }

    /// Sets delay timer = Vx.
    pub fn opfx15(&mut self, x: usize)
        requires
            x < 16,
            old(self)@.can_advance(),
        ensures
            final(self)@ == old(self)@.set_delay(x as int),
    {
        self.delay_timer.set_value(self.v[x]);
        self.next();
    }

    /// Sets sound timer = Vx.
    pub fn opfx18(&mut self, x: usize)
        requires
            x < 16,
            old(self)@.can_advance(),
        ensures
            final(self)@ == old(self)@.set_sound(x as int),
    {
        self.sound_timer = self.v[x];
        self.next();
    }

    /// Sets I = I + Vx.
    pub fn opfx1e(&mut self, x: usize)
        requires
            x < 16,
            old(self)@.can_advance(),
        ensures
            final(self)@ == old(self)@.add_address(x as int),
    {
        self.i = self.i.wrapping_add(self.v[x] as u16);
        self.next();
    }

    /// Sets I = location of the sprite for digit Vx.
    pub fn opfx29(&mut self, x: usize)
        requires
            x < 16,
            old(self)@.can_advance(),
        ensures
            final(self)@ == old(self)@.load_glyph(x as int),
    {
        self.i = self.v[x] as u16 * GLYPH_BYTES;
        self.next();
    }

    /// Stores the decimal digits of Vx in memory locations I, I+1 and I+2.
    pub fn opfx33(&mut self, x: usize) -> (outcome: Outcome)
        requires
            x < 16,
            old(self)@.can_advance(),
        ensures
            (Step { machine: final(self)@, outcome }) == old(self)@.execute(
                Instruction::StoreBcd { x },
                0,
                0,
            ),
    {
        let at = self.i as usize;
        if at + 2 >= RAM_SIZE {
            return Outcome::Fault(Fault::MemoryOutOfBounds);
        }
        self.ram[at] = self.v[x] / 100;
        self.ram[at + 1] = (self.v[x] % 100) / 10;
        self.ram[at + 2] = self.v[x] % 10;
        self.next();
        Outcome::Executed
    }

    /// Stores registers V0 through Vx in memory starting at location I.
    pub fn opfx55(&mut self, x: usize) -> (outcome: Outcome)
        requires
            x < 16,
            old(self)@.can_advance(),
        ensures
            (Step { machine: final(self)@, outcome }) == old(self)@.execute(
                Instruction::StoreRegisters { x },
                0,
                0,
            ),
    {
        let at = self.i as usize;
        if at + x >= RAM_SIZE {
            return Outcome::Fault(Fault::MemoryOutOfBounds);
        }
        let mut r: usize = 0;
        while r <= x
            invariant
                x < 16,
                r <= x + 1,
                at == self.i,
                at + x < RAM_SIZE,
                old(self)@.can_advance(),
                forall|a: int|
                    0 <= a < RAM_SIZE ==> self.ram@[a] == if at <= a < at + r {
                        self.v@[a - at]
                    } else {
                        old(self).ram@[a]
                    },
                self.v == old(self).v,
                self.pc == old(self).pc,
                self.stack == old(self).stack,
                self.i == old(self).i,
                self.vram == old(self).vram,
                self.delay_timer == old(self).delay_timer,
                self.sound_timer == old(self).sound_timer,
                self.keypad == old(self).keypad,
                self.update_screen == old(self).update_screen,
            decreases x + 1 - r,
        {
            self.ram[at + r] = self.v[r];
            r = r + 1;
        }
        self.next();
        assert(self@ =~= old(self)@.store_registers(x as int));
        Outcome::Executed
    }

    /// Reads registers V0 through Vx from memory starting at location I.
    pub fn opfx65(&mut self, x: usize) -> (outcome: Outcome)
        requires
            x < 16,
            old(self)@.can_advance(),
        ensures
            (Step { machine: final(self)@, outcome }) == old(self)@.execute(
                Instruction::LoadRegisters { x },
                0,
                0,
            ),
    {
        let at = self.i as usize;
        if at + x >= RAM_SIZE {
            return Outcome::Fault(Fault::MemoryOutOfBounds);
        }
        let mut r: usize = 0;
        while r <= x
            invariant
                x < 16,
                r <= x + 1,
                at == self.i,
                at + x < RAM_SIZE,
                old(self)@.can_advance(),
                forall|q: int|
                    0 <= q < 16 ==> self.v@[q] == if q < r {
                        self.ram@[at + q]
                    } else {
                        old(self).v@[q]
                    },
                self.ram == old(self).ram,
                self.pc == old(self).pc,
                self.stack == old(self).stack,
                self.i == old(self).i,
                self.vram == old(self).vram,
                self.delay_timer == old(self).delay_timer,
                self.sound_timer == old(self).sound_timer,
                self.keypad == old(self).keypad,
                self.update_screen == old(self).update_screen,
            decreases x + 1 - r,
        {
            self.v[r] = self.ram[at + r];
            r = r + 1;
        }
        self.next();
        assert(self@ =~= old(self)@.load_registers(x as int));
        Outcome::Executed
    }

    /// The word at the program counter, high byte first.
    fn get_opcode(&self) -> (opcode: u16)
        requires
            self@.can_fetch(),
        ensures
            opcode == self@.opcode(),
    {
        let hi = self.ram[self.pc as usize];
        let lo = self.ram[self.pc as usize + 1];
        assert(((hi as u16) << 8) | (lo as u16) == (hi as u16) * 256 + (lo as u16))
            by (bit_vector);
        ((hi as u16) << 8) | (lo as u16)
    }

    /// Decodes a word and carries the instruction out; a word that is no
    /// instruction is skipped.
    fn run_opcode(&mut self, opcode: u16, elapsed_ms: u128, random: u8) -> (outcome: Outcome)
        requires
            old(self)@.can_fetch(),
        ensures
            (Step { machine: final(self)@, outcome }) == old(self)@.run(
                opcode,
                elapsed_ms as nat,
                random,
            ),
    {
        match Instruction::decode(opcode) {
            Some(Instruction::ClearScreen) => {
                self.op00e0();
                Outcome::Executed
            },
            Some(Instruction::Return) => self.op00ee(),
            Some(Instruction::Jump { addr }) => {
                self.op1nnn(addr);
                Outcome::Executed
            },
            Some(Instruction::Call { addr }) => self.op2nnn(addr),
            Some(Instruction::SkipEqImm { x, kk }) => {
                self.op3xkk(x, kk);
                Outcome::Executed
            },
            Some(Instruction::SkipNeImm { x, kk }) => {
                self.op4xkk(x, kk);
                Outcome::Executed
            },
            Some(Instruction::SkipEqReg { x, y }) => {
                self.op5xy0(x, y);
                Outcome::Executed
            },
            Some(Instruction::LoadImm { x, kk }) => {
                self.op6xkk(x, kk);
                Outcome::Executed
            },
            Some(Instruction::AddImm { x, kk }) => {
                self.op7xkk(x, kk);
                Outcome::Executed
            },
            Some(Instruction::Move { x, y }) => {
                self.op8xy0(x, y);
                Outcome::Executed
            },
            Some(Instruction::Or { x, y }) => {
                self.op8xy1(x, y);
                Outcome::Executed
            },
            Some(Instruction::And { x, y }) => {
                self.op8xy2(x, y);
                Outcome::Executed
            },
            Some(Instruction::Xor { x, y }) => {
                self.op8xy3(x, y);
                Outcome::Executed
            },
            Some(Instruction::AddReg { x, y }) => {
                self.op8xy4(x, y);
                Outcome::Executed
            },
            Some(Instruction::SubReg { x, y }) => {
                self.op8xy5(x, y);
                Outcome::Executed
            },
            Some(Instruction::ShiftRight { x }) => {
                self.op8xy6(x);
                Outcome::Executed
            },
            Some(Instruction::SubFrom { x, y }) => {
                self.op8xy7(x, y);
                Outcome::Executed
            },
            Some(Instruction::ShiftLeft { x }) => {
                self.op8xye(x);
                Outcome::Executed
            },
            Some(Instruction::SkipNeReg { x, y }) => {
                self.op9xy0(x, y);
                Outcome::Executed
            },
            Some(Instruction::LoadAddress { addr }) => {
                self.opannn(addr);
                Outcome::Executed
            },
            Some(Instruction::JumpOffset { addr }) => {
                self.opbnnn(addr);
                Outcome::Executed
            },
            Some(Instruction::Random { x, kk }) => {
                self.opcxkk(x, kk, random);
                Outcome::Executed
            },
            Some(Instruction::Draw { x, y, n }) => self.opdxyn(x, y, n),
            Some(Instruction::SkipKeyPressed { x }) => self.opex9e(x),
            Some(Instruction::SkipKeyReleased { x }) => self.opexa1(x),
            Some(Instruction::ReadDelay { x }) => {
                self.opfx07(x, elapsed_ms);
                Outcome::Executed
            },
            Some(Instruction::WaitKey { x }) => self.opfx0a(x),
            Some(Instruction::SetDelay { x }) => {
                self.opfx15(x);
                Outcome::Executed
            },
            Some(Instruction::SetSound { x }) => {
                self.opfx18(x);
                Outcome::Executed
            },
            Some(Instruction::AddAddress { x }) => {
                self.opfx1e(x);
                Outcome::Executed
            },
            Some(Instruction::LoadGlyph { x }) => {
                self.opfx29(x);
                Outcome::Executed
            },
            Some(Instruction::StoreBcd { x }) => self.opfx33(x),
            Some(Instruction::StoreRegisters { x }) => self.opfx55(x),
            Some(Instruction::LoadRegisters { x }) => self.opfx65(x),
            None => {
                self.next();
                Outcome::Unrecognized(opcode)
            },
        }
    }

    /// The instruction that the next tick will run, if the program counter
    /// points at one.
    pub fn pending(&self) -> (ins: Option<Instruction>)
        ensures
            ins == self@.pending(),
    {
        if (self.pc as usize) + 1 < RAM_SIZE {
            Instruction::decode(self.get_opcode())
        } else {
            None
        }
    }

    /// One tick, given what the outside world would have answered: the
    /// milliseconds since the delay timer was set and a random byte. Fetches
    /// the word at the program counter and carries it out.
    pub fn tick_with(&mut self, elapsed_ms: u128, random: u8) -> (outcome: Outcome)
        ensures
            (Step { machine: final(self)@, outcome }) == old(self)@.step(elapsed_ms as nat, random),
            final(self)@.wf(),
    {
        let outcome = if (self.pc as usize) + 1 < RAM_SIZE {
            let opcode = self.get_opcode();
            self.run_opcode(opcode, elapsed_ms, random)
        } else {
            Outcome::Fault(Fault::FetchOutOfBounds)
        };
        proof {
            use_type_invariant(&self.stack);
            self.stack.lemma_bounded();
            self.lemma_wf_but_stack();
        }
        outcome
    }

    /// One tick. Reads the clock where the instruction reads the delay timer
    /// and draws a random byte where it asks for one; the tick is a step of
    /// the model for what they answered, and for any answers where the
    /// instruction asks for neither.
    pub fn tick(&mut self) -> (outcome: Outcome)
        ensures
            exists|elapsed_ms: nat, random: u8|
                (Step { machine: final(self)@, outcome }) == old(self)@.step(elapsed_ms, random),
            !old(self)@.reads_outside() ==> (Step { machine: final(self)@, outcome })
                == old(self)@.step(0, 0),
            final(self)@.wf(),
    {
        let (elapsed_ms, random): (u128, u8) = match self.pending() {
            Some(Instruction::ReadDelay { .. }) => (self.delay_timer.elapsed_ms(), 0),
            Some(Instruction::Random { .. }) => (0, random_byte()),
            _ => (0, 0),
        };
        let outcome = self.tick_with(elapsed_ms, random);
        assert((Step { machine: self@, outcome }) == old(self)@.step(elapsed_ms as nat, random));
        outcome
    }

    /// Sets one slot of the keypad.
    pub fn set_key(&mut self, slot: usize, value: u8)
        requires
            slot < 16,
        ensures
            final(self)@ == old(self)@.with_key(slot as int, value),
            final(self)@.wf(),
    {
        self.keypad[slot] = value;
        proof {
            use_type_invariant(&self.stack);
            self.stack.lemma_bounded();
            self.lemma_wf_but_stack();
        }
    }

    /// The slots of the keypad.
    pub fn keypad(&self) -> (keys: &[u8; 16])
        ensures
            keys@ == self@.keypad,
    {
        &self.keypad
    }

    /// The framebuffer, as rows of cells.
    pub fn vram(&self) -> (rows: &[[u8; VRAM_WIDTH]; VRAM_HEIGHT])
        ensures
            forall|r: int|
                0 <= r < VRAM_HEIGHT ==> (#[trigger] rows@[r])@ == self@.vram[r],
    {
        &self.vram
    }

    /// Whether the framebuffer is due for a redraw.
    pub fn update_screen(&self) -> (due: bool)
        ensures
            due == self@.update_screen,
    {
        self.update_screen
    }

    /// Notes that the framebuffer was redrawn: it is no longer due.
    pub fn redrawn(&mut self)
        ensures
            final(self)@ == (Machine { update_screen: false, ..old(self)@ }),
            final(self)@.wf(),
    {
        self.update_screen = false;
        proof {
            use_type_invariant(&self.stack);
            self.stack.lemma_bounded();
            self.lemma_wf_but_stack();
        }
    }

    /// The registers.
    pub fn registers(&self) -> (v: &[u8; 16])
        ensures
            v@ == self@.v,
    {
        &self.v
    }

    /// The program counter.
    pub fn pc(&self) -> (pc: u16)
        ensures
            pc == self@.pc,
    {
        self.pc
    }

    /// The address register.
    pub fn i(&self) -> (i: u16)
        ensures
            i == self@.i,
    {
        self.i
    }

    /// Memory.
    pub fn ram(&self) -> (ram: &[u8; RAM_SIZE])
        ensures
            ram@ == self@.ram,
    {
        &self.ram
    }

    /// The number of calls in progress, which never exceeds the capacity of
    /// the call stack.
    pub fn stack_depth(&self) -> (depth: usize)
        ensures
            depth == self@.stack.len(),
            depth <= STACK_CAPACITY,
    {
        self.stack.depth()
    }

    /// The value the delay timer was last set to, or zero once it was found
    /// to have run out.
    pub fn delay_setting(&self) -> (value: u8)
        ensures
            value == self@.delay,
    {
        self.delay_timer.setting()
    }

    /// The sound timer.
    pub fn sound_timer(&self) -> (value: u8)
        ensures
            value == self@.sound,
    {
        self.sound_timer
    }
}

} // verus!
