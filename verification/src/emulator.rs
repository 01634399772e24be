//! The virtual machine: memory, registers, timers, call stack and display.

pub mod display;
pub mod drawing;
pub mod error;
pub mod font;
pub mod laws;
pub mod machine;
pub mod random;
pub mod stack;

use rand::rngs::StdRng;
use vstd::prelude::*;
use crate::config::Config;
use crate::decoder::{decode, lemma_encode_decode, Instruction};
use crate::emulator::display::{Display, Screen};
use crate::emulator::error::EmuError;
use crate::emulator::font::{FONTS, FONT_SIZE, FONT_START_ADDRESS};
use crate::emulator::machine::{flag, refusal, Machine};
use crate::emulator::random::random_byte;
use crate::emulator::stack::error::StackError;
use crate::emulator::stack::Stack;
use crate::error::RunError;

verus! {

/// Bytes of memory.
pub const MEMORY_SIZE: usize = 4096;

/// Number of general registers.
pub const REG_SIZE: usize = 16;

/// Where programs are loaded; the bytes below are reserved.
pub const START_ADDR: usize = 0x200;

/// The register that doubles as carry, borrow and collision flag.
pub const REG_F: usize = 15;

/// Number of keys on the keypad.
pub const KEY_SIZE: usize = 16;

/// The machine: 4 KiB of memory, sixteen 8-bit registers, the index
/// register, the program counter, two timers, the display and the call
/// stack. `I` and the program counter are held widened, ready for indexing.
#[derive(Debug)]
pub struct Emulator {
    memory: [u8; 4096],
    reg: [u8; 16],
    reg_i: usize,
    reg_pc: usize,
    reg_delay: u8,
    reg_sound: u8,
    display: Display,
    stack: Stack,
    modern: bool,
}

impl View for Emulator {
    type V = Machine;

    closed spec fn view(&self) -> Machine {
        Machine {
            memory: self.memory@,
            v: self.reg@,
            i: self.reg_i as int,
            pc: self.reg_pc as int,
            delay: self.reg_delay,
            sound: self.reg_sound,
            stack: self.stack@,
            screen: self.display@,
            modern: self.modern,
        }
    }
}

impl Emulator {
    /// The stack is well-formed and `I` fits sixteen bits.
    pub closed spec fn wf(&self) -> bool {
        &&& self.stack.wf()
        &&& self.reg_i <= 0xFFFF
    }

    /// The model of a well-formed machine is well-formed.
    pub proof fn lemma_view_wf(&self)
        requires
            self.wf(),
        ensures
            self@.wf(),
    {
        self.stack.lemma_bounded();
        self.display.lemma_wf();
    }

    /// Creates a machine in its reset state, in modern mode.
    pub fn new() -> (emu: Self)
        ensures
            emu.wf(),
            emu@ == Machine::reset(true),
    {
        Self::with_compatibility(true)
    }

    /// Creates a machine in its reset state, set up as `config` says.
    pub fn with_config(config: &Config) -> (emu: Self)
        ensures
            emu.wf(),
            emu@ == Machine::reset(config.modern_compatibility),
    {
        Self::with_compatibility(config.modern_compatibility)
    }

    /// Creates a machine in its reset state: memory zeroed but for the font,
    /// registers and timers zero, the program counter at `START_ADDR`, an
    /// empty stack and a blank display.
    pub fn with_compatibility(modern: bool) -> (emu: Self)
        ensures
            emu.wf(),
            emu@ == Machine::reset(modern),
    {
        let mut this = Emulator {
            memory: [0; 4096],
            reg: [0; 16],
            reg_i: 0,
            reg_pc: START_ADDR,
            reg_delay: 0,
            reg_sound: 0,
            display: Display::new(),
            stack: Stack::new(),
            modern,
        };
        this.load_fonts();
        assert(this@.memory =~= Machine::reset(modern).memory);
        assert(this@.v =~= Machine::reset(modern).v);
        this
    }

    /// Copies the font into its reserved region of memory.
    fn load_fonts(&mut self)
        ensures
            final(self)@ == (Machine {
                memory: Seq::new(
                    4096,
                    |a: int|
                        if 0x050 <= a < 0x0A0 {
                            FONTS@[a - 0x050]
                        } else {
                            old(self)@.memory[a]
                        },
                ),
                ..old(self)@
            }),
            final(self).wf() == old(self).wf(),
    {
        let mut k: usize = 0;
        while k < 80
            invariant
                k <= 80,
                self.wf() == old(self).wf(),
                self@ == (Machine { memory: self.memory@, ..old(self)@ }),
                forall|a: int|
                    0 <= a < 4096 ==> self.memory@[a] == if 0x050 <= a < 0x050 + k {
                        FONTS@[a - 0x050]
                    } else {
                        old(self)@.memory[a]
                    },
            decreases 80 - k,
        {
            self.memory[FONT_START_ADDRESS + k] = FONTS[k];
            k += 1;
        }
        assert(self@.memory =~= Seq::new(
            4096,
            |a: int|
                if 0x050 <= a < 0x0A0 {
                    FONTS@[a - 0x050]
                } else {
                    old(self)@.memory[a]
                },
        ));
    }

    /// Loads a program at `START_ADDR`, or refuses it if it is longer than
    /// the memory above that address.
    pub fn load_program(&mut self, program: &[u8]) -> (result: Result<(), EmuError>)
        ensures
            final(self).wf() == old(self).wf(),
            program@.len() <= MEMORY_SIZE - START_ADDR ==> result == Ok::<(), EmuError>(())
                && final(self)@ == old(self)@.with_program(program@),
            program@.len() > MEMORY_SIZE - START_ADDR ==> result == Err::<(), EmuError>(
                EmuError::ProgramTooBig(program@.len() as usize),
            ) && final(self)@ == old(self)@,
    {
        if program.len() > MEMORY_SIZE - START_ADDR {
            return Err(EmuError::ProgramTooBig(program.len()));
        }
        let mut n: usize = 0;
        while n < program.len()
            invariant
                n <= program@.len() <= MEMORY_SIZE - START_ADDR,
                self.wf() == old(self).wf(),
                self@ == (Machine { memory: self.memory@, ..old(self)@ }),
                forall|a: int|
                    0 <= a < 4096 ==> self.memory@[a] == if 0x200 <= a < 0x200 + n {
                        program@[a - 0x200]
                    } else {
                        old(self)@.memory[a]
                    },
            decreases program@.len() - n,
        {
            self.memory[START_ADDR + n] = program[n];
            n += 1;
        }
        assert(self@.memory =~= old(self)@.with_program(program@).memory);
        Ok(())
    }

    /// Reads the big-endian word at the program counter and moves the
    /// counter past it. Fails, leaving the machine as it was, if the word
    /// does not lie within memory.
    pub fn fetch(&mut self) -> (result: Result<u16, EmuError>)
        ensures
            final(self).wf() == old(self).wf(),
            old(self)@.can_fetch() ==> result == Ok::<u16, EmuError>(
                old(self)@.word_at(old(self)@.pc),
            ) && final(self)@ == old(self)@.with_pc(old(self)@.pc + 2),
            !old(self)@.can_fetch() ==> result == Err::<u16, EmuError>(
                EmuError::InvalidAddress(old(self)@.pc as usize),
            ) && final(self)@ == old(self)@,
    {
        if self.reg_pc >= MEMORY_SIZE - 1 {
            return Err(EmuError::InvalidAddress(self.reg_pc));
        }
        let high: u8 = self.memory[self.reg_pc];
        let low: u8 = self.memory[self.reg_pc + 1];
        let value_high: u16 = (high as u16) << 8;
        let value_low: u16 = low as u16;
        assert(value_high == high * 256) by (bit_vector)
            requires
                value_high == (high as u16) << 8,
        ;
        let instr = value_high + value_low;
        self.reg_pc += 2;
        Ok(instr)
    }

    /// Whether the pixel `(x, y)` is on: the host's read-only view of the
    /// framebuffer.
    pub fn display_val(&self, x: usize, y: usize) -> (on: bool)
        requires
            x < 64,
            y < 32,
        ensures
            on == self@.screen.at(x as int, y as int),
    {
        self.display.get(x, y)
    }

    /// Whether the framebuffer changed since the host last presented it.
    pub fn should_refresh(&self) -> (dirty: bool)
        ensures
            dirty == self@.screen.dirty,
    {
        self.display.is_dirty()
    }

    /// Records that the host has presented the framebuffer.
    pub fn refreshed(&mut self)
        ensures
            final(self).wf() == old(self).wf(),
            final(self)@ == (Machine {
                screen: Screen { dirty: false, ..old(self)@.screen },
                ..old(self)@
            }),
    {
        self.display.mark_clean();
    }

    /// The timer tick, due once per frame: each timer that is not yet zero
    /// counts down by one.
    pub fn decrease_timers(&mut self)
        ensures
            final(self).wf() == old(self).wf(),
            final(self)@ == old(self)@.ticked(),
    {
        if self.reg_delay > 0 {
            self.reg_delay -= 1;
        }
        if self.reg_sound > 0 {
            self.reg_sound -= 1;
        }
    }
}

impl Emulator {
    /// Turns every pixel off.
    fn clear_display(&mut self)
        ensures
            final(self).wf() == old(self).wf(),
            final(self)@ == old(self)@.cls(),
    {
        self.display.clear();
    }

    /// Returns from a subroutine: the program counter takes the address on
    /// top of the stack.
    fn ret(&mut self) -> (result: Result<(), StackError>)
        requires
            old(self).wf(),
        ensures
            final(self).wf(),
            final(self)@ == old(self)@.ret(),
            result == if old(self)@.stack.len() == 0 {
                Err::<(), StackError>(StackError::Underflow)
            } else {
                Ok::<(), StackError>(())
            },
    {
        match self.stack.pop() {
            Ok(ret_value) => {
                self.reg_pc = ret_value;
                Ok(())
            },
            Err(e) => Err(e),
        }
    }

    /// Sets the program counter to `addr`, leaving the stack alone.
    fn set_pc(&mut self, addr: usize)
        ensures
            final(self).wf() == old(self).wf(),
            final(self)@ == old(self)@.set_pc(addr),
    {
        self.reg_pc = addr;
    }

    /// Calls the subroutine at `addr`: the program counter goes onto the
    /// stack first.
    fn call(&mut self, addr: usize) -> (result: Result<(), StackError>)
        requires
            old(self).wf(),
        ensures
            final(self).wf(),
            final(self)@ == old(self)@.call(addr),
            result == if old(self)@.stack.len() >= 16 {
                Err::<(), StackError>(StackError::Overflow)
            } else {
                Ok::<(), StackError>(())
            },
    {
        proof {
            self.stack.lemma_bounded();
        }
        match self.stack.push(self.reg_pc) {
            Ok(()) => {
                self.reg_pc = addr;
                Ok(())
            },
            Err(e) => Err(e),
        }
    }

    /// Skips the next instruction if register `reg` equals `inmm`.
    fn se_inmm(&mut self, reg: usize, inmm: u8)
        requires
            reg < REG_SIZE,
            old(self)@.v[reg as int] == inmm ==> old(self)@.pc + 2 <= usize::MAX,
        ensures
            final(self).wf() == old(self).wf(),
            final(self)@ == old(self)@.se_inmm(reg, inmm),
    {
        if self.reg[reg] == inmm {
            self.reg_pc += 2;
        }
    }

    /// Skips the next instruction if register `reg` differs from `inmm`.
    fn sne_inmm(&mut self, reg: usize, inmm: u8)
        requires
            reg < REG_SIZE,
            old(self)@.v[reg as int] != inmm ==> old(self)@.pc + 2 <= usize::MAX,
        ensures
            final(self).wf() == old(self).wf(),
            final(self)@ == old(self)@.sne_inmm(reg, inmm),
    {
        if self.reg[reg] != inmm {
            self.reg_pc += 2;
        }
    }

    /// Skips the next instruction if the two registers are equal.
    fn se_reg(&mut self, reg_x: usize, reg_y: usize)
        requires
            reg_x < REG_SIZE,
            reg_y < REG_SIZE,
            old(self)@.v[reg_x as int] == old(self)@.v[reg_y as int] ==> old(self)@.pc + 2 <= usize::MAX,
        ensures
            final(self).wf() == old(self).wf(),
            final(self)@ == old(self)@.se_reg(reg_x, reg_y),
    {
        if self.reg[reg_x] == self.reg[reg_y] {
            self.reg_pc += 2;
        }
    }

    /// Skips the next instruction if the two registers differ.
    fn sne_reg(&mut self, reg_x: usize, reg_y: usize)
        requires
            reg_x < REG_SIZE,
            reg_y < REG_SIZE,
            old(self)@.v[reg_x as int] != old(self)@.v[reg_y as int] ==> old(self)@.pc + 2 <= usize::MAX,
        ensures
            final(self).wf() == old(self).wf(),
            final(self)@ == old(self)@.sne_reg(reg_x, reg_y),
    {
        if self.reg[reg_x] != self.reg[reg_y] {
            self.reg_pc += 2;
        }
    }

    /// Loads an immediate value into a register.
    fn load_inmm(&mut self, reg: usize, inmm: u8)
        requires
            reg < REG_SIZE,
        ensures
            final(self).wf() == old(self).wf(),
            final(self)@ == old(self)@.load_inmm(reg, inmm),
    {
        self.reg[reg] = inmm;
    }

    /// Adds an immediate value to a register, wrapping, without a carry.
    fn add_inmm(&mut self, reg: usize, inmm: u8)
        requires
            reg < REG_SIZE,
        ensures
            final(self).wf() == old(self).wf(),
            final(self)@ == old(self)@.add_inmm(reg, inmm),
    {
        self.reg[reg] = self.reg[reg].wrapping_add(inmm);
    }

    /// Sets `I` to an immediate value.
    fn load_i(&mut self, inmm: usize)
        requires
            old(self).wf(),
            inmm < 0x1000,
        ensures
            final(self).wf(),
            final(self)@ == old(self)@.load_i(inmm),
    {
        self.reg_i = inmm;
    }

    /// Jumps to `V0 + inmm`, wrapped to twelve bits.
    fn jump(&mut self, inmm: usize)
        requires
            inmm < 0x1000,
        ensures
            final(self).wf() == old(self).wf(),
            final(self)@ == old(self)@.jump(inmm),
    {
        self.reg_pc = (self.reg[0] as usize + inmm) % MEMORY_SIZE;
    }

    /// Stores `random`, masked with `inmm`, in a register.
    fn rand(&mut self, reg: usize, inmm: u8, random: u8)
        requires
            reg < REG_SIZE,
        ensures
            final(self).wf() == old(self).wf(),
            final(self)@ == old(self)@.rand(reg, inmm, random),
    {
        self.reg[reg] = random & inmm;
    }

    /// Copies register `reg_y` into register `reg_x`.
    fn load_reg(&mut self, reg_x: usize, reg_y: usize)
        requires
            reg_x < REG_SIZE,
            reg_y < REG_SIZE,
        ensures
            final(self).wf() == old(self).wf(),
            final(self)@ == old(self)@.load_reg(reg_x, reg_y),
    {
        self.reg[reg_x] = self.reg[reg_y];
    }

    /// Ors register `reg_y` into register `reg_x`.
    fn or(&mut self, reg_x: usize, reg_y: usize)
        requires
            reg_x < REG_SIZE,
            reg_y < REG_SIZE,
        ensures
            final(self).wf() == old(self).wf(),
            final(self)@ == old(self)@.or(reg_x, reg_y),
    {
        self.reg[reg_x] = self.reg[reg_x] | self.reg[reg_y];
    }

    /// Ands register `reg_y` into register `reg_x`.
    fn and(&mut self, reg_x: usize, reg_y: usize)
        requires
            reg_x < REG_SIZE,
            reg_y < REG_SIZE,
        ensures
            final(self).wf() == old(self).wf(),
            final(self)@ == old(self)@.and(reg_x, reg_y),
    {
        self.reg[reg_x] = self.reg[reg_x] & self.reg[reg_y];
    }

    /// Xors register `reg_y` into register `reg_x`.
    fn xor(&mut self, reg_x: usize, reg_y: usize)
        requires
            reg_x < REG_SIZE,
            reg_y < REG_SIZE,
        ensures
            final(self).wf() == old(self).wf(),
            final(self)@ == old(self)@.xor(reg_x, reg_y),
    {
        self.reg[reg_x] = self.reg[reg_x] ^ self.reg[reg_y];
    }

    /// Adds register `reg_y` to register `reg_x`, then writes the carry to
    /// the flag register.
    fn add_reg(&mut self, reg_x: usize, reg_y: usize)
        requires
            reg_x < REG_SIZE,
            reg_y < REG_SIZE,
        ensures
            final(self).wf() == old(self).wf(),
            final(self)@ == old(self)@.add_reg(reg_x, reg_y),
    {
        let x: u8 = self.reg[reg_x];
        let y: u8 = self.reg[reg_y];
        let carry: bool = x > u8::MAX - y;
        self.reg[reg_x] = x.wrapping_add(y);
        self.reg[REG_F] = if carry {
            1
        } else {
            0
        };
    }

    /// Writes to the flag register whether `reg_x` is above `reg_y`, then
    /// subtracts `reg_y` from `reg_x`, wrapping.
    fn sub_reg(&mut self, reg_x: usize, reg_y: usize)
        requires
            reg_x < REG_SIZE,
            reg_y < REG_SIZE,
        ensures
            final(self).wf() == old(self).wf(),
            final(self)@ == old(self)@.sub_reg(reg_x, reg_y),
    {
        let x: u8 = self.reg[reg_x];
        let y: u8 = self.reg[reg_y];
        let sub: u8 = x.wrapping_sub(y);
        if x > y {
            self.reg[REG_F] = 1;
        } else {
            self.reg[REG_F] = 0;
        }
        self.reg[reg_x] = sub;
    }

    /// Writes to the flag register whether `reg_y` is above `reg_x`, then
    /// sets `reg_x` to `reg_y` minus `reg_x`, wrapping.
    fn rev_sub(&mut self, reg_x: usize, reg_y: usize)
        requires
            reg_x < REG_SIZE,
            reg_y < REG_SIZE,
        ensures
            final(self).wf() == old(self).wf(),
            final(self)@ == old(self)@.rev_sub(reg_x, reg_y),
    {
        let x: u8 = self.reg[reg_x];
        let y: u8 = self.reg[reg_y];
        let sub: u8 = y.wrapping_sub(x);
        if y > x {
            self.reg[REG_F] = 1;
        } else {
            self.reg[REG_F] = 0;
        }
        self.reg[reg_x] = sub;
    }

    /// Writes the low bit of `reg_y` to the flag register, then sets
    /// `reg_x` to what `reg_y` held, shifted right by one.
    fn right_shift(&mut self, reg_x: usize, reg_y: usize)
        requires
            reg_x < REG_SIZE,
            reg_y < REG_SIZE,
        ensures
            final(self).wf() == old(self).wf(),
            final(self)@ == old(self)@.right_shift(reg_x, reg_y),
    {
        let y: u8 = self.reg[reg_y];
        if y & 1 == 1 {
            self.reg[REG_F] = 1;
        } else {
            self.reg[REG_F] = 0;
        }
        self.reg[reg_x] = y >> 1;
    }

    /// Writes the high bit of `reg_y` to the flag register, then sets
    /// `reg_x` to what `reg_y` held, shifted left by one.
    fn left_shift(&mut self, reg_x: usize, reg_y: usize)
        requires
            reg_x < REG_SIZE,
            reg_y < REG_SIZE,
        ensures
            final(self).wf() == old(self).wf(),
            final(self)@ == old(self)@.left_shift(reg_x, reg_y),
    {
        let y: u8 = self.reg[reg_y];
        if (y >> 7) & 1 == 1 {
            self.reg[REG_F] = 1;
        } else {
            self.reg[REG_F] = 0;
        }
        self.reg[reg_x] = y << 1;
    }

    /// Skips the next instruction if the key numbered by register `reg` is
    /// down.
    fn skip_key(&mut self, reg: usize, keys: &[bool]) -> (result: Result<(), EmuError>)
        requires
            reg < REG_SIZE,
            keys@.len() == KEY_SIZE,
            old(self)@.v[reg as int] < 16 && keys@[old(self)@.v[reg as int] as int] ==> old(self)@.pc + 2 <= usize::MAX,
        ensures
            final(self).wf() == old(self).wf(),
            final(self)@ == old(self)@.skip_key(reg, keys@),
            result == if old(self)@.v[reg as int] >= 16 {
                Err::<(), EmuError>(EmuError::UnknownKey(old(self)@.v[reg as int] as usize))
            } else {
                Ok::<(), EmuError>(())
            },
    {
        let value = self.reg[reg] as usize;
        if value >= KEY_SIZE {
            Err(EmuError::UnknownKey(value))
        } else {
            if keys[value] {
                self.reg_pc += 2;
            }
            Ok(())
        }
    }

    /// Skips the next instruction if the key numbered by register `reg` is
    /// up.
    fn snkip_key(&mut self, reg: usize, keys: &[bool]) -> (result: Result<(), EmuError>)
        requires
            reg < REG_SIZE,
            keys@.len() == KEY_SIZE,
            old(self)@.v[reg as int] < 16 && !keys@[old(self)@.v[reg as int] as int] ==> old(self)@.pc + 2 <= usize::MAX,
        ensures
            final(self).wf() == old(self).wf(),
            final(self)@ == old(self)@.snkip_key(reg, keys@),
            result == if old(self)@.v[reg as int] >= 16 {
                Err::<(), EmuError>(EmuError::UnknownKey(old(self)@.v[reg as int] as usize))
            } else {
                Ok::<(), EmuError>(())
            },
    {
        let value = self.reg[reg] as usize;
        if value >= KEY_SIZE {
            Err(EmuError::UnknownKey(value))
        } else {
            if !keys[value] {
                self.reg_pc += 2;
            }
            Ok(())
        }
    }

    /// Copies the delay timer into a register.
    fn get_delay(&mut self, reg: usize)
        requires
            reg < REG_SIZE,
        ensures
            final(self).wf() == old(self).wf(),
            final(self)@ == old(self)@.get_delay(reg),
    {
        self.reg[reg] = self.reg_delay;
    }

    /// Copies a register into the delay timer.
    fn load_delay(&mut self, reg: usize)
        requires
            reg < REG_SIZE,
        ensures
            final(self).wf() == old(self).wf(),
            final(self)@ == old(self)@.load_delay(reg),
    {
        self.reg_delay = self.reg[reg];
    }

    /// Copies a register into the sound timer.
    fn load_sound(&mut self, reg: usize)
        requires
            reg < REG_SIZE,
        ensures
            final(self).wf() == old(self).wf(),
            final(self)@ == old(self)@.load_sound(reg),
    {
        self.reg_sound = self.reg[reg];
    }

    /// Adds a register to `I`, and tells in the flag register whether the
    /// sum left the twelve bits of an address.
    fn add_to_index(&mut self, reg: usize)
        requires
            old(self).wf(),
            reg < REG_SIZE,
        ensures
            final(self).wf(),
            final(self)@ == old(self)@.add_to_index(reg),
    {
        let sum: usize = self.reg_i + self.reg[reg] as usize;
        self.reg_i = sum % 0x10000;
        if sum > 0x0FFF {
            self.reg[REG_F] = 1;
        } else {
            self.reg[REG_F] = 0;
        }
    }

    /// Stalls until the key numbered by register `reg` is down: while it is
    /// up, the program counter steps back onto this instruction.
    fn wait_key(&mut self, reg: usize, keys: &[bool]) -> (result: Result<(), EmuError>)
        requires
            reg < REG_SIZE,
            keys@.len() == KEY_SIZE,
            old(self)@.v[reg as int] < 16 && !keys@[old(self)@.v[reg as int] as int] ==> old(self)@.pc
                >= 2,
        ensures
            final(self).wf() == old(self).wf(),
            final(self)@ == old(self)@.wait_key(reg, keys@),
            result == if old(self)@.v[reg as int] >= 16 {
                Err::<(), EmuError>(EmuError::UnknownKey(old(self)@.v[reg as int] as usize))
            } else {
                Ok::<(), EmuError>(())
            },
    {
        let value = self.reg[reg] as usize;
        if value >= KEY_SIZE {
            Err(EmuError::UnknownKey(value))
        } else {
            if !keys[value] {
                self.reg_pc -= 2;
            }
            Ok(())
        }
    }

    /// Points `I` at the glyph for the digit in register `reg`.
    fn load_font(&mut self, reg: usize) -> (result: Result<(), EmuError>)
        requires
            old(self).wf(),
            reg < REG_SIZE,
        ensures
            final(self).wf(),
            final(self)@ == old(self)@.load_font(reg),
            result == if old(self)@.v[reg as int] > 0xF {
                Err::<(), EmuError>(EmuError::UnknownFont(old(self)@.v[reg as int]))
            } else {
                Ok::<(), EmuError>(())
            },
    {
        let value = self.reg[reg];
        if value > 0xF {
            return Err(EmuError::UnknownFont(value));
        }
        self.reg_i = FONT_START_ADDRESS + FONT_SIZE * (value as usize);
        Ok(())
    }

    /// Writes the decimal digits of register `reg` to `I`, `I + 1` and
    /// `I + 2`: hundreds first. Writes nothing unless all three addresses
    /// lie in memory.
    fn binary_dec(&mut self, reg: usize) -> (result: Result<(), EmuError>)
        requires
            old(self).wf(),
            reg < REG_SIZE,
        ensures
            final(self).wf(),
            final(self)@ == old(self)@.binary_dec(reg),
            result == refusal(old(self)@.address_fault(2)),
    {
        let value = self.reg[reg];
        let pos = (self.reg_i, self.reg_i + 1, self.reg_i + 2);
        if pos.0 >= MEMORY_SIZE {
            return Err(EmuError::InvalidAddress(pos.0));
        } else if pos.1 >= MEMORY_SIZE {
            return Err(EmuError::InvalidAddress(pos.1));
        } else if pos.2 >= MEMORY_SIZE {
            return Err(EmuError::InvalidAddress(pos.2));
        }
        self.memory[pos.0] = (value / 100) % 10;
        self.memory[pos.1] = (value / 10) % 10;
        self.memory[pos.2] = value % 10;
        Ok(())
    }

    /// Writes the registers `0 ..= reg` to memory from `I` on, checking each
    /// address before it is written. In modern mode `I` stays; otherwise it
    /// moves past the last address written.
    fn store_mem(&mut self, reg: usize) -> (result: Result<(), EmuError>)
        requires
            old(self).wf(),
            reg < REG_SIZE,
        ensures
            final(self).wf(),
            final(self)@ == old(self)@.store_mem(reg),
            result == refusal(old(self)@.address_fault(reg as int)),
    {
        let mut r: usize = 0;
        while r <= reg
            invariant
                reg < REG_SIZE,
                r <= reg + 1,
                self.wf(),
                r > 0 ==> self.reg_i + r <= MEMORY_SIZE,
                self@ == (Machine { memory: self.memory@, ..old(self)@ }),
                forall|a: int|
                    0 <= a < 4096 ==> self.memory@[a] == if self.reg_i <= a < self.reg_i + r {
                        old(self)@.v[a - self.reg_i]
                    } else {
                        old(self)@.memory[a]
                    },
            decreases reg + 1 - r,
        {
            let pos = self.reg_i + r;
            if pos >= MEMORY_SIZE {
                assert(self@.memory =~= old(self)@.stored(reg as int));
                return Err(EmuError::InvalidAddress(pos));
            }
            self.memory[pos] = self.reg[r];
            r += 1;
        }
        assert(self@.memory =~= old(self)@.stored(reg as int));
        if !self.modern {
            self.reg_i = (self.reg_i + reg + 1) % 0x10000;
        }
        Ok(())
    }

    /// Reads the registers `0 ..= reg` from memory from `I` on, checking
    /// each address before it is read. `I` is treated as in `store_mem`.
    fn load_mem(&mut self, reg: usize) -> (result: Result<(), EmuError>)
        requires
            old(self).wf(),
            reg < REG_SIZE,
        ensures
            final(self).wf(),
            final(self)@ == old(self)@.load_mem(reg),
            result == refusal(old(self)@.address_fault(reg as int)),
    {
        let mut r: usize = 0;
        while r <= reg
            invariant
                reg < REG_SIZE,
                r <= reg + 1,
                self.wf(),
                r > 0 ==> self.reg_i + r <= MEMORY_SIZE,
                self@ == (Machine { v: self.reg@, ..old(self)@ }),
                forall|k: int|
                    0 <= k < 16 ==> self.reg@[k] == if k < r {
                        old(self)@.memory[self.reg_i + k]
                    } else {
                        old(self)@.v[k]
                    },
            decreases reg + 1 - r,
        {
            let pos = self.reg_i + r;
            if pos >= MEMORY_SIZE {
                assert(self@.v =~= old(self)@.loaded(reg as int));
                return Err(EmuError::InvalidAddress(pos));
            }
            self.reg[r] = self.memory[pos];
            r += 1;
        }
        assert(self@.v =~= old(self)@.loaded(reg as int));
        if !self.modern {
            self.reg_i = (self.reg_i + reg + 1) % 0x10000;
        }
        Ok(())
    }

    /// Draws the sprite of `inmm` rows at `I` with its top left corner at
    /// the coordinates in `reg_x` and `reg_y`, taken modulo the display's
    /// size. A set bit flips its pixel; the flag register tells whether any
    /// lit pixel went off. Bits that fall outside the display are dropped.
    /// Refuses, before anything is drawn, a sprite that reaches outside
    /// memory.
    fn display(&mut self, reg_x: usize, reg_y: usize, inmm: u8) -> (result: Result<(), EmuError>)
        requires
            old(self).wf(),
            reg_x < REG_SIZE,
            reg_y < REG_SIZE,
        ensures
            final(self).wf(),
            final(self)@ == old(self)@.display(reg_x, reg_y, inmm),
            result == refusal(old(self)@.sprite_fault(inmm)),
    {
        let x = (self.reg[reg_x] % 64) as usize;
        let y = (self.reg[reg_y] % 32) as usize;
        let rows = inmm as usize;
        if rows > 0 && self.reg_i + rows > MEMORY_SIZE {
            if self.reg_i >= MEMORY_SIZE {
                return Err(EmuError::InvalidAddress(self.reg_i));
            }
            return Err(EmuError::InvalidAddress(MEMORY_SIZE));
        }
        self.reg[REG_F] = 0;
        let ghost before = old(self)@;
        proof {
            old(self).lemma_view_wf();
            before.lemma_no_rows(x as int, y as int);
            assert(self.reg@ =~= before.v.update(15, self.reg@[15]));
        }
        let mut yline: usize = 0;
        while yline < rows
            invariant
                yline <= rows <= 255,
                x < 64,
                y < 32,
                before == old(self)@,
                before.wf(),
                rows > 0 ==> self.reg_i + rows <= MEMORY_SIZE,
                self.wf(),
                self@ == (Machine {
                    v: before.v.update(15, self.reg@[15]),
                    screen: Screen { pixels: self.display@.pixels, ..before.screen },
                    ..before
                }),
                self.display@.pixels.len() == 2048,
                self.display@.pixels == before.sprite_drawn(x as int, y as int, yline as int),
                self.reg@[15] == flag(before.sprite_collides(x as int, y as int, yline as int)),
            decreases rows - yline,
        {
            let sprite_byte = self.memory[self.reg_i + yline];
            proof {
                before.lemma_row_start(x as int, y as int, yline as int);
            }
            let mut xline: usize = 0;
            while xline < 8
                invariant
                    xline <= 8,
                    yline < rows <= 255,
                    x < 64,
                    y < 32,
                    before == old(self)@,
                    before.wf(),
                    self.reg_i + rows <= MEMORY_SIZE,
                    sprite_byte == before.memory[before.i + yline],
                    self.wf(),
                    self@ == (Machine {
                        v: before.v.update(15, self.reg@[15]),
                        screen: Screen { pixels: self.display@.pixels, ..before.screen },
                        ..before
                    }),
                    self.display@.pixels.len() == 2048,
                    self.display@.pixels == before.drawn_upto(
                        x as int,
                        y as int,
                        yline as int,
                        xline as int,
                    ),
                    self.reg@[15] == flag(
                        before.collides_upto(x as int, y as int, yline as int, xline as int),
                    ),
                decreases 8 - xline,
            {
                let sprite_bit = (sprite_byte >> (7 - xline)) & 1 == 1;
                let px = x + xline;
                let py = y + yline;
                let ghost pixels = self.display@.pixels;
                if sprite_bit && px < 64 && py < 32 {
                    if self.display.get(px, py) {
                        self.display.set(px, py, false);
                        self.reg[REG_F] = 1;
                    } else {
                        self.display.set(px, py, true);
                    }
                }
                proof {
                    assert(self.reg@ =~= before.v.update(15, self.reg@[15]));
                    before.lemma_next_column(
                        x as int,
                        y as int,
                        yline as int,
                        xline as int,
                        pixels,
                        self.display@.pixels,
                    );
                }
                xline += 1;
            }
            proof {
                before.lemma_row_end(x as int, y as int, yline as int);
            }
            yline += 1;
        }
        self.display.mark_dirty();
        Ok(())
    }
}

/// A stack failure as the failure of a run.
fn from_stack(result: Result<(), StackError>) -> (lifted: Result<(), RunError>)
    ensures
        lifted == match result {
            Ok(()) => Ok::<(), RunError>(()),
            Err(e) => Err::<(), RunError>(RunError::Stack(e)),
        },
{
    match result {
        Ok(()) => Ok(()),
        Err(e) => Err(RunError::Stack(e)),
    }
}

/// A machine failure as the failure of a run.
fn from_emu(result: Result<(), EmuError>) -> (lifted: Result<(), RunError>)
    ensures
        lifted == match result {
            Ok(()) => Ok::<(), RunError>(()),
            Err(e) => Err::<(), RunError>(RunError::Emu(e)),
        },
{
    match result {
        Ok(()) => Ok(()),
        Err(e) => Err(RunError::Emu(e)),
    }
}

impl Emulator {
    /// Carries out `instr`, with `random` as the byte that `Rand` draws.
    ///
    /// The machine ends in the state the model gives for the instruction,
    /// and the result tells whether the instruction completed. A failed
    /// instruction leaves the machine as it was, except that `StoreMem` and
    /// `LoadMem` keep what they transferred before the end of memory.
    pub fn execute_with(&mut self, instr: Instruction, random: u8, keys: &[bool]) -> (result:
        Result<(), RunError>)
        requires
            old(self).wf(),
            instr.wf(),
            keys@.len() == KEY_SIZE,
            old(self)@.can_step(instr, keys@),
        ensures
            final(self).wf(),
            final(self)@ == old(self)@.after(instr, random, keys@),
            result == old(self)@.outcome(instr),
    {
        match instr {
            Instruction::Cls => {
                self.clear_display();
                Ok(())
            },
            Instruction::Return => from_stack(self.ret()),
            Instruction::SetPC(n) => {
                self.set_pc(n);
                Ok(())
            },
            Instruction::Call(n) => from_stack(self.call(n)),
            Instruction::SeInmm(x, n) => {
                self.se_inmm(x, n);
                Ok(())
            },
            Instruction::SneInmm(x, n) => {
                self.sne_inmm(x, n);
                Ok(())
            },
            Instruction::SeReg(x, y) => {
                self.se_reg(x, y);
                Ok(())
            },
            Instruction::SneReg(x, y) => {
                self.sne_reg(x, y);
                Ok(())
            },
            Instruction::LoadInmm(x, n) => {
                self.load_inmm(x, n);
                Ok(())
            },
            Instruction::AddInmm(x, n) => {
                self.add_inmm(x, n);
                Ok(())
            },
            Instruction::LoadI(n) => {
                self.load_i(n);
                Ok(())
            },
            Instruction::Jump(n) => {
                self.jump(n);
                Ok(())
            },
            Instruction::Rand(x, n) => {
                self.rand(x, n, random);
                Ok(())
            },
            Instruction::Display(x, y, n) => from_emu(self.display(x, y, n)),
            Instruction::LoadReg(x, y) => {
                self.load_reg(x, y);
                Ok(())
            },
            Instruction::Or(x, y) => {
                self.or(x, y);
                Ok(())
            },
            Instruction::And(x, y) => {
                self.and(x, y);
                Ok(())
            },
            Instruction::Xor(x, y) => {
                self.xor(x, y);
                Ok(())
            },
            Instruction::Add(x, y) => {
                self.add_reg(x, y);
                Ok(())
            },
            Instruction::Sub(x, y) => {
                self.sub_reg(x, y);
                Ok(())
            },
            Instruction::SubRev(x, y) => {
                self.rev_sub(x, y);
                Ok(())
            },
            Instruction::ShiftRight(x, y) => {
                self.right_shift(x, y);
                Ok(())
            },
            Instruction::ShiftLeft(x, y) => {
                self.left_shift(x, y);
                Ok(())
            },
            Instruction::SkipIfKey(x) => from_emu(self.skip_key(x, keys)),
            Instruction::SkipIfNotKey(x) => from_emu(self.snkip_key(x, keys)),
            Instruction::GetDelay(x) => {
                self.get_delay(x);
                Ok(())
            },
            Instruction::WaitKey(x) => from_emu(self.wait_key(x, keys)),
            Instruction::LoadDelay(x) => {
                self.load_delay(x);
                Ok(())
            },
            Instruction::LoadSound(x) => {
                self.load_sound(x);
                Ok(())
            },
            Instruction::AddI(x) => {
                self.add_to_index(x);
                Ok(())
            },
            Instruction::LoadFont(x) => from_emu(self.load_font(x)),
            Instruction::Bcd(x) => from_emu(self.binary_dec(x)),
            Instruction::StoreMem(x) => from_emu(self.store_mem(x)),
            Instruction::LoadMem(x) => from_emu(self.load_mem(x)),
        }
    }

    /// Carries out `instr`, drawing from `rng` the byte that `Rand` needs;
    /// no other instruction touches the generator.
    ///
    /// Whatever byte is drawn, the machine ends in the state the model gives
    /// for the instruction and that byte.
    pub fn execute(&mut self, instr: Instruction, rng: &mut StdRng, keys: &[bool]) -> (result:
        Result<(), RunError>)
        requires
            old(self).wf(),
            instr.wf(),
            keys@.len() == KEY_SIZE,
            old(self)@.can_step(instr, keys@),
        ensures
            final(self).wf(),
            exists|random: u8| final(self)@ == #[trigger] old(self)@.after(instr, random, keys@),
            !(instr is Rand) ==> final(self)@ == old(self)@.after(instr, 0, keys@),
            result == old(self)@.outcome(instr),
    {
        let random: u8 = match instr {
            Instruction::Rand(_, _) => random_byte(rng),
            _ => 0,
        };
        self.execute_with(instr, random, keys)
    }

    /// One cycle: fetches the word at the program counter, decodes it and
    /// carries the instruction out, drawing from `rng` if it is `Rand`.
    ///
    /// The first failure ends the cycle: a fetch outside memory leaves the
    /// machine as it was; after a word that is no instruction the program
    /// counter has moved past it.
    pub fn cycle(&mut self, rng: &mut StdRng, keys: &[bool]) -> (result: Result<(), RunError>)
        requires
            old(self).wf(),
            keys@.len() == KEY_SIZE,
        ensures
            final(self).wf(),
            exists|random: u8| final(self)@ == #[trigger] old(self)@.after_cycle(random, keys@),
            result == old(self)@.cycle_outcome(),
    {
        let ghost before = self@;
        let raw_instr = match self.fetch() {
            Ok(word) => word,
            Err(e) => {
                assert(self@ == before.after_cycle(0, keys@));
                return Err(RunError::Emu(e));
            },
        };
        let instr = match decode(raw_instr) {
            Ok(instr) => instr,
            Err(e) => {
                assert(self@ == before.after_cycle(0, keys@));
                return Err(RunError::Decode(e));
            },
        };
        proof {
            lemma_encode_decode(raw_instr, instr);
        }
        let ghost fetched = self@;
        let result = self.execute(instr, rng, keys);
        proof {
            let random = choose|random: u8| self@ == #[trigger] fetched.after(instr, random, keys@);
            assert(self@ == before.after_cycle(random, keys@));
        }
        result
    }

    /// The value of general register `index`.
    pub fn register(&self, index: usize) -> (value: u8)
        requires
            index < REG_SIZE,
        ensures
            value == self@.v[index as int],
    {
        self.reg[index]
    }

    /// The value of the index register `I`.
    pub fn index(&self) -> (value: usize)
        ensures
            value == self@.i,
    {
        self.reg_i
    }

    /// The program counter.
    pub fn pc(&self) -> (value: usize)
        ensures
            value == self@.pc,
    {
        self.reg_pc
    }

    /// The delay timer.
    pub fn delay(&self) -> (value: u8)
        ensures
            value == self@.delay,
    {
        self.reg_delay
    }

    /// The sound timer; while it is not zero the host may sound a tone.
    pub fn sound(&self) -> (value: u8)
        ensures
            value == self@.sound,
    {
        self.reg_sound
    }

    /// The byte of memory at `addr`.
    pub fn memory_at(&self, addr: usize) -> (value: u8)
        requires
            addr < MEMORY_SIZE,
        ensures
            value == self@.memory[addr as int],
    {
        self.memory[addr]
    }

    /// The number of return addresses on the call stack.
    pub fn stack_len(&self) -> (len: usize)
        requires
            self.wf(),
        ensures
            len == self@.stack.len(),
    {
        self.stack.len()
    }
}

impl Default for Emulator {
    fn default() -> (emu: Self)
        ensures
            emu.wf(),
            emu@ == Machine::reset(true),
    {
        Emulator::new()
    }
}

} // verus!
