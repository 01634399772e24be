//! The mathematical model of the machine: its state as plain values, and
//! what each instruction, a timer tick and a whole cycle do to it.

use vstd::prelude::*;
use crate::decoder::{decode_spec, Instruction};
use crate::emulator::display::Screen;
use crate::emulator::error::EmuError;
use crate::emulator::font::FONTS;
use crate::emulator::stack::error::StackError;
use crate::error::RunError;

verus! {

/// The state of the machine.
pub struct Machine {
    /// 4096 bytes of memory.
    pub memory: Seq<u8>,
    /// The general registers `V0` to `VF`.
    pub v: Seq<u8>,
    /// The index register `I`, sixteen bits wide.
    pub i: int,
    /// The program counter.
    pub pc: int,
    /// The delay timer.
    pub delay: u8,
    /// The sound timer.
    pub sound: u8,
    /// The return addresses, oldest first.
    pub stack: Seq<usize>,
    /// The framebuffer and its dirty flag.
    pub screen: Screen,
    /// Whether `StoreMem` and `LoadMem` leave `I` alone.
    pub modern: bool,
}

/// Bit `c` of a sprite row, counted from the left.
pub open spec fn sprite_bit(row: u8, c: int) -> bool {
    (row >> ((7 - c) as usize)) & 1 == 1
}

/// A machine failure as the failure of a run.
pub open spec fn raised(fault: Option<EmuError>) -> Option<RunError> {
    match fault {
        Some(e) => Some(RunError::Emu(e)),
        None => None,
    }
}

/// What an operation returns whose failure, if it has one, is `fault`.
pub open spec fn refusal(fault: Option<EmuError>) -> Result<(), EmuError> {
    match fault {
        Some(e) => Err(e),
        None => Ok(()),
    }
}

/// The flag register's value for a condition.
pub open spec fn flag(set: bool) -> u8 {
    if set {
        1
    } else {
        0
    }
}

impl Machine {
    /// Memory, registers and framebuffer have their sizes, the stack its
    /// bound, and `I` and the program counter fit their registers.
    pub open spec fn wf(self) -> bool {
        &&& self.memory.len() == 4096
        &&& self.v.len() == 16
        &&& 0 <= self.i <= 0xFFFF
        &&& 0 <= self.pc <= usize::MAX
        &&& self.stack.len() <= 16
        &&& self.screen.wf()
    }

    /// The state a machine starts in: everything zero but the program
    /// counter, which points at the first program byte, and the font.
    pub open spec fn reset(modern: bool) -> Machine {
        Machine {
            memory: Seq::new(
                4096,
                |a: int|
                    if 0x050 <= a < 0x0A0 {
                        FONTS@[a - 0x050]
                    } else {
                        0u8
                    },
            ),
            v: Seq::new(16, |r: int| 0u8),
            i: 0,
            pc: 0x200,
            delay: 0,
            sound: 0,
            stack: Seq::empty(),
            screen: Screen::blank(),
            modern,
        }
    }

    /// This state with register `x` holding `value`.
    pub open spec fn with_reg(self, x: int, value: u8) -> Machine {
        Machine { v: self.v.update(x, value), ..self }
    }

    /// This state with `VF` holding 1 if `set`, else 0.
    pub open spec fn with_flag(self, set: bool) -> Machine {
        self.with_reg(15, flag(set))
    }

    /// This state with the program counter at `pc`.
    pub open spec fn with_pc(self, pc: int) -> Machine {
        Machine { pc, ..self }
    }

    /// This state with the next instruction skipped if `cond` holds.
    pub open spec fn skip_if(self, cond: bool) -> Machine {
        if cond {
            self.with_pc(self.pc + 2)
        } else {
            self
        }
    }

    /// The failure of an access to the addresses `I ..= I + last`: none if
    /// all lie in memory, else the first that does not.
    pub open spec fn address_fault(self, last: int) -> Option<EmuError> {
        if self.i + last < 4096 {
            None
        } else if self.i < 4096 {
            Some(EmuError::InvalidAddress(4096))
        } else {
            Some(EmuError::InvalidAddress(self.i as usize))
        }
    }

    /// Memory after `V0 ..= Vx` were written to `I ..= I + x`, as far as
    /// those addresses lie in memory.
    pub open spec fn stored(self, x: int) -> Seq<u8> {
        Seq::new(
            4096,
            |a: int|
                if self.i <= a <= self.i + x {
                    self.v[a - self.i]
                } else {
                    self.memory[a]
                },
        )
    }

    /// The registers after `V0 ..= Vx` were read from `I ..= I + x`, as far
    /// as those addresses lie in memory.
    pub open spec fn loaded(self, x: int) -> Seq<u8> {
        Seq::new(
            16,
            |r: int|
                if r <= x && self.i + r < 4096 {
                    self.memory[self.i + r]
                } else {
                    self.v[r]
                },
        )
    }

    /// `I` after a transfer of `V0 ..= Vx`: unchanged in modern mode, else
    /// moved past the last address used.
    pub open spec fn index_after_transfer(self, x: int) -> int {
        if self.modern {
            self.i
        } else {
            (self.i + x + 1) % 0x10000
        }
    }

    /// Whether the sprite of `n` rows at `I`, placed with its top left corner
    /// at `(sx, sy)`, has a set bit on the pixel `(px, py)`. A sprite does
    /// not wrap: it reaches right and down from its corner only.
    pub open spec fn sprite_lights(self, sx: int, sy: int, n: int, px: int, py: int) -> bool {
        &&& sx <= px < sx + 8
        &&& sy <= py < sy + n
        &&& sprite_bit(self.memory[self.i + (py - sy)], px - sx)
    }

    /// Whether drawing the sprite at `(sx, sy)` turns a lit pixel off.
    pub open spec fn sprite_collides(self, sx: int, sy: int, n: int) -> bool {
        exists|k: int|
            0 <= k < 2048 && #[trigger] self.screen.pixels[k] && self.sprite_lights(
                sx,
                sy,
                n,
                k % 64,
                k / 64,
            )
    }

    /// The framebuffer after the sprite was drawn at `(sx, sy)`: each pixel
    /// under a set bit is flipped, every other is kept.
    pub open spec fn sprite_drawn(self, sx: int, sy: int, n: int) -> Seq<bool> {
        Seq::new(
            2048,
            |k: int| self.screen.pixels[k] != self.sprite_lights(sx, sy, n, k % 64, k / 64),
        )
    }

    /// The failure `instr` ends in, if it does not complete.
    pub open spec fn fault(self, instr: Instruction) -> Option<RunError> {
        match instr {
            Instruction::Return => if self.stack.len() == 0 {
                Some(RunError::Stack(StackError::Underflow))
            } else {
                None
            },
            Instruction::Call(_) => if self.stack.len() >= 16 {
                Some(RunError::Stack(StackError::Overflow))
            } else {
                None
            },
            Instruction::SkipIfKey(x) | Instruction::SkipIfNotKey(x) | Instruction::WaitKey(x) => {
                if self.v[x as int] >= 16 {
                    Some(RunError::Emu(EmuError::UnknownKey(self.v[x as int] as usize)))
                } else {
                    None
                }
            },
            Instruction::LoadFont(x) => if self.v[x as int] > 0xF {
                Some(RunError::Emu(EmuError::UnknownFont(self.v[x as int])))
            } else {
                None
            },
            Instruction::Bcd(_) => raised(self.address_fault(2)),
            Instruction::StoreMem(x) | Instruction::LoadMem(x) => raised(
                self.address_fault(x as int),
            ),
            Instruction::Display(_, _, n) => raised(self.sprite_fault(n)),
            _ => None,
        }
    }

    /// What executing `instr` returns.
    pub open spec fn outcome(self, instr: Instruction) -> Result<(), RunError> {
        match self.fault(instr) {
            Some(e) => Err(e),
            None => Ok(()),
        }
    }

    /// Whether the program counter has room for the step that `instr`
    /// takes: two forward where a skip is taken, two back where `WaitKey`
    /// finds its key up. An instruction that leaves the program counter
    /// alone, or sets it outright, asks for nothing.
    pub open spec fn can_step(self, instr: Instruction, keys: Seq<bool>) -> bool {
        match instr {
            Instruction::SeInmm(x, nn) => self.v[x as int] == nn ==> self.pc + 2 <= usize::MAX,
            Instruction::SneInmm(x, nn) => self.v[x as int] != nn ==> self.pc + 2 <= usize::MAX,
            Instruction::SeReg(x, y) => self.v[x as int] == self.v[y as int] ==> self.pc + 2
                <= usize::MAX,
            Instruction::SneReg(x, y) => self.v[x as int] != self.v[y as int] ==> self.pc + 2
                <= usize::MAX,
            Instruction::SkipIfKey(x) => self.v[x as int] < 16 && keys[self.v[x as int] as int]
                ==> self.pc + 2 <= usize::MAX,
            Instruction::SkipIfNotKey(x) => self.v[x as int] < 16 && !keys[self.v[x as int] as int]
                ==> self.pc + 2 <= usize::MAX,
            Instruction::WaitKey(x) => self.v[x as int] < 16 && !keys[self.v[x as int] as int]
                ==> self.pc >= 2,
            _ => true,
        }
    }

    /// `Cls`: every pixel off, the display flagged dirty.
    pub open spec fn cls(self) -> Machine {
        Machine { screen: self.screen.cleared(), ..self }
    }

    /// `Return`: the program counter takes the newest return address, which
    /// leaves the stack. Nothing changes if the stack is empty.
    pub open spec fn ret(self) -> Machine {
        if self.stack.len() == 0 {
            self
        } else {
            Machine { pc: self.stack.last() as int, stack: self.stack.drop_last(), ..self }
        }
    }

    /// `SetPC`: the program counter becomes `nnn`.
    pub open spec fn set_pc(self, nnn: usize) -> Machine {
        self.with_pc(nnn as int)
    }

    /// `Call`: the program counter goes onto the stack and becomes `nnn`.
    /// Nothing changes if the stack is full.
    pub open spec fn call(self, nnn: usize) -> Machine {
        if self.stack.len() >= 16 {
            self
        } else {
            Machine { pc: nnn as int, stack: self.stack.push(self.pc as usize), ..self }
        }
    }

    /// `Jump`: the program counter becomes `V0 + nnn`, wrapped to twelve
    /// bits.
    pub open spec fn jump(self, nnn: usize) -> Machine {
        self.with_pc((self.v[0] + nnn) % 4096)
    }

    /// `SeInmm`: skip if `Vx == nn`.
    pub open spec fn se_inmm(self, x: usize, nn: u8) -> Machine {
        self.skip_if(self.v[x as int] == nn)
    }

    /// `SneInmm`: skip if `Vx != nn`.
    pub open spec fn sne_inmm(self, x: usize, nn: u8) -> Machine {
        self.skip_if(self.v[x as int] != nn)
    }

    /// `SeReg`: skip if `Vx == Vy`.
    pub open spec fn se_reg(self, x: usize, y: usize) -> Machine {
        self.skip_if(self.v[x as int] == self.v[y as int])
    }

    /// `SneReg`: skip if `Vx != Vy`.
    pub open spec fn sne_reg(self, x: usize, y: usize) -> Machine {
        self.skip_if(self.v[x as int] != self.v[y as int])
    }

    /// `LoadInmm`: `Vx` becomes `nn`.
    pub open spec fn load_inmm(self, x: usize, nn: u8) -> Machine {
        self.with_reg(x as int, nn)
    }

    /// `AddInmm`: `Vx` becomes `Vx + nn` modulo 256; `VF` is not touched.
    pub open spec fn add_inmm(self, x: usize, nn: u8) -> Machine {
        self.with_reg(x as int, ((self.v[x as int] + nn) % 256) as u8)
    }

    /// `LoadI`: `I` becomes `nnn`.
    pub open spec fn load_i(self, nnn: usize) -> Machine {
        Machine { i: nnn as int, ..self }
    }

    /// `Rand`: `Vx` becomes the random byte masked with `nn`.
    pub open spec fn rand(self, x: usize, nn: u8, random: u8) -> Machine {
        self.with_reg(x as int, random & nn)
    }

    /// The failure of reading a sprite of `n` rows at `I`: that of the
    /// access to its rows, none for a sprite without rows.
    pub open spec fn sprite_fault(self, n: u8) -> Option<EmuError> {
        if n == 0 {
            None
        } else {
            self.address_fault(n - 1)
        }
    }

    /// `Display`: the sprite of `n` rows at `I` is drawn with its corner at
    /// `(Vx mod 64, Vy mod 32)`, `VF` tells whether a lit pixel went off, and
    /// the display is flagged dirty. Nothing changes if a sprite row lies
    /// outside memory.
    pub open spec fn display(self, x: usize, y: usize, n: u8) -> Machine {
        if self.sprite_fault(n) is Some {
            self
        } else {
            let sx = (self.v[x as int] % 64) as int;
            let sy = (self.v[y as int] % 32) as int;
            (Machine {
                screen: Screen { pixels: self.sprite_drawn(sx, sy, n as int), dirty: true },
                ..self
            }).with_flag(self.sprite_collides(sx, sy, n as int))
        }
    }

    /// `LoadReg`: `Vx` becomes `Vy`.
    pub open spec fn load_reg(self, x: usize, y: usize) -> Machine {
        self.with_reg(x as int, self.v[y as int])
    }

    /// `Or`: `Vx` becomes `Vx | Vy`; `VF` is not touched.
    pub open spec fn or(self, x: usize, y: usize) -> Machine {
        self.with_reg(x as int, self.v[x as int] | self.v[y as int])
    }

    /// `And`: `Vx` becomes `Vx & Vy`; `VF` is not touched.
    pub open spec fn and(self, x: usize, y: usize) -> Machine {
        self.with_reg(x as int, self.v[x as int] & self.v[y as int])
    }

    /// `Xor`: `Vx` becomes `Vx ^ Vy`; `VF` is not touched.
    pub open spec fn xor(self, x: usize, y: usize) -> Machine {
        self.with_reg(x as int, self.v[x as int] ^ self.v[y as int])
    }

    /// `Add`: `Vx` becomes `Vx + Vy` modulo 256, then `VF` becomes the
    /// carry. With `x = 15` the carry is what stays.
    pub open spec fn add_reg(self, x: usize, y: usize) -> Machine {
        let sum = self.v[x as int] + self.v[y as int];
        self.with_reg(x as int, (sum % 256) as u8).with_flag(sum > 255)
    }

    /// `Sub`: `VF` becomes 1 if `Vx > Vy`, else 0, then `Vx` becomes
    /// `Vx - Vy` modulo 256, both computed from the values before. With
    /// `x = 15` the difference is what stays.
    pub open spec fn sub_reg(self, x: usize, y: usize) -> Machine {
        let minuend = self.v[x as int];
        let subtrahend = self.v[y as int];
        self.with_flag(minuend > subtrahend).with_reg(
            x as int,
            ((minuend - subtrahend) % 256) as u8,
        )
    }

    /// `SubRev`: as `Sub` with the operands exchanged: `VF` becomes 1 if
    /// `Vy > Vx`, then `Vx` becomes `Vy - Vx` modulo 256.
    pub open spec fn rev_sub(self, x: usize, y: usize) -> Machine {
        let minuend = self.v[y as int];
        let subtrahend = self.v[x as int];
        self.with_flag(minuend > subtrahend).with_reg(
            x as int,
            ((minuend - subtrahend) % 256) as u8,
        )
    }

    /// `ShiftRight`: `VF` becomes the low bit of `Vy`, then `Vx` becomes
    /// `Vy >> 1`, both taken from `Vy` as it was before the instruction.
    /// With `x = 15` the shifted value is what stays.
    pub open spec fn right_shift(self, x: usize, y: usize) -> Machine {
        let operand = self.v[y as int];
        self.with_flag(operand & 1 == 1).with_reg(x as int, operand >> 1)
    }

    /// `ShiftLeft`: `VF` becomes the high bit of `Vy`, then `Vx` becomes
    /// `Vy << 1`, cut to eight bits, both taken from `Vy` as it was before
    /// the instruction. With `x = 15` the shifted value is what stays.
    pub open spec fn left_shift(self, x: usize, y: usize) -> Machine {
        let operand = self.v[y as int];
        self.with_flag((operand >> 7) & 1 == 1).with_reg(x as int, operand << 1)
    }

    /// `SkipIfKey`: skip if the key numbered `Vx` is down. Nothing changes
    /// if `Vx` is no key.
    pub open spec fn skip_key(self, x: usize, keys: Seq<bool>) -> Machine {
        if self.v[x as int] >= 16 {
            self
        } else {
            self.skip_if(keys[self.v[x as int] as int])
        }
    }

    /// `SkipIfNotKey`: skip if the key numbered `Vx` is up. Nothing changes
    /// if `Vx` is no key.
    pub open spec fn snkip_key(self, x: usize, keys: Seq<bool>) -> Machine {
        if self.v[x as int] >= 16 {
            self
        } else {
            self.skip_if(!keys[self.v[x as int] as int])
        }
    }

    /// `WaitKey`: while the key numbered `Vx` is up, the program counter
    /// steps back by two, onto this instruction. Nothing changes if the key
    /// is down, or if `Vx` is no key.
    pub open spec fn wait_key(self, x: usize, keys: Seq<bool>) -> Machine {
        if self.v[x as int] >= 16 || keys[self.v[x as int] as int] {
            self
        } else {
            self.with_pc(self.pc - 2)
        }
    }

    /// `GetDelay`: `Vx` becomes the delay timer.
    pub open spec fn get_delay(self, x: usize) -> Machine {
        self.with_reg(x as int, self.delay)
    }

    /// `LoadDelay`: the delay timer becomes `Vx`.
    pub open spec fn load_delay(self, x: usize) -> Machine {
        Machine { delay: self.v[x as int], ..self }
    }

    /// `LoadSound`: the sound timer becomes `Vx`.
    pub open spec fn load_sound(self, x: usize) -> Machine {
        Machine { sound: self.v[x as int], ..self }
    }

    /// `AddI`: `I` becomes `I + Vx`, and `VF` tells whether that sum is
    /// above `0x0FFF`. `I` keeps all sixteen bits of the sum.
    pub open spec fn add_to_index(self, x: usize) -> Machine {
        let sum = self.i + self.v[x as int];
        (Machine { i: sum % 0x10000, ..self }).with_flag(sum > 0x0FFF)
    }

    /// `LoadFont`: `I` becomes the address of the glyph for the digit `Vx`.
    /// Nothing changes if `Vx` is no digit.
    pub open spec fn load_font(self, x: usize) -> Machine {
        if self.v[x as int] > 0xF {
            self
        } else {
            Machine { i: 0x050 + 5 * self.v[x as int], ..self }
        }
    }

    /// `Bcd`: the hundreds, tens and units of `Vx` are written to `I`,
    /// `I + 1` and `I + 2`. Nothing changes unless all three lie in memory.
    pub open spec fn binary_dec(self, x: usize) -> Machine {
        let value = self.v[x as int];
        if self.address_fault(2) is Some {
            self
        } else {
            Machine {
                memory: self.memory.update(self.i, value / 100).update(
                    self.i + 1,
                    (value / 10) % 10,
                ).update(self.i + 2, value % 10),
                ..self
            }
        }
    }

    /// `StoreMem`: `V0 ..= Vx` are written to `I ..= I + x`. If that runs
    /// past the end of memory, what fits is written and `I` stays.
    pub open spec fn store_mem(self, x: usize) -> Machine {
        Machine {
            memory: self.stored(x as int),
            i: if self.address_fault(x as int) is Some {
                self.i
            } else {
                self.index_after_transfer(x as int)
            },
            ..self
        }
    }

    /// `LoadMem`: `V0 ..= Vx` are read from `I ..= I + x`. If that runs
    /// past the end of memory, what lies within is read and `I` stays.
    pub open spec fn load_mem(self, x: usize) -> Machine {
        Machine {
            v: self.loaded(x as int),
            i: if self.address_fault(x as int) is Some {
                self.i
            } else {
                self.index_after_transfer(x as int)
            },
            ..self
        }
    }

    /// The state after `instr`, where `random` is the byte drawn for `Rand`
    /// and `keys` the keypad.
    ///
    /// An instruction that fails leaves the state as it was, except for
    /// `StoreMem` and `LoadMem`, which keep what they transferred before
    /// they reached the end of memory.
    pub open spec fn after(self, instr: Instruction, random: u8, keys: Seq<bool>) -> Machine {
        match instr {
            Instruction::Cls => self.cls(),
            Instruction::Return => self.ret(),
            Instruction::SetPC(nnn) => self.set_pc(nnn),
            Instruction::Call(nnn) => self.call(nnn),
            Instruction::SeInmm(x, nn) => self.se_inmm(x, nn),
            Instruction::SneInmm(x, nn) => self.sne_inmm(x, nn),
            Instruction::SeReg(x, y) => self.se_reg(x, y),
            Instruction::SneReg(x, y) => self.sne_reg(x, y),
            Instruction::LoadInmm(x, nn) => self.load_inmm(x, nn),
            Instruction::AddInmm(x, nn) => self.add_inmm(x, nn),
            Instruction::LoadI(nnn) => self.load_i(nnn),
            Instruction::Jump(nnn) => self.jump(nnn),
            Instruction::Rand(x, nn) => self.rand(x, nn, random),
            Instruction::Display(x, y, n) => self.display(x, y, n),
            Instruction::LoadReg(x, y) => self.load_reg(x, y),
            Instruction::Or(x, y) => self.or(x, y),
            Instruction::And(x, y) => self.and(x, y),
            Instruction::Xor(x, y) => self.xor(x, y),
            Instruction::Add(x, y) => self.add_reg(x, y),
            Instruction::Sub(x, y) => self.sub_reg(x, y),
            Instruction::SubRev(x, y) => self.rev_sub(x, y),
            Instruction::ShiftRight(x, y) => self.right_shift(x, y),
            Instruction::ShiftLeft(x, y) => self.left_shift(x, y),
            Instruction::SkipIfKey(x) => self.skip_key(x, keys),
            Instruction::SkipIfNotKey(x) => self.snkip_key(x, keys),
            Instruction::GetDelay(x) => self.get_delay(x),
            Instruction::WaitKey(x) => self.wait_key(x, keys),
            Instruction::LoadDelay(x) => self.load_delay(x),
            Instruction::LoadSound(x) => self.load_sound(x),
            Instruction::AddI(x) => self.add_to_index(x),
            Instruction::LoadFont(x) => self.load_font(x),
            Instruction::Bcd(x) => self.binary_dec(x),
            Instruction::StoreMem(x) => self.store_mem(x),
            Instruction::LoadMem(x) => self.load_mem(x),
        }
    }

    /// What one cycle returns: the failure of the fetch, of decoding, or of
    /// the instruction, whichever comes first.
    pub open spec fn cycle_outcome(self) -> Result<(), RunError> {
        if !self.can_fetch() {
            Err(RunError::Emu(EmuError::InvalidAddress(self.pc as usize)))
        } else {
            match decode_spec(self.word_at(self.pc)) {
                Err(e) => Err(RunError::Decode(e)),
                Ok(instr) => self.with_pc(self.pc + 2).outcome(instr),
            }
        }
    }

    /// The state after one cycle: the program counter moves past the word
    /// it pointed at, then the instruction in that word takes effect. A
    /// fetch outside memory changes nothing.
    pub open spec fn after_cycle(self, random: u8, keys: Seq<bool>) -> Machine {
        if !self.can_fetch() {
            self
        } else {
            let fetched = self.with_pc(self.pc + 2);
            match decode_spec(self.word_at(self.pc)) {
                Err(_) => fetched,
                Ok(instr) => fetched.after(instr, random, keys),
            }
        }
    }

    /// The state after one timer tick: each timer that is not yet zero
    /// counts down by one.
    pub open spec fn ticked(self) -> Machine {
        Machine {
            delay: if self.delay > 0 {
                (self.delay - 1) as u8
            } else {
                self.delay
            },
            sound: if self.sound > 0 {
                (self.sound - 1) as u8
            } else {
                self.sound
            },
            ..self
        }
    }

    /// The big-endian word at `addr`.
    pub open spec fn word_at(self, addr: int) -> u16 {
        (self.memory[addr] * 256 + self.memory[addr + 1]) as u16
    }

    /// Whether a word can be fetched: both of its bytes lie in memory.
    pub open spec fn can_fetch(self) -> bool {
        self.pc + 1 < 4096
    }

    /// Memory after `program` was copied to address `0x200`.
    pub open spec fn with_program(self, program: Seq<u8>) -> Machine {
        Machine {
            memory: Seq::new(
                4096,
                |a: int|
                    if 0x200 <= a < 0x200 + program.len() {
                        program[a - 0x200]
                    } else {
                        self.memory[a]
                    },
            ),
            ..self
        }
    }
}

} // verus!
