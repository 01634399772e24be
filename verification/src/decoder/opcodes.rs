//! Bit patterns of the instruction set, with operand nibbles zeroed.

use vstd::prelude::*;

verus! {

// Instructions identified by their high nibble alone.
/// `1nnn`: set the program counter to `nnn`.
pub const SET_PC: u16 = 0x1000;
/// `2nnn`: call the subroutine at `nnn`.
pub const CALL: u16 = 0x2000;
/// `3xnn`: skip the next instruction if `Vx == nn`.
pub const SE_INMM: u16 = 0x3000;
/// `4xnn`: skip the next instruction if `Vx != nn`.
pub const SNE_INMM: u16 = 0x4000;
/// `5xy0`: skip the next instruction if `Vx == Vy`.
pub const SE_REG: u16 = 0x5000;
/// `6xnn`: put `nn` into `Vx`.
pub const LD_INMM: u16 = 0x6000;
/// `7xnn`: add `nn` to `Vx` without touching the flag register.
pub const ADD_INMM: u16 = 0x7000;
/// `9xy0`: skip the next instruction if `Vx != Vy`.
pub const SNE_REG: u16 = 0x9000;
/// `Annn`: set the index register to `nnn`.
pub const LD_I: u16 = 0xA000;
/// `Bnnn`: jump to `V0 + nnn`.
pub const JUMP: u16 = 0xB000;
/// `Cxnn`: store a random byte masked with `nn` in `Vx`.
pub const RAND: u16 = 0xC000;
/// `Dxyn`: draw an `n`-row sprite at `(Vx, Vy)`.
pub const DISPLAY: u16 = 0xD000;

// Group 0: told apart by the whole word.
/// `00E0`: clear the display.
pub const CLS: u16 = 0x00E0;
/// `00EE`: return from a subroutine.
pub const RET: u16 = 0x00EE;

// Group 8: told apart by the low nibble.
/// `8xy0`: copy `Vy` into `Vx`.
pub const LD_REG: u16 = 0x8000;
/// `8xy1`: `Vx |= Vy`.
pub const OR: u16 = 0x8001;
/// `8xy2`: `Vx &= Vy`.
pub const AND: u16 = 0x8002;
/// `8xy3`: `Vx ^= Vy`.
pub const XOR: u16 = 0x8003;
/// `8xy4`: `Vx += Vy`, carry in `VF`.
pub const ADD: u16 = 0x8004;
/// `8xy5`: `Vx -= Vy`, `VF` set when `Vx > Vy`.
pub const SUB: u16 = 0x8005;
/// `8xy6`: `Vx = Vy >> 1`, shifted-out bit in `VF`.
pub const SHR: u16 = 0x8006;
/// `8xy7`: `Vx = Vy - Vx`, `VF` set when `Vy > Vx`.
pub const SUBN: u16 = 0x8007;
/// `8xyE`: `Vx = Vy << 1`, shifted-out bit in `VF`.
pub const SHL: u16 = 0x800E;

// Group E: told apart by the low byte.
/// `Ex9E`: skip the next instruction if the key in `Vx` is down.
pub const SKP: u16 = 0xE09E;
/// `ExA1`: skip the next instruction if the key in `Vx` is up.
pub const SKNP: u16 = 0xE0A1;

// Group F: told apart by the low byte.
/// `Fx07`: read the delay timer into `Vx`.
pub const GET_DELAY: u16 = 0xF007;
/// `Fx0A`: stall until the key in `Vx` is down.
pub const WAIT_KEY: u16 = 0xF00A;
/// `Fx15`: load the delay timer from `Vx`.
pub const LD_DELAY: u16 = 0xF015;
/// `Fx18`: load the sound timer from `Vx`.
pub const LD_SOUND: u16 = 0xF018;
/// `Fx1E`: add `Vx` to the index register.
pub const ADD_I: u16 = 0xF01E;
/// `Fx29`: point the index register at the glyph for `Vx`.
pub const LD_FONT: u16 = 0xF029;
/// `Fx33`: store the decimal digits of `Vx` at `I`, `I+1`, `I+2`.
pub const BCD: u16 = 0xF033;
/// `Fx55`: store `V0..=Vx` in memory starting at `I`.
pub const ST_MEM: u16 = 0xF055;
/// `Fx65`: load `V0..=Vx` from memory starting at `I`.
pub const LD_MEM: u16 = 0xF065;

} // verus!
