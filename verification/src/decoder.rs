//! Decoder for 16-bit CHIP-8 instruction words.

pub mod error;
pub mod opcodes;

use vstd::prelude::*;
use crate::decoder::error::DecodeError;
use crate::decoder::opcodes::{
    ADD, ADD_I, ADD_INMM, AND, BCD, CALL, CLS, DISPLAY, GET_DELAY, JUMP, LD_DELAY, LD_FONT, LD_I,
    LD_INMM, LD_MEM, LD_REG, LD_SOUND, OR, RAND, RET, SE_INMM, SE_REG, SET_PC, SHL, SHR, SKNP,
    SKP, SNE_INMM, SNE_REG, ST_MEM, SUB, SUBN, WAIT_KEY, XOR,
};

verus! {

/// A decoded instruction.
///
/// `x` and `y` operands are register indices, `nn` is an 8-bit immediate and
/// `nnn` a 12-bit address.
#[derive(Clone, Copy, Debug, PartialEq, Eq, Structural)]
pub enum Instruction {
    /// `00E0`
    Cls,
    /// `00EE`
    Return,
    /// `1nnn`
    SetPC(usize),
    /// `2nnn`
    Call(usize),
    /// `3xnn`
    SeInmm(usize, u8),
    /// `4xnn`
    SneInmm(usize, u8),
    /// `5xy0`
    SeReg(usize, usize),
    /// `9xy0`
    SneReg(usize, usize),
    /// `6xnn`
    LoadInmm(usize, u8),
    /// `7xnn`
    AddInmm(usize, u8),
    /// `Annn`
    LoadI(usize),
    /// `Bnnn`
    Jump(usize),
    /// `Cxnn`
    Rand(usize, u8),
    /// `Dxyn`
    Display(usize, usize, u8),
    /// `8xy0`
    LoadReg(usize, usize),
    /// `8xy1`
    Or(usize, usize),
    /// `8xy2`
    And(usize, usize),
    /// `8xy3`
    Xor(usize, usize),
    /// `8xy4`
    Add(usize, usize),
    /// `8xy5`
    Sub(usize, usize),
    /// `8xy6`
    ShiftRight(usize, usize),
    /// `8xy7`
    SubRev(usize, usize),
    /// `8xyE`
    ShiftLeft(usize, usize),
    /// `Ex9E`
    SkipIfKey(usize),
    /// `ExA1`
    SkipIfNotKey(usize),
    /// `Fx07`
    GetDelay(usize),
    /// `Fx0A`
    WaitKey(usize),
    /// `Fx15`
    LoadDelay(usize),
    /// `Fx18`
    LoadSound(usize),
    /// `Fx1E`
    AddI(usize),
    /// `Fx29`
    LoadFont(usize),
    /// `Fx33`
    Bcd(usize),
    /// `Fx55`
    StoreMem(usize),
    /// `Fx65`
    LoadMem(usize),
}

impl Instruction {
    /// Every operand fits the field of the word that carries it: register
    /// indices and the sprite height in four bits, addresses in twelve.
    pub open spec fn wf(self) -> bool {
        match self {
            Instruction::Cls | Instruction::Return => true,
            Instruction::SetPC(nnn)
            | Instruction::Call(nnn)
            | Instruction::LoadI(nnn)
            | Instruction::Jump(nnn) => nnn < 0x1000,
            Instruction::SeInmm(x, _)
            | Instruction::SneInmm(x, _)
            | Instruction::LoadInmm(x, _)
            | Instruction::AddInmm(x, _)
            | Instruction::Rand(x, _) => x < 16,
            Instruction::SeReg(x, y)
            | Instruction::SneReg(x, y)
            | Instruction::LoadReg(x, y)
            | Instruction::Or(x, y)
            | Instruction::And(x, y)
            | Instruction::Xor(x, y)
            | Instruction::Add(x, y)
            | Instruction::Sub(x, y)
            | Instruction::ShiftRight(x, y)
            | Instruction::SubRev(x, y)
            | Instruction::ShiftLeft(x, y) => x < 16 && y < 16,
            Instruction::Display(x, y, n) => x < 16 && y < 16 && n < 16,
            Instruction::SkipIfKey(x)
            | Instruction::SkipIfNotKey(x)
            | Instruction::GetDelay(x)
            | Instruction::WaitKey(x)
            | Instruction::LoadDelay(x)
            | Instruction::LoadSound(x)
            | Instruction::AddI(x)
            | Instruction::LoadFont(x)
            | Instruction::Bcd(x)
            | Instruction::StoreMem(x)
            | Instruction::LoadMem(x) => x < 16,
        }
    }

    /// The canonical word for this instruction: its row of the opcode table
    /// with the operands written into their nibbles.
    pub open spec fn encode(self) -> int {
        match self {
            Instruction::Cls => 0x00E0,
            Instruction::Return => 0x00EE,
            Instruction::SetPC(nnn) => 0x1000 + nnn,
            Instruction::Call(nnn) => 0x2000 + nnn,
            Instruction::SeInmm(x, nn) => 0x3000 + 0x100 * x + nn,
            Instruction::SneInmm(x, nn) => 0x4000 + 0x100 * x + nn,
            Instruction::SeReg(x, y) => 0x5000 + 0x100 * x + 0x10 * y,
            Instruction::LoadInmm(x, nn) => 0x6000 + 0x100 * x + nn,
            Instruction::AddInmm(x, nn) => 0x7000 + 0x100 * x + nn,
            Instruction::LoadReg(x, y) => 0x8000 + 0x100 * x + 0x10 * y,
            Instruction::Or(x, y) => 0x8001 + 0x100 * x + 0x10 * y,
            Instruction::And(x, y) => 0x8002 + 0x100 * x + 0x10 * y,
            Instruction::Xor(x, y) => 0x8003 + 0x100 * x + 0x10 * y,
            Instruction::Add(x, y) => 0x8004 + 0x100 * x + 0x10 * y,
            Instruction::Sub(x, y) => 0x8005 + 0x100 * x + 0x10 * y,
            Instruction::ShiftRight(x, y) => 0x8006 + 0x100 * x + 0x10 * y,
            Instruction::SubRev(x, y) => 0x8007 + 0x100 * x + 0x10 * y,
            Instruction::ShiftLeft(x, y) => 0x800E + 0x100 * x + 0x10 * y,
            Instruction::SneReg(x, y) => 0x9000 + 0x100 * x + 0x10 * y,
            Instruction::LoadI(nnn) => 0xA000 + nnn,
            Instruction::Jump(nnn) => 0xB000 + nnn,
            Instruction::Rand(x, nn) => 0xC000 + 0x100 * x + nn,
            Instruction::Display(x, y, n) => 0xD000 + 0x100 * x + 0x10 * y + n,
            Instruction::SkipIfKey(x) => 0xE09E + 0x100 * x,
            Instruction::SkipIfNotKey(x) => 0xE0A1 + 0x100 * x,
            Instruction::GetDelay(x) => 0xF007 + 0x100 * x,
            Instruction::WaitKey(x) => 0xF00A + 0x100 * x,
            Instruction::LoadDelay(x) => 0xF015 + 0x100 * x,
            Instruction::LoadSound(x) => 0xF018 + 0x100 * x,
            Instruction::AddI(x) => 0xF01E + 0x100 * x,
            Instruction::LoadFont(x) => 0xF029 + 0x100 * x,
            Instruction::Bcd(x) => 0xF033 + 0x100 * x,
            Instruction::StoreMem(x) => 0xF055 + 0x100 * x,
            Instruction::LoadMem(x) => 0xF065 + 0x100 * x,
        }
    }
}

/// The high nibble of a word, which selects the instruction group.
pub open spec fn group(word: u16) -> u16 {
    word / 0x1000
}

/// The `x` operand: the second nibble from the top.
pub open spec fn operand_x(word: u16) -> usize {
    ((word / 0x100) % 0x10) as usize
}

/// The `y` operand: the third nibble from the top.
pub open spec fn operand_y(word: u16) -> usize {
    ((word / 0x10) % 0x10) as usize
}

/// The `n` operand: the low nibble.
pub open spec fn operand_n(word: u16) -> u8 {
    (word % 0x10) as u8
}

/// The `nn` operand: the low byte.
pub open spec fn operand_nn(word: u16) -> u8 {
    (word % 0x100) as u8
}

/// The `nnn` operand: the low twelve bits.
pub open spec fn operand_nnn(word: u16) -> usize {
    (word % 0x1000) as usize
}

/// The instruction in group 8 that the low nibble selects, if any.
pub open spec fn decode_arithmetic(word: u16) -> Result<Instruction, DecodeError> {
    let x = operand_x(word);
    let y = operand_y(word);
    let n = operand_n(word);
    if n == 0x0 {
        Ok(Instruction::LoadReg(x, y))
    } else if n == 0x1 {
        Ok(Instruction::Or(x, y))
    } else if n == 0x2 {
        Ok(Instruction::And(x, y))
    } else if n == 0x3 {
        Ok(Instruction::Xor(x, y))
    } else if n == 0x4 {
        Ok(Instruction::Add(x, y))
    } else if n == 0x5 {
        Ok(Instruction::Sub(x, y))
    } else if n == 0x6 {
        Ok(Instruction::ShiftRight(x, y))
    } else if n == 0x7 {
        Ok(Instruction::SubRev(x, y))
    } else if n == 0xE {
        Ok(Instruction::ShiftLeft(x, y))
    } else {
        Err(DecodeError::Unknown(word))
    }
}

/// The instruction in group E that the low byte selects, if any.
pub open spec fn decode_keypad(word: u16) -> Result<Instruction, DecodeError> {
    let x = operand_x(word);
    let nn = operand_nn(word);
    if nn == 0x9E {
        Ok(Instruction::SkipIfKey(x))
    } else if nn == 0xA1 {
        Ok(Instruction::SkipIfNotKey(x))
    } else {
        Err(DecodeError::Unknown(word))
    }
}

/// The instruction in group F that the low byte selects, if any.
pub open spec fn decode_misc(word: u16) -> Result<Instruction, DecodeError> {
    let x = operand_x(word);
    let nn = operand_nn(word);
    if nn == 0x07 {
        Ok(Instruction::GetDelay(x))
    } else if nn == 0x0A {
        Ok(Instruction::WaitKey(x))
    } else if nn == 0x15 {
        Ok(Instruction::LoadDelay(x))
    } else if nn == 0x18 {
        Ok(Instruction::LoadSound(x))
    } else if nn == 0x1E {
        Ok(Instruction::AddI(x))
    } else if nn == 0x29 {
        Ok(Instruction::LoadFont(x))
    } else if nn == 0x33 {
        Ok(Instruction::Bcd(x))
    } else if nn == 0x55 {
        Ok(Instruction::StoreMem(x))
    } else if nn == 0x65 {
        Ok(Instruction::LoadMem(x))
    } else {
        Err(DecodeError::Unknown(word))
    }
}

/// What a word means: the instruction its group and operands select, or
/// `Unknown` with the word itself.
///
/// Groups 5 and 9 are selected by the high nibble alone; their low nibble is
/// not examined.
pub open spec fn decode_spec(word: u16) -> Result<Instruction, DecodeError> {
    let g = group(word);
    let x = operand_x(word);
    let y = operand_y(word);
    let nn = operand_nn(word);
    let nnn = operand_nnn(word);
    if g == 0x0 {
        if word == 0x00E0 {
            Ok(Instruction::Cls)
        } else if word == 0x00EE {
            Ok(Instruction::Return)
        } else {
            Err(DecodeError::Unknown(word))
        }
    } else if g == 0x1 {
        Ok(Instruction::SetPC(nnn))
    } else if g == 0x2 {
        Ok(Instruction::Call(nnn))
    } else if g == 0x3 {
        Ok(Instruction::SeInmm(x, nn))
    } else if g == 0x4 {
        Ok(Instruction::SneInmm(x, nn))
    } else if g == 0x5 {
        Ok(Instruction::SeReg(x, y))
    } else if g == 0x6 {
        Ok(Instruction::LoadInmm(x, nn))
    } else if g == 0x7 {
        Ok(Instruction::AddInmm(x, nn))
    } else if g == 0x8 {
        decode_arithmetic(word)
    } else if g == 0x9 {
        Ok(Instruction::SneReg(x, y))
    } else if g == 0xA {
        Ok(Instruction::LoadI(nnn))
    } else if g == 0xB {
        Ok(Instruction::Jump(nnn))
    } else if g == 0xC {
        Ok(Instruction::Rand(x, nn))
    } else if g == 0xD {
        Ok(Instruction::Display(x, y, operand_n(word)))
    } else if g == 0xE {
        decode_keypad(word)
    } else {
        decode_misc(word)
    }
}

/// The word matches a row of the opcode table: in groups 0, 8, E and F its
/// low nibble or byte is one of those listed; every other group lists all of
/// its words.
pub open spec fn listed(word: u16) -> bool {
    let g = group(word);
    let n = operand_n(word);
    let nn = operand_nn(word);
    if g == 0x0 {
        word == 0x00E0 || word == 0x00EE
    } else if g == 0x8 {
        n <= 0x7 || n == 0xE
    } else if g == 0xE {
        nn == 0x9E || nn == 0xA1
    } else if g == 0xF {
        nn == 0x07 || nn == 0x0A || nn == 0x15 || nn == 0x18 || nn == 0x1E || nn == 0x29
            || nn == 0x33 || nn == 0x55 || nn == 0x65
    } else {
        true
    }
}

/// A word assembled from four nibbles gives each of them back under
/// division and remainder.
proof fn lemma_pack(g: int, x: int, y: int, n: int)
    requires
        0 <= g < 0x10,
        0 <= x < 0x10,
        0 <= y < 0x10,
        0 <= n < 0x10,
    ensures
        ({
            let w = 0x1000 * g + 0x100 * x + 0x10 * y + n;
            &&& 0 <= w <= u16::MAX
            &&& w / 0x1000 == g
            &&& (w / 0x100) % 0x10 == x
            &&& (w / 0x10) % 0x10 == y
            &&& w % 0x10 == n
            &&& w % 0x100 == 0x10 * y + n
            &&& w % 0x1000 == 0x100 * x + 0x10 * y + n
        }),
{
}

/// A word is the sum of its four nibbles, each at its place.
proof fn lemma_unpack(w: int)
    requires
        0 <= w <= u16::MAX,
    ensures
        w == 0x1000 * (w / 0x1000) + 0x100 * ((w / 0x100) % 0x10) + 0x10 * ((w / 0x10) % 0x10) + w
            % 0x10,
        w % 0x100 == 0x10 * ((w / 0x10) % 0x10) + w % 0x10,
        w % 0x1000 == 0x100 * ((w / 0x100) % 0x10) + w % 0x100,
        0 <= w / 0x1000 < 0x10,
{
}

/// Round trip: the canonical word of a well-formed instruction fits sixteen
/// bits and decodes to that same instruction, operands included.
pub proof fn lemma_decode_encode(instr: Instruction)
    requires
        instr.wf(),
    ensures
        0 <= instr.encode() <= u16::MAX,
        decode_spec(instr.encode() as u16) == Ok::<Instruction, DecodeError>(instr),
{
    match instr {
        Instruction::Cls => {
            lemma_pack(0x0, 0x0, 0xE, 0x0);
        },
        Instruction::Return => {
            lemma_pack(0x0, 0x0, 0xE, 0xE);
        },
        Instruction::SetPC(nnn) => {
            lemma_unpack(nnn as int);
            lemma_pack(0x1, (nnn as int / 0x100) % 0x10, (nnn as int / 0x10) % 0x10, nnn as int % 0x10);
        },
        Instruction::Call(nnn) => {
            lemma_unpack(nnn as int);
            lemma_pack(0x2, (nnn as int / 0x100) % 0x10, (nnn as int / 0x10) % 0x10, nnn as int % 0x10);
        },
        Instruction::LoadI(nnn) => {
            lemma_unpack(nnn as int);
            lemma_pack(0xA, (nnn as int / 0x100) % 0x10, (nnn as int / 0x10) % 0x10, nnn as int % 0x10);
        },
        Instruction::Jump(nnn) => {
            lemma_unpack(nnn as int);
            lemma_pack(0xB, (nnn as int / 0x100) % 0x10, (nnn as int / 0x10) % 0x10, nnn as int % 0x10);
        },
        Instruction::SeInmm(x, nn) => {
            lemma_pack(0x3, x as int, nn as int / 0x10, nn as int % 0x10);
        },
        Instruction::SneInmm(x, nn) => {
            lemma_pack(0x4, x as int, nn as int / 0x10, nn as int % 0x10);
        },
        Instruction::LoadInmm(x, nn) => {
            lemma_pack(0x6, x as int, nn as int / 0x10, nn as int % 0x10);
        },
        Instruction::AddInmm(x, nn) => {
            lemma_pack(0x7, x as int, nn as int / 0x10, nn as int % 0x10);
        },
        Instruction::Rand(x, nn) => {
            lemma_pack(0xC, x as int, nn as int / 0x10, nn as int % 0x10);
        },
        Instruction::SeReg(x, y) => {
            lemma_pack(0x5, x as int, y as int, 0x0);
        },
        Instruction::SneReg(x, y) => {
            lemma_pack(0x9, x as int, y as int, 0x0);
        },
        Instruction::LoadReg(x, y) => {
            lemma_pack(0x8, x as int, y as int, 0x0);
        },
        Instruction::Or(x, y) => {
            lemma_pack(0x8, x as int, y as int, 0x1);
        },
        Instruction::And(x, y) => {
            lemma_pack(0x8, x as int, y as int, 0x2);
        },
        Instruction::Xor(x, y) => {
            lemma_pack(0x8, x as int, y as int, 0x3);
        },
        Instruction::Add(x, y) => {
            lemma_pack(0x8, x as int, y as int, 0x4);
        },
        Instruction::Sub(x, y) => {
            lemma_pack(0x8, x as int, y as int, 0x5);
        },
        Instruction::ShiftRight(x, y) => {
            lemma_pack(0x8, x as int, y as int, 0x6);
        },
        Instruction::SubRev(x, y) => {
            lemma_pack(0x8, x as int, y as int, 0x7);
        },
        Instruction::ShiftLeft(x, y) => {
            lemma_pack(0x8, x as int, y as int, 0xE);
        },
        Instruction::Display(x, y, n) => {
            lemma_pack(0xD, x as int, y as int, n as int);
        },
        Instruction::SkipIfKey(x) => {
            lemma_pack(0xE, x as int, 0x9, 0xE);
        },
        Instruction::SkipIfNotKey(x) => {
            lemma_pack(0xE, x as int, 0xA, 0x1);
        },
        Instruction::GetDelay(x) => {
            lemma_pack(0xF, x as int, 0x0, 0x7);
        },
        Instruction::WaitKey(x) => {
            lemma_pack(0xF, x as int, 0x0, 0xA);
        },
        Instruction::LoadDelay(x) => {
            lemma_pack(0xF, x as int, 0x1, 0x5);
        },
        Instruction::LoadSound(x) => {
            lemma_pack(0xF, x as int, 0x1, 0x8);
        },
        Instruction::AddI(x) => {
            lemma_pack(0xF, x as int, 0x1, 0xE);
        },
        Instruction::LoadFont(x) => {
            lemma_pack(0xF, x as int, 0x2, 0x9);
        },
        Instruction::Bcd(x) => {
            lemma_pack(0xF, x as int, 0x3, 0x3);
        },
        Instruction::StoreMem(x) => {
            lemma_pack(0xF, x as int, 0x5, 0x5);
        },
        Instruction::LoadMem(x) => {
            lemma_pack(0xF, x as int, 0x6, 0x5);
        },
    }
}

/// A word decodes to an instruction exactly when the table lists it; any
/// other word is reported as `Unknown`, carrying the word.
pub proof fn lemma_unknown_iff_unlisted(word: u16)
    ensures
        decode_spec(word) is Ok <==> listed(word),
        !listed(word) ==> decode_spec(word) == Err::<Instruction, DecodeError>(
            DecodeError::Unknown(word),
        ),
{
}

/// What decoding yields is well-formed, and its canonical word is the word
/// that was decoded (in groups 5 and 9: that word with its unexamined low
/// nibble cleared).
pub proof fn lemma_encode_decode(word: u16, instr: Instruction)
    requires
        decode_spec(word) == Ok::<Instruction, DecodeError>(instr),
    ensures
        instr.wf(),
        instr.encode() == if group(word) == 0x5 || group(word) == 0x9 {
            word - word % 0x10
        } else {
            word as int
        },
{
    lemma_unpack(word as int);
}

/// Masks and shifts extract the same fields as division and remainder.
proof fn lemma_fields(w: u16)
    by (bit_vector)
    ensures
        w & 0xF000 == (w / 0x1000) * 0x1000,
        (w & 0x0F00) >> 8 == (w / 0x100) % 0x10,
        (w & 0x00F0) >> 4 == (w / 0x10) % 0x10,
        w & 0x000F == w % 0x10,
        w & 0x00FF == w % 0x100,
        w & 0x0FFF == w % 0x1000,
        w & 0xF00F == (w / 0x1000) * 0x1000 + w % 0x10,
        w & 0xF0FF == (w / 0x1000) * 0x1000 + w % 0x100,
{
}

/// Turns a 16-bit word into the instruction it stands for.
///
/// The high nibble selects the group; groups 0, 8, E and F are then told
/// apart by their low nibble or byte. A word that matches no row of the
/// table is reported as `Unknown`, carrying the word.
pub fn decode(instr: u16) -> (result: Result<Instruction, DecodeError>)
    ensures
        result == decode_spec(instr),
{
    proof {
        lemma_fields(instr);
    }
    let opcode: u16 = instr & 0xF000;
    match opcode {
        0x0000 => match instr {
            CLS => Ok(Instruction::Cls),
            RET => Ok(Instruction::Return),
            _ => Err(DecodeError::Unknown(instr)),
        },
        SET_PC => {
            let inmm = (instr & 0x0FFF) as usize;
            Ok(Instruction::SetPC(inmm))
        },
        CALL => {
            let inmm = (instr & 0x0FFF) as usize;
            Ok(Instruction::Call(inmm))
        },
        SE_INMM => {
            let reg = ((instr & 0x0F00) >> 8) as usize;
            let inmm = (instr & 0x00FF) as u8;
            Ok(Instruction::SeInmm(reg, inmm))
        },
        SNE_INMM => {
            let reg = ((instr & 0x0F00) >> 8) as usize;
            let inmm = (instr & 0x00FF) as u8;
            Ok(Instruction::SneInmm(reg, inmm))
        },
        SE_REG => {
            let reg_x = ((instr & 0x0F00) >> 8) as usize;
            let reg_y = ((instr & 0x00F0) >> 4) as usize;
            Ok(Instruction::SeReg(reg_x, reg_y))
        },
        LD_INMM => {
            let reg = ((instr & 0x0F00) >> 8) as usize;
            let inmm = (instr & 0x00FF) as u8;
            Ok(Instruction::LoadInmm(reg, inmm))
        },
        ADD_INMM => {
            let reg = ((instr & 0x0F00) >> 8) as usize;
            let inmm = (instr & 0x00FF) as u8;
            Ok(Instruction::AddInmm(reg, inmm))
        },
        0x8000 => {
            let reg_x = ((instr & 0x0F00) >> 8) as usize;
            let reg_y = ((instr & 0x00F0) >> 4) as usize;
            let opcode: u16 = instr & 0xF00F;
            match opcode {
                LD_REG => Ok(Instruction::LoadReg(reg_x, reg_y)),
                OR => Ok(Instruction::Or(reg_x, reg_y)),
                AND => Ok(Instruction::And(reg_x, reg_y)),
                XOR => Ok(Instruction::Xor(reg_x, reg_y)),
                ADD => Ok(Instruction::Add(reg_x, reg_y)),
                SUB => Ok(Instruction::Sub(reg_x, reg_y)),
                SHR => Ok(Instruction::ShiftRight(reg_x, reg_y)),
                SUBN => Ok(Instruction::SubRev(reg_x, reg_y)),
                SHL => Ok(Instruction::ShiftLeft(reg_x, reg_y)),
                _ => Err(DecodeError::Unknown(instr)),
            }
        },
        SNE_REG => {
            let reg_x = ((instr & 0x0F00) >> 8) as usize;
            let reg_y = ((instr & 0x00F0) >> 4) as usize;
            Ok(Instruction::SneReg(reg_x, reg_y))
        },
        LD_I => {
            let inmm = (instr & 0x0FFF) as usize;
            Ok(Instruction::LoadI(inmm))
        },
        JUMP => {
            let inmm = (instr & 0x0FFF) as usize;
            Ok(Instruction::Jump(inmm))
        },
        RAND => {
            let reg = ((instr & 0x0F00) >> 8) as usize;
            let inmm = (instr & 0x00FF) as u8;
            Ok(Instruction::Rand(reg, inmm))
        },
        DISPLAY => {
            let reg_x = ((instr & 0x0F00) >> 8) as usize;
            let reg_y = ((instr & 0x00F0) >> 4) as usize;
            let inmm = (instr & 0x000F) as u8;
            Ok(Instruction::Display(reg_x, reg_y, inmm))
        },
        0xE000 => {
            let reg = ((instr & 0x0F00) >> 8) as usize;
            let opcode: u16 = instr & 0xF0FF;
            match opcode {
                SKP => Ok(Instruction::SkipIfKey(reg)),
                SKNP => Ok(Instruction::SkipIfNotKey(reg)),
                _ => Err(DecodeError::Unknown(instr)),
            }
        },
        0xF000 => {
            let reg = ((instr & 0x0F00) >> 8) as usize;
            let opcode: u16 = instr & 0xF0FF;
            match opcode {
                GET_DELAY => Ok(Instruction::GetDelay(reg)),
                WAIT_KEY => Ok(Instruction::WaitKey(reg)),
                LD_DELAY => Ok(Instruction::LoadDelay(reg)),
                LD_SOUND => Ok(Instruction::LoadSound(reg)),
                ADD_I => Ok(Instruction::AddI(reg)),
                LD_FONT => Ok(Instruction::LoadFont(reg)),
                BCD => Ok(Instruction::Bcd(reg)),
                ST_MEM => Ok(Instruction::StoreMem(reg)),
                LD_MEM => Ok(Instruction::LoadMem(reg)),
                _ => Err(DecodeError::Unknown(instr)),
            }
        },
        _ => Err(DecodeError::Unknown(instr)),
    }
}

} // verus!
