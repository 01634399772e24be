use ferret8::decoder::error::DecodeError;
use ferret8::decoder::{decode, Instruction};

#[test]
fn test_cls() {
    assert_eq!(decode(0x00E0), Ok(Instruction::Cls));
}

#[test]
fn test_ret() {
    assert_eq!(decode(0x00EE), Ok(Instruction::Return));
}

#[test]
fn test_setpc() {
    assert_eq!(decode(0x1FFF), Ok(Instruction::SetPC(0xFFF)));
}

#[test]
fn test_call() {
    assert_eq!(decode(0x2FFF), Ok(Instruction::Call(0xFFF)));
}

#[test]
fn test_seinmm() {
    assert_eq!(decode(0x3FFF), Ok(Instruction::SeInmm(0xF, 0xFF)));
}

#[test]
fn test_sneinmm() {
    assert_eq!(decode(0x4FFF), Ok(Instruction::SneInmm(0xF, 0xFF)));
}

#[test]
fn test_sereg() {
    assert_eq!(decode(0x5FF0), Ok(Instruction::SeReg(0xF, 0xF)));
}

#[test]
fn test_ldinmm() {
    assert_eq!(decode(0x6FFF), Ok(Instruction::LoadInmm(0xF, 0xFF)));
}

#[test]
fn test_sum() {
    assert_eq!(decode(0x7FFF), Ok(Instruction::AddInmm(0xF, 0xFF)));
}

#[test]
fn test_ldreg() {
    assert_eq!(decode(0x8FF0), Ok(Instruction::LoadReg(0xF, 0xF)));
}

#[test]
fn test_or() {
    assert_eq!(decode(0x8FF1), Ok(Instruction::Or(0xF, 0xF)));
}

#[test]
fn test_and() {
    assert_eq!(decode(0x8FF2), Ok(Instruction::And(0xF, 0xF)));
}

#[test]
fn test_xor() {
    assert_eq!(decode(0x8FF3), Ok(Instruction::Xor(0xF, 0xF)));
}

#[test]
fn test_add() {
    assert_eq!(decode(0x8FF4), Ok(Instruction::Add(0xF, 0xF)));
}

#[test]
fn test_sub() {
    assert_eq!(decode(0x8FF5), Ok(Instruction::Sub(0xF, 0xF)));
}

#[test]
fn test_shr() {
    assert_eq!(decode(0x8FF6), Ok(Instruction::ShiftRight(0xF, 0xF)));
}

#[test]
fn test_subn() {
    assert_eq!(decode(0x8FF7), Ok(Instruction::SubRev(0xF, 0xF)));
}

#[test]
fn test_shl() {
    assert_eq!(decode(0x8FFE), Ok(Instruction::ShiftLeft(0xF, 0xF)));
}

#[test]
fn test_snereg() {
    assert_eq!(decode(0x9FF0), Ok(Instruction::SneReg(0xF, 0xF)));
}

#[test]
fn test_ldi() {
    assert_eq!(decode(0xAFFF), Ok(Instruction::LoadI(0xFFF)));
}

#[test]
fn test_jump() {
    assert_eq!(decode(0xBFFF), Ok(Instruction::Jump(0xFFF)));
}

#[test]
fn test_rand() {
    assert_eq!(decode(0xCFFF), Ok(Instruction::Rand(0xF, 0xFF)));
}

#[test]
fn test_display() {
    assert_eq!(decode(0xDFFF), Ok(Instruction::Display(0xF, 0xF, 0xF)));
}

#[test]
fn test_skp() {
    assert_eq!(decode(0xEF9E), Ok(Instruction::SkipIfKey(0xF)));
}

#[test]
fn test_nskp() {
    assert_eq!(decode(0xEFA1), Ok(Instruction::SkipIfNotKey(0xF)));
}

#[test]
fn test_group_f() {
    assert_eq!(decode(0xFA07), Ok(Instruction::GetDelay(0xA)));
    assert_eq!(decode(0xFA0A), Ok(Instruction::WaitKey(0xA)));
    assert_eq!(decode(0xFA15), Ok(Instruction::LoadDelay(0xA)));
    assert_eq!(decode(0xFA18), Ok(Instruction::LoadSound(0xA)));
    assert_eq!(decode(0xFA1E), Ok(Instruction::AddI(0xA)));
    assert_eq!(decode(0xFA29), Ok(Instruction::LoadFont(0xA)));
    assert_eq!(decode(0xFA33), Ok(Instruction::Bcd(0xA)));
    assert_eq!(decode(0xFA55), Ok(Instruction::StoreMem(0xA)));
    assert_eq!(decode(0xFA65), Ok(Instruction::LoadMem(0xA)));
}

#[test]
fn test_operands_keep_their_nibbles() {
    assert_eq!(decode(0x1234), Ok(Instruction::SetPC(0x234)));
    assert_eq!(decode(0x3A7C), Ok(Instruction::SeInmm(0xA, 0x7C)));
    assert_eq!(decode(0x8120), Ok(Instruction::LoadReg(0x1, 0x2)));
    assert_eq!(decode(0x8AB4), Ok(Instruction::Add(0xA, 0xB)));
    assert_eq!(decode(0xD125), Ok(Instruction::Display(0x1, 0x2, 0x5)));
    assert_eq!(decode(0xE39E), Ok(Instruction::SkipIfKey(0x3)));
    assert_eq!(decode(0x6000), Ok(Instruction::LoadInmm(0x0, 0x00)));
}

#[test]
fn test_unknown_in_group_0() {
    assert_eq!(decode(0x0000), Err(DecodeError::Unknown(0x0000)));
    assert_eq!(decode(0x0123), Err(DecodeError::Unknown(0x0123)));
    assert_eq!(decode(0x00E1), Err(DecodeError::Unknown(0x00E1)));
    assert_eq!(decode(0x01E0), Err(DecodeError::Unknown(0x01E0)));
    assert_eq!(decode(0x0FFF), Err(DecodeError::Unknown(0x0FFF)));
}

#[test]
fn test_unknown_in_group_8() {
    assert_eq!(decode(0x8128), Err(DecodeError::Unknown(0x8128)));
    assert_eq!(decode(0x8129), Err(DecodeError::Unknown(0x8129)));
    assert_eq!(decode(0x812D), Err(DecodeError::Unknown(0x812D)));
    assert_eq!(decode(0x812F), Err(DecodeError::Unknown(0x812F)));
}

#[test]
fn test_unknown_in_group_e() {
    assert_eq!(decode(0xE000), Err(DecodeError::Unknown(0xE000)));
    assert_eq!(decode(0xE19F), Err(DecodeError::Unknown(0xE19F)));
    assert_eq!(decode(0xE1A0), Err(DecodeError::Unknown(0xE1A0)));
}

#[test]
fn test_unknown_in_group_f() {
    assert_eq!(decode(0xF000), Err(DecodeError::Unknown(0xF000)));
    assert_eq!(decode(0xF108), Err(DecodeError::Unknown(0xF108)));
    assert_eq!(decode(0xF1FF), Err(DecodeError::Unknown(0xF1FF)));
    assert_eq!(decode(0xF156), Err(DecodeError::Unknown(0xF156)));
}

#[test]
fn test_groups_5_and_9_ignore_low_nibble() {
    assert_eq!(decode(0x5127), Ok(Instruction::SeReg(0x1, 0x2)));
    assert_eq!(decode(0x912F), Ok(Instruction::SneReg(0x1, 0x2)));
}

#[test]
fn test_decode_is_total_and_repeatable() {
    let mut word: u16 = 0;
    loop {
        let first = decode(word);
        let second = decode(word);
        assert_eq!(first, second);
        if let Err(e) = first {
            assert_eq!(e, DecodeError::Unknown(word));
        }
        if word == u16::MAX {
            break;
        }
        word += 1;
    }
}
