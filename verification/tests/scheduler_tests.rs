use ferret8::config::Config;
use ferret8::decoder::error::DecodeError;
use ferret8::decoder::Instruction;
use ferret8::emulator::Emulator;
use ferret8::error::RunError;
use ferret8::scheduler::{Scheduler, TARGET_FPS};
use rand::rngs::StdRng;
use rand::SeedableRng;

const NO_KEYS: [bool; 16] = [false; 16];

fn counting_machine() -> Emulator {
    let mut program = Vec::new();
    for _ in 0..200 {
        program.push(0x70);
        program.push(0x01);
    }
    let mut emu = Emulator::new();
    emu.load_program(&program).unwrap();
    emu
}

#[test]
fn test_cycles_per_frame() {
    assert_eq!(TARGET_FPS, 60);
    assert_eq!(Scheduler::new(700).cycles_per_frame(), 11);
    assert_eq!(Scheduler::new(0).cycles_per_frame(), 1);
    assert_eq!(Scheduler::new(1).cycles_per_frame(), 1);
    assert_eq!(Scheduler::new(59).cycles_per_frame(), 1);
    assert_eq!(Scheduler::new(60).cycles_per_frame(), 1);
    assert_eq!(Scheduler::new(119).cycles_per_frame(), 1);
    assert_eq!(Scheduler::new(120).cycles_per_frame(), 2);
    assert_eq!(Scheduler::new(6000).cycles_per_frame(), 100);
}

#[test]
fn test_default_config() {
    let config = Config::default();
    assert_eq!(config.cycles_per_second, 700);
    assert_eq!(config.upscale_factor, 20);
    assert_eq!(config.modern_compatibility, true);
    assert_eq!(Scheduler::new(config.cycles_per_second).cycles_per_frame(), 11);
}

#[test]
fn test_frame_runs_exactly_its_cycles() {
    for cycles_per_second in [0usize, 1, 59, 60, 61, 120, 700, 6000] {
        let scheduler = Scheduler::new(cycles_per_second);
        let expected = std::cmp::max(1, cycles_per_second / 60);
        let mut emu = counting_machine();
        let mut rng = StdRng::seed_from_u64(3);
        assert_eq!(scheduler.run_frame(&mut emu, &mut rng, &NO_KEYS), Ok(()));
        assert_eq!(emu.register(0) as usize, expected);
        assert_eq!(emu.pc(), 0x200 + 2 * expected);
    }
}

#[test]
fn test_frame_ticks_timers_once() {
    for cycles_per_second in [0usize, 60, 700, 6000] {
        let scheduler = Scheduler::new(cycles_per_second);
        let mut emu = counting_machine();
        emu.execute_with(Instruction::LoadInmm(1, 10), 0, &NO_KEYS).unwrap();
        emu.execute_with(Instruction::LoadDelay(1), 0, &NO_KEYS).unwrap();
        emu.execute_with(Instruction::LoadInmm(1, 1), 0, &NO_KEYS).unwrap();
        emu.execute_with(Instruction::LoadSound(1), 0, &NO_KEYS).unwrap();
        let mut rng = StdRng::seed_from_u64(3);
        scheduler.run_frame(&mut emu, &mut rng, &NO_KEYS).unwrap();
        assert_eq!(emu.delay(), 9);
        assert_eq!(emu.sound(), 0);
        emu.execute_with(Instruction::SetPC(0x200), 0, &NO_KEYS).unwrap();
        scheduler.run_frame(&mut emu, &mut rng, &NO_KEYS).unwrap();
        assert_eq!(emu.delay(), 8);
        assert_eq!(emu.sound(), 0);
    }
}

#[test]
fn test_timers_tick_before_the_cycles() {
    let mut emu = Emulator::new();
    emu.load_program(&[0x60, 0x05, 0xF0, 0x15, 0xF1, 0x07]).unwrap();
    let scheduler = Scheduler::new(180);
    let mut rng = StdRng::seed_from_u64(3);
    scheduler.run_frame(&mut emu, &mut rng, &NO_KEYS).unwrap();
    assert_eq!(emu.delay(), 5);
    assert_eq!(emu.register(1), 5);
}

#[test]
fn test_frame_stops_at_first_failure() {
    let mut emu = Emulator::new();
    emu.load_program(&[0x70, 0x01, 0x70, 0x01, 0xFF, 0xFF, 0x70, 0x01]).unwrap();
    let scheduler = Scheduler::new(600);
    let mut rng = StdRng::seed_from_u64(3);
    assert_eq!(
        scheduler.run_frame(&mut emu, &mut rng, &NO_KEYS),
        Err(RunError::Decode(DecodeError::Unknown(0xFFFF)))
    );
    assert_eq!(emu.register(0), 2);
    assert_eq!(emu.pc(), 0x206);
}

#[test]
fn test_frame_passes_keys_to_every_cycle() {
    let mut emu = Emulator::new();
    emu.load_program(&[0x61, 0x07, 0xE1, 0x9E, 0x70, 0x01, 0xE1, 0xA1, 0x70, 0x02, 0x70, 0x04])
        .unwrap();
    let mut keys = [false; 16];
    keys[7] = true;
    let scheduler = Scheduler::new(300);
    let mut rng = StdRng::seed_from_u64(3);
    scheduler.run_frame(&mut emu, &mut rng, &keys).unwrap();
    assert_eq!(emu.register(0), 6);
    assert_eq!(emu.pc(), 0x20C);
}
