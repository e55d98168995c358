use threemu::address_space::{Backing, Target};
use threemu::emulator::{describe_build_error, initial_register, BuildError};
use threemu::firm::FirmError;
use threemu::memory::{Cpu, LoadError};
use threemu::scheduler::{RunOutcome, RunRequest};
use threemu::{ArmRegister, EmulatorConfig, EmulatorCore, QuantumResult, StopReason};

/// An engine that steps four bytes per instruction and honours its breakpoint.
fn straight(request: RunRequest) -> RunOutcome {
    let mut pc = request.start_pc;
    let mut left = request.count;
    while left > 0 && pc != request.stop_pc {
        pc += 4;
        left -= 1;
    }
    RunOutcome { fault: None, pc }
}

/// An engine that faults at once.
fn faulty(_request: RunRequest) -> RunOutcome {
    RunOutcome { fault: Some("INSN_INVALID".to_string()), pc: 0xDEAD }
}

fn firm(sections: &[(u32, u32, &[u8])]) -> Vec<u8> {
    let mut data = vec![0u8; 0x200];
    data[0..4].copy_from_slice(b"FIRM");
    data[0x08..0x0C].copy_from_slice(&0x2000_0000u32.to_le_bytes());
    data[0x0C..0x10].copy_from_slice(&0x0800_0000u32.to_le_bytes());
    for (i, (load_address, size, bytes)) in sections.iter().enumerate() {
        let base = 0x40 + i * 0x30;
        let offset = data.len() as u32;
        data[base..base + 4].copy_from_slice(&offset.to_le_bytes());
        data[base + 4..base + 8].copy_from_slice(&load_address.to_le_bytes());
        data[base + 8..base + 12].copy_from_slice(&size.to_le_bytes());
        data.extend_from_slice(bytes);
    }
    data
}

fn config(arm9_stop: Option<u64>, arm11_stop: Option<u64>) -> EmulatorConfig {
    EmulatorConfig {
        sd_card: None,
        arm9_stop_pc: arm9_stop,
        arm11_stop_pc: arm11_stop,
        max_instructions: None,
        timeout_ms: None,
    }
}

#[test]
fn the_default_configuration_sets_nothing() {
    let c = EmulatorConfig::default();
    assert!(c.sd_card.is_none());
    assert_eq!(c.arm9_stop_pc, None);
    assert_eq!(c.arm11_stop_pc, None);
    assert_eq!(c.max_instructions, None);
    assert_eq!(c.timeout_ms, None);
}

#[test]
fn a_machine_starts_at_the_entry_points_with_its_sections_loaded() {
    let data = firm(&[
        (0x0800_0000, 4, &[0xA1, 0xA2, 0xA3, 0xA4]),
        (0x2000_0000, 3, &[0xB1, 0xB2, 0xB3]),
        (0x1FF8_0010, 2, &[0xC1, 0xC2]),
    ]);
    let core = EmulatorCore::new(&data, EmulatorConfig::default()).unwrap();
    assert_eq!(core.arm9_pc(), 0x0800_0000);
    assert_eq!(core.arm11_pc(), 0x2000_0000);
    assert!(!core.arm9_stopped());
    assert!(!core.arm11_stopped());
    assert_eq!(core.total_executed(), 0);
    assert_eq!(core.arm9_mem_read(0x0800_0000, 4), Ok(vec![0xA1, 0xA2, 0xA3, 0xA4]));
    assert_eq!(core.arm11_mem_read(0x2000_0000, 3), Ok(vec![0xB1, 0xB2, 0xB3]));
    assert_eq!(core.arm9_mem_read(0x2000_0000, 3), Ok(vec![0xB1, 0xB2, 0xB3]));
    assert_eq!(core.arm11_mem_read(0x1FF8_0010, 2), Ok(vec![0xC1, 0xC2]));
    assert_eq!(core.fcram()[..4], [0xB1, 0xB2, 0xB3, 0]);
    assert_eq!(core.fcram().len(), 128 * 1024 * 1024);
    assert_eq!(core.vram().len(), 6 * 1024 * 1024);
    assert_eq!(core.scheduler().config().arm9_quantum, 223_333);
    assert_eq!(core.scheduler().config().arm11_quantum, 446_666);
}

#[test]
fn the_boot_rom_window_is_mapped_for_the_coprocessor() {
    let core = EmulatorCore::new(&firm(&[]), EmulatorConfig::default()).unwrap();
    assert_eq!(
        core.memory().space(Cpu::Arm9).resolve(0xFFFF_0198),
        Some((Target::Ram(Backing::Arm9Bootrom), 0x198))
    );
    assert_eq!(core.memory().space(Cpu::Arm11).resolve(0xFFFF_0198), None);
    assert_eq!(core.memory().space(Cpu::Arm9).len(), 10);
    assert_eq!(core.arm9_mem_read(0xFFFF_FFFF, 1), Ok(vec![0]));
}

#[test]
fn reads_of_what_is_no_memory_fail_with_a_message() {
    let core = EmulatorCore::new(&firm(&[]), EmulatorConfig::default()).unwrap();
    assert_eq!(
        core.arm11_mem_read(0x0800_0000, 1),
        Err("ARM11 mem read error: READ_UNMAPPED".to_string())
    );
    assert_eq!(
        core.arm9_mem_read(0x1000_6000, 4),
        Err("ARM9 mem read error: READ_UNMAPPED".to_string())
    );
}

#[test]
fn a_malformed_container_is_refused_with_a_message() {
    let r = EmulatorCore::new(&[0u8; 0x1FF], EmulatorConfig::default());
    assert_eq!(r.err(), Some("Failed to parse FIRM: FileTooSmall".to_string()));
    let mut data = firm(&[]);
    data[0] = b'X';
    let r = EmulatorCore::new(&data, EmulatorConfig::default());
    assert_eq!(r.err(), Some("Failed to parse FIRM: InvalidMagic".to_string()));
    assert_eq!(
        EmulatorCore::build(&data, &EmulatorConfig::default()).err(),
        Some(BuildError::Firm(FirmError::InvalidMagic))
    );
}

#[test]
fn a_section_that_cannot_be_loaded_is_refused_with_a_message() {
    let data = firm(&[(0x3000_0000, 4, &[1, 2, 3, 4])]);
    assert_eq!(
        EmulatorCore::build(&data, &EmulatorConfig::default()).err(),
        Some(BuildError::Load(LoadError::Unmapped { index: 0 }))
    );
    assert_eq!(
        EmulatorCore::new(&data, EmulatorConfig::default()).err(),
        Some("Failed to load FIRM: failed to write section data".to_string())
    );
    let data = firm(&[(0x2000_0000, 5, &[1, 2, 3, 4])]);
    assert_eq!(
        EmulatorCore::build(&data, &EmulatorConfig::default()).err(),
        Some(BuildError::Load(LoadError::OutOfBounds { index: 0 }))
    );
    assert_eq!(
        EmulatorCore::new(&data, EmulatorConfig::default()).err(),
        Some("Failed to load FIRM: section data lies outside the file".to_string())
    );
    assert_eq!(
        describe_build_error(BuildError::Firm(FirmError::FileTooSmall)),
        "Failed to parse FIRM: FileTooSmall"
    );
}

#[test]
fn stop_conditions_are_taken_from_the_configuration() {
    let data = firm(&[]);
    let c = EmulatorConfig {
        sd_card: None,
        arm9_stop_pc: Some(0x0800_0000),
        arm11_stop_pc: Some(0xF000_0000),
        max_instructions: Some(5),
        timeout_ms: Some(250),
    };
    let core = EmulatorCore::new(&data, c).unwrap();
    let sc = core.scheduler().config();
    assert_eq!(sc.arm9_stop_pc, Some(0x0800_0000));
    assert_eq!(sc.arm11_stop_pc, Some(0xF000_0000));
    assert_eq!(sc.max_instructions, Some(5));
    // The coprocessor stands at its stop address, but nothing has run: the run goes on.
    assert!(!core.should_stop(0));
    assert_eq!(core.stop_reason(0), None);
}

#[test]
fn a_timeout_is_a_timeout_while_one_processor_still_runs() {
    let data = firm(&[]);
    let mut c = config(Some(0x0800_0000), None);
    c.timeout_ms = Some(250);
    let mut core = EmulatorCore::new(&data, c).unwrap();
    assert_eq!(core.run_once(&mut straight, &mut straight, 0), None);
    assert!(core.arm9_stopped());
    assert!(!core.arm11_stopped());
    assert_eq!(core.stop_reason(249), None);
    assert_eq!(core.stop_reason(250), Some(StopReason::Timeout));
    assert_eq!(core.run_once(&mut straight, &mut straight, 250), Some(StopReason::Timeout));
    assert_eq!(core.exit_code(&StopReason::Timeout, Some(0x0800_0000), None), 1);
}

#[test]
fn a_stop_condition_takes_precedence_over_the_timeout() {
    let data = firm(&[]);
    let mut c = config(Some(0x0800_0000), Some(0x2000_0000));
    c.timeout_ms = Some(250);
    let mut core = EmulatorCore::new(&data, c).unwrap();
    assert_eq!(core.run_once(&mut straight, &mut straight, 0), None);
    assert_eq!(core.stop_reason(1000), Some(StopReason::StopCondition));
    let mut c = config(None, None);
    c.max_instructions = Some(1);
    c.timeout_ms = Some(250);
    let mut core = EmulatorCore::new(&data, c).unwrap();
    assert_eq!(core.stop_reason(1000), Some(StopReason::Timeout));
    assert_eq!(core.run_once(&mut straight, &mut straight, 0), None);
    assert_eq!(core.stop_reason(1000), Some(StopReason::StopCondition));
}

#[test]
fn a_stop_address_at_the_entry_point_is_reached_in_the_first_round() {
    let data = firm(&[]);
    let mut core =
        EmulatorCore::new(&data, config(Some(0x0800_0000), Some(0x2000_0000))).unwrap();
    assert_eq!(core.run_once(&mut straight, &mut straight, 0), None);
    assert!(core.arm9_stopped());
    assert!(core.arm11_stopped());
    assert_eq!(core.arm9_pc(), 0x0800_0000);
    let end = core.run_once(&mut straight, &mut straight, 0);
    assert_eq!(end, Some(StopReason::StopCondition));
    assert_eq!(
        core.exit_code(&StopReason::StopCondition, Some(0x0800_0000), Some(0x2000_0000)),
        0
    );
}

#[test]
fn the_timeout_ends_a_run_that_nothing_else_ends() {
    let data = firm(&[]);
    let mut c = config(None, None);
    c.timeout_ms = Some(250);
    let core = EmulatorCore::new(&data, c).unwrap();
    assert!(!core.should_stop(249));
    assert_eq!(core.stop_reason(249), None);
    assert!(core.should_stop(250));
    assert_eq!(core.stop_reason(250), Some(StopReason::Timeout));
    let core = EmulatorCore::new(&data, config(None, None)).unwrap();
    assert!(!core.should_stop(u64::MAX));
    assert_eq!(core.stop_reason(u64::MAX), None);
}

#[test]
fn a_step_runs_one_round() {
    let data = firm(&[]);
    let mut core = EmulatorCore::new(&data, config(None, None)).unwrap();
    assert!(core.can_step());
    assert_eq!(core.step(&mut straight, &mut straight), QuantumResult::Continue);
    assert_eq!(core.total_executed(), 223_333 + 446_666);
    assert_eq!(core.arm9_pc(), 0x0800_0000 + 4 * 223_333);
    assert_eq!(core.arm11_pc(), 0x2000_0000 + 4 * 446_666);
    assert_eq!(
        core.step(&mut straight, &mut faulty),
        QuantumResult::Error("ARM11: INSN_INVALID".to_string())
    );
    assert_eq!(core.total_executed(), 2 * 223_333 + 446_666);
}

#[test]
fn a_run_goes_turn_by_turn_until_it_ends() {
    let data = firm(&[]);
    let stop9 = 0x0800_0000 + 4 * 223_333 * 2;
    let stop11 = 0x2000_0000 + 4 * 446_666;
    let mut core = EmulatorCore::new(&data, config(Some(stop9), Some(stop11))).unwrap();
    assert_eq!(core.run_once(&mut straight, &mut straight, 0), None);
    assert!(core.arm11_stopped());
    assert!(!core.arm9_stopped());
    // The coprocessor still runs: the run goes on for one more round.
    assert_eq!(core.run_once(&mut straight, &mut straight, 0), None);
    assert!(core.arm9_stopped());
    assert_eq!(core.total_executed(), 2 * 223_333 + 446_666);
    assert_eq!(core.run_once(&mut straight, &mut straight, 0), Some(StopReason::StopCondition));
    assert_eq!(core.total_executed(), 2 * 223_333 + 446_666);

    let mut core = EmulatorCore::new(&data, config(None, None)).unwrap();
    assert_eq!(
        core.run_once(&mut faulty, &mut straight, 0),
        Some(StopReason::Error("ARM9: INSN_INVALID".to_string()))
    );
    let mut c = config(None, None);
    c.timeout_ms = Some(10);
    let mut core = EmulatorCore::new(&data, c).unwrap();
    assert_eq!(core.run_once(&mut straight, &mut straight, 9), None);
    assert_eq!(core.run_once(&mut straight, &mut straight, 10), Some(StopReason::Timeout));
    assert_eq!(core.total_executed(), 223_333 + 446_666);
}

#[test]
fn registers_before_the_first_instruction() {
    assert_eq!(initial_register(Cpu::Arm11, ArmRegister::R0), 123);
    assert_eq!(initial_register(Cpu::Arm11, ArmRegister::R5), 1337);
    assert_eq!(initial_register(Cpu::Arm11, ArmRegister::R1), 0);
    assert_eq!(initial_register(Cpu::Arm9, ArmRegister::R0), 0);
    assert_eq!(initial_register(Cpu::Arm9, ArmRegister::R5), 0);
}

#[test]
fn exit_codes() {
    let data = firm(&[]);
    let stop9 = 0x0800_0000u64;
    let stop11 = 0x2000_0000 + 4 * 446_666;
    let mut core = EmulatorCore::new(&data, config(Some(stop9), Some(stop11))).unwrap();
    let fault = StopReason::Error("ARM9: INSN_INVALID".to_string());
    assert_eq!(core.exit_code(&fault, Some(stop9), Some(stop11)), 2);
    assert_eq!(core.exit_code(&fault, None, None), 2);
    assert_eq!(core.exit_code(&StopReason::Timeout, None, None), 1);
    // Nothing has run: neither processor is stopped.
    assert!(!core.reached(Cpu::Arm9, Some(stop9)));
    assert!(core.reached(Cpu::Arm9, None));
    assert_eq!(core.exit_code(&StopReason::StopCondition, Some(stop9), Some(stop11)), 1);
    assert_eq!(core.exit_code(&StopReason::StopCondition, None, None), 0);

    assert_eq!(core.step(&mut straight, &mut straight), QuantumResult::Continue);
    assert!(core.reached(Cpu::Arm9, Some(stop9)));
    assert!(core.reached(Cpu::Arm11, Some(stop11)));
    assert!(!core.reached(Cpu::Arm11, Some(stop9)));
    assert_eq!(core.exit_code(&StopReason::StopCondition, Some(stop9), Some(stop11)), 0);
    assert_eq!(core.exit_code(&StopReason::StopCondition, Some(stop9 + 4), Some(stop11)), 1);
    assert_eq!(core.exit_code(&StopReason::StopCondition, None, Some(stop11)), 0);
}
