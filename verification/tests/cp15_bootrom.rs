use threemu::bootrom::{handle_instruction, BootromCall, BootromFunction};
use threemu::cp15::{
    decode, handle_control_register, handle_cp15_instruction, handle_tcm_region_config, is_cp15,
    read_arm_register, Cp15Effect, Cp15Op, Tcm, TcmEnables, TcmRegion,
};
use threemu::ArmRegister;

/// `MCR`/`MRC p15, 0, Rd, CRn, CRm, opc2`.
fn cp15(is_mcr: bool, rd: u32, crn: u32, crm: u32, opc2: u32) -> u32 {
    0xEE00_0F10 | (if is_mcr { 0 } else { 1 << 20 }) | (crn << 16) | (rd << 12) | (opc2 << 5) | crm
}

#[test]
fn boot_rom_functions_return_to_their_caller() {
    assert_eq!(
        handle_instruction(0xFFFF_0198, 0x0801_2344),
        BootromCall { function: BootromFunction::WaitCycles, next_pc: 0x0801_2344 }
    );
    assert_eq!(
        handle_instruction(0xFFFF_0000, 0x10),
        BootromCall { function: BootromFunction::Unknown { offset: 0 }, next_pc: 0x10 }
    );
    assert_eq!(
        handle_instruction(0xFFFF_FFFC, u64::MAX),
        BootromCall { function: BootromFunction::Unknown { offset: 0xFFFC }, next_pc: u64::MAX }
    );
    // Only the offset in the window counts.
    assert_eq!(handle_instruction(0x0001_0198, 0).function, BootromFunction::WaitCycles);
}

#[test]
fn only_coprocessor_15_transfers_are_cp15_instructions() {
    assert!(is_cp15(cp15(true, 0, 9, 1, 0)));
    assert!(is_cp15(cp15(false, 3, 1, 0, 0)));
    assert!(is_cp15(0x0E00_0F00));
    assert!(!is_cp15(0xEE00_0E10));
    assert!(!is_cp15(0xE1A0_0000));
    assert!(!is_cp15(0xEF00_0F10));
    assert!(!is_cp15(0));
}

#[test]
fn decoding() {
    assert_eq!(decode(cp15(true, 2, 9, 1, 0)), Cp15Op::TcmRegion { tcm: Tcm::Dtcm, rd: 2 });
    assert_eq!(decode(cp15(true, 12, 9, 1, 1)), Cp15Op::TcmRegion { tcm: Tcm::Itcm, rd: 12 });
    assert_eq!(decode(cp15(true, 0, 1, 0, 0)), Cp15Op::Control { rd: 0 });
    assert_eq!(
        decode(cp15(false, 0, 1, 0, 0)),
        Cp15Op::Unsupported { is_mcr: false, rd: 0, crn: 1, crm: 0, opc2: 0 }
    );
    assert_eq!(
        decode(cp15(true, 4, 9, 1, 2)),
        Cp15Op::Unsupported { is_mcr: true, rd: 4, crn: 9, crm: 1, opc2: 2 }
    );
    assert_eq!(
        decode(cp15(true, 1, 7, 5, 0)),
        Cp15Op::Unsupported { is_mcr: true, rd: 1, crn: 7, crm: 5, opc2: 0 }
    );
}

#[test]
fn tcm_regions() {
    assert_eq!(
        handle_tcm_region_config(0xFFF0_000A),
        TcmRegion { base: 0xFFF0_0000, size: 16 * 1024, enabled: false }
    );
    assert_eq!(
        handle_tcm_region_config(0x0000_0025),
        TcmRegion { base: 0, size: 512 << 18, enabled: true }
    );
    assert_eq!(
        handle_tcm_region_config(0x0800_0FC1),
        TcmRegion { base: 0x0800_0000, size: 512, enabled: true }
    );
    // A size that does not fit 32 bits is cut off.
    assert_eq!(handle_tcm_region_config(0x3E).size, 0);
    assert_eq!(handle_tcm_region_config(0x2C).size, 0x8000_0000);
}

#[test]
fn control_register_enables() {
    assert_eq!(handle_control_register(0), TcmEnables { dtcm: false, itcm: false });
    assert_eq!(handle_control_register(0x1_0000), TcmEnables { dtcm: true, itcm: false });
    assert_eq!(handle_control_register(0x4_0000), TcmEnables { dtcm: false, itcm: true });
    assert_eq!(handle_control_register(0xFFFF_FFFF), TcmEnables { dtcm: true, itcm: true });
    assert_eq!(handle_control_register(0x2_0000), TcmEnables { dtcm: false, itcm: false });
}

#[test]
fn source_registers() {
    assert_eq!(read_arm_register(cp15(true, 0, 9, 1, 0)), Some(ArmRegister::R0));
    assert_eq!(read_arm_register(cp15(true, 7, 9, 1, 1)), Some(ArmRegister::R7));
    assert_eq!(read_arm_register(cp15(true, 12, 1, 0, 0)), Some(ArmRegister::R12));
    // SP, LR and PC read as zero.
    assert_eq!(read_arm_register(cp15(true, 13, 9, 1, 0)), None);
    assert_eq!(read_arm_register(cp15(true, 15, 1, 0, 0)), None);
    assert_eq!(read_arm_register(cp15(false, 1, 1, 0, 0)), None);
    assert_eq!(read_arm_register(0xE1A0_0000), None);
    assert_eq!(ArmRegister::from_index(13), Some(ArmRegister::R13));
    assert_eq!(ArmRegister::from_index(15), Some(ArmRegister::R15));
    assert_eq!(ArmRegister::from_index(16), None);
}

#[test]
fn handling_skips_every_cp15_instruction() {
    assert_eq!(
        handle_cp15_instruction(0x0800_0100, cp15(true, 0, 9, 1, 1), 0x0000_0024),
        Cp15Effect {
            op: Some(Cp15Op::TcmRegion { tcm: Tcm::Itcm, rd: 0 }),
            region: Some(TcmRegion { base: 0, size: 512 << 18, enabled: false }),
            enables: None,
            next_pc: Some(0x0800_0104),
        }
    );
    assert_eq!(
        handle_cp15_instruction(0x0800_0104, cp15(true, 1, 1, 0, 0), 0x5_0078),
        Cp15Effect {
            op: Some(Cp15Op::Control { rd: 1 }),
            region: None,
            enables: Some(TcmEnables { dtcm: true, itcm: true }),
            next_pc: Some(0x0800_0108),
        }
    );
    assert_eq!(
        handle_cp15_instruction(0x10, cp15(false, 1, 0, 0, 0), 77),
        Cp15Effect {
            op: Some(Cp15Op::Unsupported { is_mcr: false, rd: 1, crn: 0, crm: 0, opc2: 0 }),
            region: None,
            enables: None,
            next_pc: Some(0x14),
        }
    );
}

#[test]
fn other_instructions_are_left_alone() {
    assert_eq!(
        handle_cp15_instruction(0x0800_0100, 0xE1A0_0000, 5),
        Cp15Effect { op: None, region: None, enables: None, next_pc: None }
    );
}
