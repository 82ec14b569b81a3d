use nes_emu::nes::cpu::{AddressingMode, CPU};
use nes_emu::nes::machine::{CpuError, StepOutcome};
use nes_emu::nes::opcodes::{lookup, Mnemonic};

fn loaded(program: Vec<u8>) -> CPU {
    let mut cpu = CPU::new();
    cpu.load(program);
    cpu.reset();
    cpu
}

#[test]
fn new_cpu_is_all_zero() {
    let cpu = CPU::new();
    assert_eq!(cpu.register_a, 0);
    assert_eq!(cpu.register_x, 0);
    assert_eq!(cpu.register_y, 0);
    assert_eq!(cpu.status.bits(), 0);
    assert_eq!(cpu.program_counter, 0);
    assert_eq!(cpu.mem_read(0), 0);
    assert_eq!(cpu.mem_read(0xFFFF), 0);
}

#[test]
fn lda_zero_sets_zero_flag() {
    let mut cpu = CPU::new();
    cpu.load_and_run(vec![0xa9, 0x00, 0x00]).unwrap();
    assert!(cpu.status.is_zero());
    assert!(!cpu.status.is_negative());
    assert_eq!(cpu.status.bits(), 0b0000_0010);
}

#[test]
fn lda_high_bit_sets_negative_flag() {
    let mut cpu = CPU::new();
    cpu.load_and_run(vec![0xa9, 0x80, 0x00]).unwrap();
    assert!(cpu.status.is_negative());
    assert!(!cpu.status.is_zero());
    assert_eq!(cpu.status.bits(), 0b1000_0000);
}

#[test]
fn inx_wraps_through_zero() {
    let mut cpu = loaded(vec![0xa9, 0xff, 0xaa, 0xe8, 0xe8, 0x00]);
    assert_eq!(cpu.step(), Ok(StepOutcome::Continue));
    assert_eq!(cpu.step(), Ok(StepOutcome::Continue));
    assert_eq!(cpu.register_x, 0xff);
    assert!(cpu.status.is_negative());
    assert_eq!(cpu.step(), Ok(StepOutcome::Continue));
    assert_eq!(cpu.register_x, 0x00);
    assert!(cpu.status.is_zero());
    assert!(!cpu.status.is_negative());
    assert_eq!(cpu.step(), Ok(StepOutcome::Continue));
    assert_eq!(cpu.register_x, 0x01);
    assert!(!cpu.status.is_zero());
    assert_eq!(cpu.step(), Ok(StepOutcome::Halted));
}

#[test]
fn steps_advance_by_instruction_length() {
    // LDA #$01; LDA $0010; TAX; INX; BRK
    let mut cpu = loaded(vec![0xa9, 0x01, 0xad, 0x10, 0x00, 0xaa, 0xe8, 0x00]);
    let mut pcs = vec![cpu.program_counter];
    let mut steps = 0;
    loop {
        let outcome = cpu.step().unwrap();
        steps += 1;
        pcs.push(cpu.program_counter);
        if outcome == StepOutcome::Halted {
            break;
        }
    }
    assert_eq!(steps, 5);
    assert_eq!(pcs, vec![0x8000, 0x8002, 0x8005, 0x8006, 0x8007, 0x8008]);
}

#[test]
fn load_sets_reset_vector() {
    let mut cpu = CPU::new();
    cpu.load(vec![0xa9, 0x05, 0x00]);
    assert_eq!(cpu.mem_read(0xFFFC), 0x00);
    assert_eq!(cpu.mem_read(0xFFFD), 0x80);
    assert_eq!(cpu.mem_read(0x8000), 0xa9);
    assert_eq!(cpu.mem_read(0x8001), 0x05);
    cpu.register_a = 7;
    cpu.reset();
    assert_eq!(cpu.program_counter, 0x8000);
    assert_eq!(cpu.register_a, 0);
}

#[test]
fn word_round_trip_is_little_endian() {
    let mut cpu = CPU::new();
    cpu.mem_write_u16(0x1234, 0xBEEF);
    assert_eq!(cpu.mem_read_u16(0x1234), 0xBEEF);
    assert_eq!(cpu.mem_read(0x1234), 0xEF);
    assert_eq!(cpu.mem_read(0x1235), 0xBE);
}

#[test]
fn word_at_top_address_wraps() {
    let mut cpu = CPU::new();
    cpu.mem_write_u16(0xFFFF, 0x1234);
    assert_eq!(cpu.mem_read(0xFFFF), 0x34);
    assert_eq!(cpu.mem_read(0x0000), 0x12);
    assert_eq!(cpu.mem_read_u16(0xFFFF), 0x1234);
}

#[test]
fn sta_stores_accumulator() {
    let mut cpu = CPU::new();
    cpu.load_and_run(vec![0xa9, 0x42, 0x85, 0x20, 0x8d, 0x00, 0x02, 0x00]).unwrap();
    assert_eq!(cpu.mem_read(0x20), 0x42);
    assert_eq!(cpu.mem_read(0x0200), 0x42);
}

#[test]
fn zero_page_x_wraps_within_page() {
    let mut cpu = CPU::new();
    cpu.program_counter = 0x0300;
    cpu.mem_write(0x0300, 0xF0);
    cpu.register_x = 0x20;
    assert_eq!(cpu.get_operand_address(AddressingMode::ZeroPage_X), Some(0x0010));
    cpu.register_y = 0x11;
    assert_eq!(cpu.get_operand_address(AddressingMode::ZeroPage_Y), Some(0x0001));
}

#[test]
fn absolute_indexed_wraps_address_space() {
    let mut cpu = CPU::new();
    cpu.program_counter = 0x0300;
    cpu.mem_write_u16(0x0300, 0xFFF0);
    cpu.register_x = 0x20;
    cpu.register_y = 0x05;
    assert_eq!(cpu.get_operand_address(AddressingMode::Absolute), Some(0xFFF0));
    assert_eq!(cpu.get_operand_address(AddressingMode::Absolute_X), Some(0x0010));
    assert_eq!(cpu.get_operand_address(AddressingMode::Absolute_Y), Some(0xFFF5));
    assert_eq!(cpu.get_operand_address(AddressingMode::Immediate), Some(0x0300));
    assert_eq!(cpu.get_operand_address(AddressingMode::ZeroPage), Some(0x00F0));
    assert_eq!(cpu.get_operand_address(AddressingMode::NoneAddressing), None);
}

#[test]
fn indirect_x_pointer_wraps_in_zero_page() {
    let mut cpu = CPU::new();
    cpu.program_counter = 0x0300;
    cpu.mem_write(0x0300, 0xFE);
    cpu.register_x = 0x01;
    cpu.mem_write(0x00FF, 0x34);
    cpu.mem_write(0x0000, 0x12);
    cpu.mem_write(0x0100, 0x99);
    assert_eq!(cpu.get_operand_address(AddressingMode::Indirect_X), Some(0x1234));
}

#[test]
fn indirect_y_adds_after_dereference() {
    let mut cpu = CPU::new();
    cpu.program_counter = 0x0300;
    cpu.mem_write(0x0300, 0xFF);
    cpu.mem_write(0x00FF, 0xF0);
    cpu.mem_write(0x0000, 0x12);
    cpu.register_y = 0x20;
    assert_eq!(cpu.get_operand_address(AddressingMode::Indirect_Y), Some(0x1310));
}

#[test]
fn lda_indirect_y_loads_through_pointer() {
    let mut cpu = CPU::new();
    cpu.mem_write(0x0040, 0x00);
    cpu.mem_write(0x0041, 0x06);
    cpu.mem_write(0x0600, 0x66);
    cpu.mem_write(0x0603, 0x77);
    cpu.load_and_run(vec![0xa2, 0x03, 0xb1, 0x40, 0x00]).unwrap();
    assert_eq!(cpu.register_a, 0x66);
}

#[test]
fn unrecognized_opcode_is_fatal() {
    let mut cpu = loaded(vec![0xa9, 0x01, 0x02, 0x00]);
    assert_eq!(
        cpu.run(),
        Err(CpuError::UnrecognizedOpcode { code: 0x02, program_counter: 0x8002 })
    );
    assert_eq!(cpu.program_counter, 0x8002);
    assert_eq!(cpu.register_a, 0x01);
}

#[test]
fn running_off_memory_is_fatal() {
    let mut cpu = CPU::new();
    cpu.mem_write(0xFFFE, 0xa9);
    cpu.program_counter = 0xFFFE;
    assert_eq!(
        cpu.step(),
        Err(CpuError::ProgramCounterOverflow { program_counter: 0xFFFE })
    );
    assert_eq!(cpu.program_counter, 0xFFFE);
    assert_eq!(cpu.register_a, 0);
    cpu.program_counter = 0xFFFF;
    assert_eq!(
        cpu.run(),
        Err(CpuError::ProgramCounterOverflow { program_counter: 0xFFFF })
    );
}

#[test]
fn missing_operand_mode_is_fatal() {
    let mut cpu = CPU::new();
    assert_eq!(
        cpu.lda(AddressingMode::NoneAddressing),
        Err(CpuError::UnsupportedAddressingMode {
            mode: AddressingMode::NoneAddressing,
            mnemonic: Mnemonic::Lda
        })
    );
    assert_eq!(
        cpu.sta(AddressingMode::NoneAddressing),
        Err(CpuError::UnsupportedAddressingMode {
            mode: AddressingMode::NoneAddressing,
            mnemonic: Mnemonic::Sta
        })
    );
}

#[test]
fn flags_keep_other_bits() {
    let mut cpu = CPU::new();
    cpu.load_and_run(vec![0xa9, 0x81, 0x00]).unwrap();
    assert_eq!(cpu.status.bits(), 0b1000_0000);
    cpu.update_zero_and_negative_flags(0);
    assert_eq!(cpu.status.bits(), 0b0000_0010);
}

#[test]
fn table_entries() {
    let op = lookup(0xb5).unwrap();
    assert_eq!(op.code, 0xb5);
    assert_eq!(op.mnemonic, Mnemonic::Lda);
    assert_eq!(op.len, 2);
    assert_eq!(op.mode, AddressingMode::ZeroPage_X);
    assert_eq!(lookup(0x8d).unwrap().len, 3);
    assert_eq!(lookup(0x00).unwrap().mnemonic, Mnemonic::Brk);
    assert!(lookup(0xff).is_none());
}

fn count_steps(cpu: &mut CPU) -> usize {
    let mut steps = 0;
    loop {
        let outcome = cpu.step().unwrap();
        steps += 1;
        if outcome == StepOutcome::Halted {
            return steps;
        }
    }
}

#[test]
fn program_with_store_halts_after_each_instruction() {
    // LDA #$07; STA $10; STA $0200; BRK
    let mut cpu = loaded(vec![0xa9, 0x07, 0x85, 0x10, 0x8d, 0x00, 0x02, 0x00]);
    assert_eq!(count_steps(&mut cpu), 4);
    assert_eq!(cpu.program_counter, 0x8008);
    assert_eq!(cpu.mem_read(0x10), 0x07);
}

#[test]
fn store_into_code_ahead_changes_what_runs() {
    // LDA #$E8; STA $8005; BRK -- the break is rewritten to INX before it is fetched
    let mut cpu = loaded(vec![0xa9, 0xe8, 0x8d, 0x05, 0x80, 0x00]);
    assert_eq!(count_steps(&mut cpu), 4);
    assert_eq!(cpu.register_x, 1);
}
