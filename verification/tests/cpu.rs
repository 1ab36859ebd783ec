use nes::cpu::{CpuError, RunState, CPU};

#[test]
fn test_0xa9_lda_immediate_load_data() {
    let mut cpu = CPU::new();
    assert_eq!(cpu.load_and_run(vec![0xa9, 0x05, 0x00]), Ok(()));
    assert_eq!(cpu.register_a, 0x05);
    assert!(cpu.status & 0b0000_0010 == 0b00);
    assert!(cpu.status & 0b1000_0000 == 0);
}

#[test]
fn test_0xa9_lda_zero_flag() {
    let mut cpu = CPU::new();
    assert_eq!(cpu.load_and_run(vec![0xa9, 0x00, 0x00]), Ok(()));
    assert!(cpu.status & 0b0000_0010 == 0b10);
}

#[test]
fn test_0xaa_tax_move_a_to_x() {
    let mut cpu = CPU::new();
    cpu.register_a = 10;
    assert_eq!(cpu.load_and_run(vec![0xa9, 10, 0xaa, 0x00]), Ok(()));

    assert_eq!(cpu.register_x, 10)
}

#[test]
fn test_0xe8_inx_increment() {
    let mut cpu = CPU::new();
    cpu.register_x = 0b0111_1111;
    assert_eq!(
        cpu.load_and_run(vec![0xa9, 0b0111_1111, 0xaa, 0xe8, 0x00]),
        Ok(())
    );
    assert_eq!(cpu.register_x, 0b1000_0000);
    assert_eq!(cpu.status, 0b1000_0000);
}

#[test]
fn test_5_ops_working_together() {
    let mut cpu = CPU::new();
    assert_eq!(cpu.load_and_run(vec![0xa9, 0xc0, 0xaa, 0xe8, 0x00]), Ok(()));

    assert_eq!(cpu.register_x, 0xc1)
}

#[test]
fn test_inx_overflow() {
    let mut cpu = CPU::new();
    assert_eq!(
        cpu.load_and_run(vec![0xa9, 0xff, 0xaa, 0xe8, 0xe8, 0x00]),
        Ok(())
    );

    assert_eq!(cpu.register_x, 1)
}

#[test]
fn new_cpu_is_all_zero() {
    let cpu = CPU::new();
    assert_eq!(cpu.register_a, 0);
    assert_eq!(cpu.register_x, 0);
    assert_eq!(cpu.register_y, 0);
    assert_eq!(cpu.status, 0);
    assert_eq!(cpu.program_counter, 0);
    assert_eq!(cpu.memory.len(), 0x10000);
    assert!(cpu.memory.iter().all(|byte| *byte == 0));
    assert_eq!(cpu.mem_read(0x0000), 0);
    assert_eq!(cpu.mem_read(0xFFFF), 0);
}

#[test]
fn lda_sets_flags_for_every_value() {
    let mut value: u8 = 0;
    loop {
        let mut cpu = CPU::new();
        cpu.status = 0b0111_1101;
        cpu.lda(value);
        assert_eq!(cpu.register_a, value);
        assert_eq!(cpu.status & 0b0000_0010 != 0, value == 0);
        assert_eq!(cpu.status & 0b1000_0000 != 0, value & 0x80 != 0);
        assert_eq!(cpu.status & 0b0111_1101, 0b0111_1101);
        if value == 0xFF {
            break;
        }
        value += 1;
    }
}

#[test]
fn lda_leaves_other_registers_and_memory() {
    let mut cpu = CPU::new();
    cpu.register_x = 3;
    cpu.register_y = 4;
    cpu.program_counter = 0x1234;
    cpu.mem_write(0x0042, 0x99);
    cpu.lda(0x80);
    assert_eq!(cpu.register_a, 0x80);
    assert_eq!(cpu.status, 0b1000_0000);
    assert_eq!(cpu.register_x, 3);
    assert_eq!(cpu.register_y, 4);
    assert_eq!(cpu.program_counter, 0x1234);
    assert_eq!(cpu.mem_read(0x0042), 0x99);
}

#[test]
fn tax_copies_accumulator_whatever_x_was() {
    let mut first = CPU::new();
    first.register_a = 0x9C;
    first.register_x = 0x00;
    first.tax();
    let mut second = CPU::new();
    second.register_a = 0x9C;
    second.register_x = 0x7F;
    second.tax();
    assert_eq!(first.register_x, 0x9C);
    assert_eq!(second.register_x, 0x9C);
    assert_eq!(first.status, 0b1000_0000);
    assert_eq!(second.status, 0b1000_0000);
    assert_eq!(first.register_a, 0x9C);
}

#[test]
fn tax_of_zero_sets_zero_flag() {
    let mut cpu = CPU::new();
    cpu.register_x = 0x55;
    cpu.status = 0b1000_0001;
    cpu.tax();
    assert_eq!(cpu.register_x, 0);
    assert_eq!(cpu.status, 0b0000_0011);
}

#[test]
fn inx_wraps_from_ff_to_zero() {
    let mut cpu = CPU::new();
    cpu.register_x = 0xFF;
    cpu.inx();
    assert_eq!(cpu.register_x, 0x00);
    assert!(cpu.status & 0b0000_0010 != 0);
    assert!(cpu.status & 0b1000_0000 == 0);
}

#[test]
fn inx_from_7f_sets_negative() {
    let mut cpu = CPU::new();
    cpu.register_x = 0x7F;
    cpu.inx();
    assert_eq!(cpu.register_x, 0x80);
    assert!(cpu.status & 0b1000_0000 != 0);
    assert!(cpu.status & 0b0000_0010 == 0);
}

#[test]
fn inx_increments_every_value() {
    let mut value: u8 = 0;
    loop {
        let mut cpu = CPU::new();
        cpu.register_x = value;
        cpu.register_a = 0x11;
        cpu.inx();
        assert_eq!(cpu.register_x, value.wrapping_add(1));
        assert_eq!(cpu.status & 0b0000_0010 != 0, value == 0xFF);
        assert_eq!(cpu.status & 0b1000_0000 != 0, (0x7F..0xFF).contains(&value));
        assert_eq!(cpu.register_a, 0x11);
        if value == 0xFF {
            break;
        }
        value += 1;
    }
}

#[test]
fn update_zero_and_negative_keeps_other_bits() {
    let mut cpu = CPU::new();
    cpu.status = 0b0111_1111;
    cpu.update_zero_and_negative(0x01);
    assert_eq!(cpu.status, 0b0111_1101);
    cpu.update_zero_and_negative(0x00);
    assert_eq!(cpu.status, 0b0111_1111);
    cpu.update_zero_and_negative(0xFF);
    assert_eq!(cpu.status, 0b1111_1101);
    cpu.status = 0;
    cpu.update_zero_and_negative(0x80);
    assert_eq!(cpu.status, 0b1000_0000);
    cpu.update_zero_and_negative(0x00);
    assert_eq!(cpu.status, 0b0000_0010);
    cpu.update_zero_and_negative(0x7F);
    assert_eq!(cpu.status, 0b0000_0000);
}

#[test]
fn reset_twice_is_reset_once() {
    let mut once = CPU::new();
    assert_eq!(once.load(vec![0xa9, 0x01, 0x00]), Ok(()));
    once.register_a = 7;
    once.register_x = 8;
    once.register_y = 9;
    once.status = 0xFF;
    once.program_counter = 0x4321;
    once.reset();

    let mut twice = CPU::new();
    assert_eq!(twice.load(vec![0xa9, 0x01, 0x00]), Ok(()));
    twice.register_a = 7;
    twice.register_x = 8;
    twice.register_y = 9;
    twice.status = 0xFF;
    twice.program_counter = 0x4321;
    twice.reset();
    twice.reset();

    assert_eq!(once.register_a, twice.register_a);
    assert_eq!(once.register_x, twice.register_x);
    assert_eq!(once.register_y, twice.register_y);
    assert_eq!(once.status, twice.status);
    assert_eq!(once.program_counter, twice.program_counter);
    assert!(once.memory == twice.memory);
}

#[test]
fn reset_clears_a_x_status_but_not_y_or_memory() {
    let mut cpu = CPU::new();
    cpu.mem_write_u16(0xFFFC, 0xBEEF);
    cpu.mem_write(0x0010, 0x77);
    cpu.register_a = 1;
    cpu.register_x = 2;
    cpu.register_y = 3;
    cpu.status = 0b1100_0011;
    cpu.program_counter = 0x0001;
    cpu.reset();
    assert_eq!(cpu.register_a, 0);
    assert_eq!(cpu.register_x, 0);
    assert_eq!(cpu.status, 0);
    assert_eq!(cpu.register_y, 3);
    assert_eq!(cpu.program_counter, 0xBEEF);
    assert_eq!(cpu.mem_read(0x0010), 0x77);
}

#[test]
fn load_installs_program_and_reset_vector() {
    let mut cpu = CPU::new();
    cpu.register_a = 0x12;
    cpu.register_y = 0x34;
    cpu.program_counter = 0x0600;
    cpu.mem_write(0x7FFF, 0xEE);
    cpu.mem_write(0x8003, 0xDD);
    assert_eq!(cpu.load(vec![0xa9, 0xc0, 0xaa]), Ok(()));
    assert_eq!(cpu.mem_read(0x8000), 0xa9);
    assert_eq!(cpu.mem_read(0x8001), 0xc0);
    assert_eq!(cpu.mem_read(0x8002), 0xaa);
    assert_eq!(cpu.mem_read(0x8003), 0xDD);
    assert_eq!(cpu.mem_read(0x7FFF), 0xEE);
    assert_eq!(cpu.mem_read(0xFFFC), 0x00);
    assert_eq!(cpu.mem_read(0xFFFD), 0x80);
    assert_eq!(cpu.mem_read_u16(0xFFFC), 0x8000);
    assert_eq!(cpu.register_a, 0x12);
    assert_eq!(cpu.register_y, 0x34);
    assert_eq!(cpu.program_counter, 0x0600);
}

#[test]
fn load_of_empty_program_only_sets_reset_vector() {
    let mut cpu = CPU::new();
    cpu.mem_write(0x8000, 0x5A);
    assert_eq!(cpu.load(Vec::new()), Ok(()));
    assert_eq!(cpu.mem_read(0x8000), 0x5A);
    assert_eq!(cpu.mem_read_u16(0xFFFC), 0x8000);
}

#[test]
fn load_accepts_program_that_fills_memory() {
    let mut cpu = CPU::new();
    assert_eq!(cpu.load(vec![0xAA; 0x8000]), Ok(()));
    assert_eq!(cpu.mem_read(0x8000), 0xAA);
    assert_eq!(cpu.mem_read(0xFFFB), 0xAA);
    assert_eq!(cpu.mem_read(0xFFFC), 0x00);
    assert_eq!(cpu.mem_read(0xFFFD), 0x80);
    assert_eq!(cpu.mem_read(0xFFFE), 0xAA);
    assert_eq!(cpu.mem_read(0xFFFF), 0xAA);
    assert_eq!(cpu.mem_read(0x7FFF), 0x00);
}

#[test]
fn load_refuses_program_that_is_too_large() {
    let mut cpu = CPU::new();
    cpu.mem_write(0x8000, 0x11);
    cpu.mem_write_u16(0xFFFC, 0x1234);
    assert_eq!(
        cpu.load(vec![0xAA; 0x8001]),
        Err(CpuError::ProgramTooLarge(0x8001))
    );
    assert_eq!(cpu.mem_read(0x8000), 0x11);
    assert_eq!(cpu.mem_read(0x8001), 0x00);
    assert_eq!(cpu.mem_read_u16(0xFFFC), 0x1234);
}

#[test]
fn load_and_run_refuses_program_that_is_too_large() {
    let mut cpu = CPU::new();
    cpu.register_a = 0x42;
    cpu.register_x = 0x43;
    cpu.status = 0x81;
    cpu.program_counter = 0x0777;
    assert_eq!(
        cpu.load_and_run(vec![0x00; 0x9000]),
        Err(CpuError::ProgramTooLarge(0x9000))
    );
    assert_eq!(cpu.register_a, 0x42);
    assert_eq!(cpu.register_x, 0x43);
    assert_eq!(cpu.status, 0x81);
    assert_eq!(cpu.program_counter, 0x0777);
    assert_eq!(cpu.mem_read(0x8000), 0x00);
    assert_eq!(cpu.mem_read_u16(0xFFFC), 0x0000);
}

#[test]
fn load_and_run_stops_just_past_the_break() {
    let mut cpu = CPU::new();
    cpu.register_y = 0x66;
    assert_eq!(cpu.load_and_run(vec![0xa9, 0x05, 0x00, 0xe8]), Ok(()));
    assert_eq!(cpu.program_counter, 0x8003);
    assert_eq!(cpu.register_x, 0);
    assert_eq!(cpu.register_y, 0x66);
}

#[test]
fn load_and_run_resets_registers_first() {
    let mut cpu = CPU::new();
    cpu.register_a = 0x99;
    cpu.register_x = 0x98;
    cpu.status = 0xFF;
    assert_eq!(cpu.load_and_run(vec![0x00]), Ok(()));
    assert_eq!(cpu.register_a, 0);
    assert_eq!(cpu.register_x, 0);
    assert_eq!(cpu.status, 0);
    assert_eq!(cpu.program_counter, 0x8001);
}

#[test]
fn run_fails_on_unimplemented_opcode() {
    let mut cpu = CPU::new();
    assert_eq!(
        cpu.load_and_run(vec![0xa9, 0x07, 0x02, 0xaa, 0x00]),
        Err(CpuError::UnimplementedOpcode(0x02))
    );
    assert_eq!(cpu.register_a, 0x07);
    assert_eq!(cpu.register_x, 0x00);
    assert_eq!(cpu.program_counter, 0x8003);
}

#[test]
fn run_fails_when_program_counter_runs_off_memory() {
    let mut cpu = CPU::new();
    cpu.mem_write(0xFFFD, 0xAA);
    cpu.mem_write(0xFFFE, 0xE8);
    cpu.mem_write(0xFFFF, 0x00);
    cpu.register_a = 0x21;
    cpu.program_counter = 0xFFFD;
    assert_eq!(cpu.run(), Err(CpuError::ProgramCounterOverflow));
    assert_eq!(cpu.program_counter, 0xFFFF);
    assert_eq!(cpu.register_x, 0x22);
}

#[test]
fn run_from_zeroed_memory_halts_at_once() {
    let mut cpu = CPU::new();
    cpu.program_counter = 0x0200;
    assert_eq!(cpu.run(), Ok(()));
    assert_eq!(cpu.program_counter, 0x0201);
    assert_eq!(cpu.status, 0);
}

#[test]
fn step_executes_one_instruction() {
    let mut cpu = CPU::new();
    assert_eq!(cpu.load(vec![0xa9, 0x80, 0xaa, 0xe8, 0x00]), Ok(()));
    cpu.reset();
    assert_eq!(cpu.step(), Ok(RunState::Running));
    assert_eq!(cpu.register_a, 0x80);
    assert_eq!(cpu.status, 0b1000_0000);
    assert_eq!(cpu.program_counter, 0x8002);
    assert_eq!(cpu.step(), Ok(RunState::Running));
    assert_eq!(cpu.register_x, 0x80);
    assert_eq!(cpu.program_counter, 0x8003);
    assert_eq!(cpu.step(), Ok(RunState::Running));
    assert_eq!(cpu.register_x, 0x81);
    assert_eq!(cpu.program_counter, 0x8004);
    assert_eq!(cpu.step(), Ok(RunState::Halted));
    assert_eq!(cpu.program_counter, 0x8005);
    assert_eq!(cpu.register_a, 0x80);
    assert_eq!(cpu.register_x, 0x81);
    assert_eq!(cpu.status, 0b1000_0000);
}

#[test]
fn step_at_top_of_memory_changes_nothing() {
    let mut cpu = CPU::new();
    cpu.mem_write(0xFFFF, 0xAA);
    cpu.register_a = 0x33;
    cpu.program_counter = 0xFFFF;
    assert_eq!(cpu.step(), Err(CpuError::ProgramCounterOverflow));
    assert_eq!(cpu.program_counter, 0xFFFF);
    assert_eq!(cpu.register_x, 0);
}

#[test]
fn step_lda_without_room_for_operand_loads_nothing() {
    let mut cpu = CPU::new();
    cpu.mem_write(0xFFFE, 0xA9);
    cpu.mem_write(0xFFFF, 0x44);
    cpu.program_counter = 0xFFFE;
    assert_eq!(cpu.step(), Err(CpuError::ProgramCounterOverflow));
    assert_eq!(cpu.program_counter, 0xFFFF);
    assert_eq!(cpu.register_a, 0);
    assert_eq!(cpu.status, 0);
}

#[test]
fn step_lda_with_operand_in_last_but_one_byte() {
    let mut cpu = CPU::new();
    cpu.mem_write(0xFFFD, 0xA9);
    cpu.mem_write(0xFFFE, 0x44);
    cpu.program_counter = 0xFFFD;
    assert_eq!(cpu.step(), Ok(RunState::Running));
    assert_eq!(cpu.program_counter, 0xFFFF);
    assert_eq!(cpu.register_a, 0x44);
}

#[test]
fn step_reports_unimplemented_opcode_after_consuming_it() {
    let mut cpu = CPU::new();
    cpu.mem_write(0x0300, 0xEA);
    cpu.program_counter = 0x0300;
    assert_eq!(cpu.step(), Err(CpuError::UnimplementedOpcode(0xEA)));
    assert_eq!(cpu.program_counter, 0x0301);
}
