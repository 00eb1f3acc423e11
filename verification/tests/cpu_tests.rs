use nes::bus::Bus;
use nes::cpu::CPU;
use nes::rom::Mirroring;
use nes::rom::Rom;

const FLAG_CARRY: u8 = 0x01;
const FLAG_ZERO: u8 = 0x02;
const FLAG_INTERRUPT: u8 = 0x04;
const FLAG_OVERFLOW: u8 = 0x40;
const FLAG_NEGATIVE: u8 = 0x80;

/// A CPU over a 32 KiB PRG image holding the given program at the reset
/// target 0x8000.
fn cpu_with_program(program: &[u8]) -> CPU {
    let mut prg = vec![0u8; 0x8000];
    prg[..program.len()].copy_from_slice(program);
    let rom = Rom { prg_rom: prg, chr_rom: vec![0; 8192], mapper: 0, mirroring: Mirroring::Horizontal };
    let bus = Bus::new(rom);
    let mut cpu = CPU::new(bus);
    cpu.pc = 0x8000;
    cpu
}

#[test]
fn test_lda_immediate_scenario() {
    // LDA #$42 with A = 0: A becomes 0x42, Z and N clear, PC advances by
    // two, and exactly two cycles are consumed.
    let mut cpu = cpu_with_program(&[0xA9, 0x42]);
    cpu.a = 0x00;
    let cycles_before = cpu.bus.cycles;

    cpu.step();

    assert_eq!(cpu.a, 0x42);
    assert_eq!(cpu.status & FLAG_ZERO, 0);
    assert_eq!(cpu.status & FLAG_NEGATIVE, 0);
    assert_eq!(cpu.pc, 0x8002);
    assert_eq!(cpu.bus.cycles - cycles_before, 2);
}

#[test]
fn test_adc_immediate_scenario() {
    // ADC #$10 with A = 0x20 and carry set: A = 0x31, C, V, N, Z all
    // clear.
    let mut cpu = cpu_with_program(&[0x69, 0x10]);
    cpu.a = 0x20;
    cpu.status |= FLAG_CARRY;

    cpu.step();

    assert_eq!(cpu.a, 0x31);
    assert_eq!(cpu.status & FLAG_CARRY, 0);
    assert_eq!(cpu.status & FLAG_OVERFLOW, 0);
    assert_eq!(cpu.status & FLAG_NEGATIVE, 0);
    assert_eq!(cpu.status & FLAG_ZERO, 0);
}

#[test]
fn test_inx_wraps_to_zero() {
    // INX with X = 0xFF: X wraps to zero, Z set, N clear.
    let mut cpu = cpu_with_program(&[0xE8]);
    cpu.x = 0xFF;

    cpu.step();

    assert_eq!(cpu.x, 0x00);
    assert_ne!(cpu.status & FLAG_ZERO, 0);
    assert_eq!(cpu.status & FLAG_NEGATIVE, 0);
}

#[test]
fn test_jsr_rts_round_trip() {
    // JSR $8005 at 0x8000 runs the subroutine's RTS and lands on the
    // byte after the three-byte JSR encoding, with SP restored.
    let mut cpu = cpu_with_program(&[0x20, 0x05, 0x80, 0xEA, 0xEA, 0x60]);
    let sp_before = cpu.sp;

    cpu.step();
    assert_eq!(cpu.pc, 0x8005);
    assert_eq!(cpu.sp, sp_before.wrapping_sub(2));

    cpu.step();
    assert_eq!(cpu.pc, 0x8003);
    assert_eq!(cpu.sp, sp_before);
}

#[test]
fn test_adc_then_sbc_restores_accumulator() {
    // ADC then SBC of the same operand with the carry-in inverted gives
    // the accumulator back.
    let mut cpu = cpu_with_program(&[0x69, 0x37, 0xE9, 0x37]);
    cpu.a = 0x5A;
    cpu.status |= FLAG_CARRY; // carry in = 1 for the ADC

    cpu.step();
    assert_eq!(cpu.a, 0x5A + 0x37 + 1);

    // invert the carry-in for the SBC
    cpu.status &= !FLAG_CARRY;
    cpu.step();
    assert_eq!(cpu.a, 0x5A);
}

#[test]
fn test_sta_lda_identity() {
    // STA $10 then LDA $10 leaves A unchanged: the store lands in RAM
    // and the load reads the very same byte back.
    let mut cpu = cpu_with_program(&[0x85, 0x10, 0xA9, 0x00, 0xA5, 0x10]);
    cpu.a = 0xC7;

    cpu.step(); // STA $10
    assert_eq!(cpu.bus.mem_read(0x0010), 0xC7);

    cpu.step(); // LDA #$00 scrubs A
    assert_eq!(cpu.a, 0x00);

    cpu.step(); // LDA $10
    assert_eq!(cpu.a, 0xC7);
}

#[test]
fn test_push_word_pop_round_trip() {
    // push_word then two pops reassembled little-endian give the word
    // back, with SP restored.
    let mut cpu = cpu_with_program(&[0xEA]);
    let sp_before = cpu.sp;

    cpu.push_word(0xBEEF);
    assert_eq!(cpu.sp, sp_before.wrapping_sub(2));

    let lo = cpu.pop() as u16;
    let hi = cpu.pop() as u16;
    assert_eq!(hi * 256 + lo, 0xBEEF);
    assert_eq!(cpu.sp, sp_before);
}

#[test]
fn test_stack_pointer_wraps_modulo_256() {
    // Pushing past the bottom of the stack wraps SP within [0, 255].
    let mut cpu = cpu_with_program(&[0xEA]);
    cpu.sp = 0x00;
    cpu.push(0xAB);
    assert_eq!(cpu.sp, 0xFF);
    let v = cpu.pop();
    assert_eq!(v, 0xAB);
    assert_eq!(cpu.sp, 0x00);
}

#[test]
fn test_nmi_sets_interrupt_disable_and_vector() {
    // After servicing the NMI, InterruptDisable is set and PC holds the
    // little-endian word at 0xFFFA.
    let mut prg = vec![0u8; 0x8000];
    prg[0x7FFA] = 0x34; // NMI vector low
    prg[0x7FFB] = 0x12; // NMI vector high
    let rom = Rom { prg_rom: prg, chr_rom: vec![0; 8192], mapper: 0, mirroring: Mirroring::Horizontal };
    let mut cpu = CPU::new(Bus::new(rom));
    cpu.pc = 0x8000;
    cpu.status &= !FLAG_INTERRUPT;

    cpu.nmi();

    assert_ne!(cpu.status & FLAG_INTERRUPT, 0);
    assert_eq!(cpu.pc, 0x1234);
}

#[test]
fn test_brk_pushes_and_vectors() {
    let mut prg = vec![0u8; 0x8000];
    prg[0x7FFE] = 0x00; // IRQ/BRK vector low
    prg[0x7FFF] = 0x90; // IRQ/BRK vector high
    let rom = Rom { prg_rom: prg, chr_rom: vec![0; 8192], mapper: 0, mirroring: Mirroring::Horizontal };
    let mut cpu = CPU::new(Bus::new(rom));
    cpu.pc = 0x8000;
    let sp_before = cpu.sp;

    cpu.step(); // opcode 0x00 = BRK

    assert_eq!(cpu.pc, 0x9000);
    assert_ne!(cpu.status & FLAG_INTERRUPT, 0);
    assert_eq!(cpu.sp, sp_before.wrapping_sub(3));
}

#[test]
fn test_unknown_opcode_runs_as_nop() {
    // An opcode outside the table executes as a NOP taking two cycles:
    // one byte consumed, no registers touched.
    let mut cpu = cpu_with_program(&[0x02]);
    let cycles_before = cpu.bus.cycles;
    cpu.a = 0x55;

    cpu.step();

    assert_eq!(cpu.a, 0x55);
    assert_eq!(cpu.pc, 0x8001);
    assert_eq!(cpu.bus.cycles - cycles_before, 2);
}

#[test]
fn test_branch_taken_adds_cycle() {
    // BNE with Z clear: branches, costing the base 2 cycles plus 1.
    let mut cpu = cpu_with_program(&[0xD0, 0x02]);
    cpu.status &= !FLAG_ZERO;
    let cycles_before = cpu.bus.cycles;

    cpu.step();

    assert_eq!(cpu.pc, 0x8004);
    assert_eq!(cpu.bus.cycles - cycles_before, 3);
}

#[test]
fn test_reset_loads_reset_vector() {
    let mut prg = vec![0u8; 0x8000];
    prg[0x7FFC] = 0x00; // reset vector low
    prg[0x7FFD] = 0xC0; // reset vector high
    let rom = Rom { prg_rom: prg, chr_rom: vec![0; 8192], mapper: 0, mirroring: Mirroring::Horizontal };
    let mut cpu = CPU::new(Bus::new(rom));
    cpu.a = 9;
    cpu.sp = 0;

    cpu.reset();

    assert_eq!(cpu.pc, 0xC000);
    assert_eq!(cpu.a, 0);
    assert_eq!(cpu.sp, 0xFD);
}

#[test]
fn test_jmp_indirect_page_wrap_quirk() {
    // JMP ($02FF): the high byte of the pointer is read from 0x0200,
    // not 0x0300.
    let mut cpu = cpu_with_program(&[0x6C, 0xFF, 0x02]);
    cpu.bus.mem_write(0x02FF, 0x34);
    cpu.bus.mem_write(0x0300, 0x99); // would be used without the quirk
    cpu.bus.mem_write(0x0200, 0x12);

    cpu.step();

    assert_eq!(cpu.pc, 0x1234);
}

#[test]
fn test_run_until_frame_sees_the_vblank_nmi() {
    // enable the NMI in a tight loop; the frame signal arrives within
    // one frame's worth of steps
    let mut cpu = cpu_with_program(&[
        0xA9, 0x80, // LDA #$80
        0x8D, 0x00, 0x20, // STA $2000
        0x4C, 0x05, 0x80, // JMP $8005
    ]);
    assert!(cpu.run_until_frame());
    // the NMI was serviced: InterruptDisable is set
    assert_ne!(cpu.status & FLAG_INTERRUPT, 0);
}
