use sandchip::cpu::CPU;
use sandchip::machine::Outcome;

fn loaded(words: &[u16]) -> CPU {
    let mut rom: Vec<u8> = Vec::new();
    for word in words {
        rom.push((word >> 8) as u8);
        rom.push((word & 0xFF) as u8);
    }
    let mut cpu = CPU::new();
    assert_eq!(cpu.load_rom(&rom), Ok(()));
    cpu
}

fn screen_is_blank(cpu: &CPU) -> bool {
    cpu.vram.iter().all(|row| row.iter().all(|cell| *cell == 0))
}

#[test]
fn clear_screen_then_jump_back() {
    let mut cpu = loaded(&[0x00E0, 0x1200]);
    assert_eq!(cpu.tick(), Outcome::Executed);
    assert!(screen_is_blank(&cpu));
    assert!(cpu.update_screen);
    assert_eq!(cpu.pc(), 0x202);
    let registers: [u8; 16] = *cpu.registers();
    let memory: Vec<u8> = cpu.ram().to_vec();
    for _ in 0..50 {
        // the jump goes back to the entry point, where the clear runs again
        assert_eq!(cpu.tick(), Outcome::Executed);
        assert_eq!(cpu.pc(), 0x200);
        assert_eq!(cpu.tick(), Outcome::Executed);
        assert_eq!(cpu.pc(), 0x202);
        assert!(screen_is_blank(&cpu));
        assert!(cpu.update_screen);
        assert_eq!(*cpu.registers(), registers);
        assert_eq!(cpu.ram().to_vec(), memory);
        assert_eq!(cpu.i(), 0);
        assert_eq!(cpu.stack_depth(), 0);
    }
}

#[test]
fn clear_screen_then_jump_to_self() {
    let mut cpu = loaded(&[0x00E0, 0x1202]);
    assert_eq!(cpu.tick(), Outcome::Executed);
    assert!(screen_is_blank(&cpu));
    assert!(cpu.update_screen);
    cpu.update_screen = false;
    let registers: [u8; 16] = *cpu.registers();
    let memory: Vec<u8> = cpu.ram().to_vec();
    for _ in 0..200 {
        assert_eq!(cpu.tick(), Outcome::Executed);
        assert_eq!(cpu.pc(), 0x202);
        assert!(screen_is_blank(&cpu));
        assert!(!cpu.update_screen);
        assert_eq!(*cpu.registers(), registers);
        assert_eq!(cpu.ram().to_vec(), memory);
        assert_eq!(cpu.i(), 0);
        assert_eq!(cpu.stack_depth(), 0);
        assert_eq!(cpu.keypad, [0u8; 16]);
    }
}

#[test]
fn load_load_add() {
    let mut cpu = loaded(&[0x6005, 0x6103, 0x8014]);
    assert_eq!(cpu.tick(), Outcome::Executed);
    assert_eq!(cpu.tick(), Outcome::Executed);
    assert_eq!(cpu.tick(), Outcome::Executed);
    assert_eq!(cpu.registers()[0], 8);
    assert_eq!(cpu.registers()[1], 3);
    assert_eq!(cpu.registers()[0xF], 0);
    assert_eq!(cpu.pc(), 0x206);
}

#[test]
fn counting_loop_runs_to_its_end() {
    // V0 = 0; loop: V0 += 1; if V0 != 10 jump loop; I = V0 glyph
    let mut cpu = loaded(&[0x6000, 0x7001, 0x300A, 0x1202, 0xF029]);
    let mut ticks: u32 = 0;
    while cpu.pc() != 0x20A {
        assert_eq!(cpu.tick(), Outcome::Executed);
        ticks += 1;
        assert!(ticks < 1000);
    }
    assert_eq!(cpu.registers()[0], 10);
    assert_eq!(cpu.i(), 50);
    assert_eq!(ticks, 1 + 9 * 3 + 2 + 1);
}
