use sandchip::cpu::CPU;
use sandchip::machine::{Fault, Outcome};
use sandchip::{VRAM_HEIGHT, VRAM_WIDTH};

fn sprite_program(words: &[u16]) -> CPU {
    let mut rom: Vec<u8> = Vec::new();
    for word in words {
        rom.push((word >> 8) as u8);
        rom.push((word & 0xFF) as u8);
    }
    let mut cpu = CPU::new();
    assert_eq!(cpu.load_rom(&rom), Ok(()));
    cpu
}

fn go(cpu: &mut CPU, ticks: usize) {
    for _ in 0..ticks {
        assert_eq!(cpu.tick(), Outcome::Executed);
    }
}

fn lit(cpu: &CPU) -> Vec<(usize, usize)> {
    let mut cells: Vec<(usize, usize)> = Vec::new();
    for row in 0..VRAM_HEIGHT {
        for col in 0..VRAM_WIDTH {
            if cpu.vram[row][col] != 0 {
                assert_eq!(cpu.vram[row][col], 1);
                cells.push((row, col));
            }
        }
    }
    cells
}

#[test]
fn draws_the_glyph_for_zero() {
    // I = glyph 0 (F0 90 90 90 F0), drawn at column 2, row 1
    let mut cpu = sprite_program(&[0x6002, 0x6101, 0x6200, 0xF229, 0xD015]);
    go(&mut cpu, 4);
    cpu.update_screen = false;
    go(&mut cpu, 1);
    assert_eq!(
        lit(&cpu),
        vec![
            (1, 2), (1, 3), (1, 4), (1, 5),
            (2, 2), (2, 5),
            (3, 2), (3, 5),
            (4, 2), (4, 5),
            (5, 2), (5, 3), (5, 4), (5, 5),
        ]
    );
    assert_eq!(cpu.registers()[0xF], 0);
    assert!(cpu.update_screen);
    assert_eq!(cpu.pc(), 0x20A);
    assert_eq!(cpu.i(), 0);
}

#[test]
fn drawing_twice_restores_the_screen() {
    let mut cpu = sprite_program(&[0x6002, 0x6101, 0x620A, 0xF229, 0xD015, 0xD015]);
    cpu.vram[3][3] = 1;
    cpu.vram[20][40] = 1;
    let before = cpu.vram;
    go(&mut cpu, 5);
    assert_ne!(cpu.vram, before);
    go(&mut cpu, 1);
    assert_eq!(cpu.vram, before);
    // the second draw put out what the first one lit
    assert_eq!(cpu.registers()[0xF], 1);
}

#[test]
fn second_draw_leaves_the_flag_clear_when_the_first_lit_nothing() {
    // a one-row sprite 0xC0 over two cells that are lit already
    let mut cpu = sprite_program(&[0xA208, 0xD011, 0xD011, 0x0000, 0xC000]);
    cpu.vram[0][0] = 1;
    cpu.vram[0][1] = 1;
    go(&mut cpu, 2);
    assert_eq!(lit(&cpu), vec![]);
    assert_eq!(cpu.registers()[0xF], 1);
    go(&mut cpu, 1);
    assert_eq!(lit(&cpu), vec![(0, 0), (0, 1)]);
    assert_eq!(cpu.registers()[0xF], 0);
}

#[test]
fn collision_sets_the_flag_and_puts_the_pixel_out() {
    let mut cpu = sprite_program(&[0xA204, 0xD011, 0xF000]);
    cpu.vram[0][1] = 1;
    cpu.vram[0][7] = 1;
    go(&mut cpu, 2);
    assert_eq!(lit(&cpu), vec![(0, 0), (0, 2), (0, 3), (0, 7)]);
    assert_eq!(cpu.registers()[0xF], 1);
}

#[test]
fn no_collision_clears_a_flag_that_was_set() {
    let mut cpu = sprite_program(&[0x6F01, 0xA206, 0xD011, 0x8000]);
    cpu.vram[0][1] = 1;
    go(&mut cpu, 3);
    assert_eq!(lit(&cpu), vec![(0, 0), (0, 1)]);
    assert_eq!(cpu.registers()[0xF], 0);
}

#[test]
fn sprite_wraps_around_the_right_edge() {
    // 0xFF at column 63: the first bit in column 63, the others in columns 0 to 6
    let mut cpu = sprite_program(&[0x603F, 0x6105, 0xA208, 0xD011, 0xFF00]);
    go(&mut cpu, 4);
    assert_eq!(
        lit(&cpu),
        vec![(5, 0), (5, 1), (5, 2), (5, 3), (5, 4), (5, 5), (5, 6), (5, 63)]
    );
}

#[test]
fn sprite_wraps_around_the_bottom_edge() {
    let mut cpu = sprite_program(&[0x6000, 0x611F, 0xA208, 0xD013, 0x8040, 0x2000]);
    go(&mut cpu, 4);
    assert_eq!(lit(&cpu), vec![(0, 1), (1, 2), (31, 0)]);
}

#[test]
fn coordinates_beyond_the_screen_wrap() {
    // column 200 is column 8, row 100 is row 4
    let mut cpu = sprite_program(&[0x60C8, 0x6164, 0xA208, 0xD011, 0x8100]);
    go(&mut cpu, 4);
    assert_eq!(lit(&cpu), vec![(4, 8), (4, 15)]);
}

#[test]
fn sprite_of_no_rows_marks_the_screen_only() {
    let mut cpu = sprite_program(&[0x6F01, 0xAFFF, 0xD010]);
    cpu.vram[0][0] = 1;
    go(&mut cpu, 2);
    cpu.update_screen = false;
    go(&mut cpu, 1);
    assert_eq!(lit(&cpu), vec![(0, 0)]);
    assert_eq!(cpu.registers()[0xF], 0);
    assert!(cpu.update_screen);
    assert_eq!(cpu.pc(), 0x206);
}

#[test]
fn sprite_beyond_memory_faults() {
    let mut cpu = sprite_program(&[0x6F07, 0xAFFF, 0xD012]);
    go(&mut cpu, 2);
    cpu.update_screen = false;
    assert_eq!(cpu.tick(), Outcome::Fault(Fault::MemoryOutOfBounds));
    assert_eq!(cpu.registers()[0xF], 7);
    assert!(!cpu.update_screen);
    assert_eq!(cpu.pc(), 0x204);
    assert_eq!(lit(&cpu), vec![]);
}

#[test]
fn sprite_at_the_end_of_memory_is_drawn() {
    let mut rom: Vec<u8> = vec![0xAF, 0xFE, 0xD0, 0x02];
    rom.resize(0xE00, 0);
    rom[0xDFE] = 0x80;
    rom[0xDFF] = 0x01;
    let mut cpu = CPU::new();
    assert_eq!(cpu.load_rom(&rom), Ok(()));
    go(&mut cpu, 2);
    assert_eq!(lit(&cpu), vec![(0, 0), (1, 7)]);
}

#[test]
fn flag_register_as_column_is_read_as_the_draw_goes() {
    // x is the flag register: cleared to column 0, and column 1 from the first collision on
    let mut cpu = sprite_program(&[0x6F0A, 0xA206, 0xDF11, 0xC000]);
    cpu.vram[0][0] = 1;
    go(&mut cpu, 3);
    assert_eq!(lit(&cpu), vec![(0, 2)]);
    assert_eq!(cpu.registers()[0xF], 1);
}
