use chip8::instruction::Instruction;
use chip8::interpreter::Interpreter;
use chip8::screen::PIXEL_SIZE;

#[test]
fn a_dark_screen_shows_nothing() {
    let m = Interpreter::new(Vec::new());
    assert!(m.draw().is_empty());
}

#[test]
fn lit_pixels_become_squares_row_by_row() {
    let mut m = Interpreter::new(Vec::new());
    m.vram[64 * 31 + 63] = 1;
    m.vram[1] = 1;
    m.vram[64] = 1;
    m.vram[0] = 1;
    assert_eq!(m.draw(), vec![(0, 0), (16, 0), (0, 16), (1008, 496)]);
    assert_eq!(PIXEL_SIZE, 16);
}

#[test]
fn the_second_row_starts_after_sixty_four_pixels() {
    let mut m = Interpreter::new(Vec::new());
    m.vram[40] = 1;
    assert_eq!(m.draw(), vec![(640, 0)]);
    m.vram[40] = 0;
    m.vram[64 + 8] = 1;
    assert_eq!(m.draw(), vec![(128, 16)]);
}

#[test]
fn a_drawn_sprite_is_shown_where_it_landed() {
    let mut m = Interpreter::new(Vec::new());
    m.i = 0x300;
    m.memory[0x300] = 0b1001_0000;
    m.regs[0] = 62;
    m.regs[1] = 3;
    assert_eq!(m.run_instruction(&Instruction::OP_DXYN(0, 1, 1)), Ok(()));
    assert_eq!(m.draw(), vec![(16, 48), (992, 48)]);
}

#[test]
fn a_full_screen_shows_every_square_once() {
    let mut m = Interpreter::new(Vec::new());
    m.vram = [1; 2048];
    let cells = m.draw();
    assert_eq!(cells.len(), 2048);
    assert_eq!(cells[0], (0, 0));
    assert_eq!(cells[63], (1008, 0));
    assert_eq!(cells[64], (0, 16));
    assert_eq!(cells[2047], (1008, 496));
}
