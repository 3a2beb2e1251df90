use sandchip::display::{
    cell_color, cell_rect, CellColor, CellRect, SCALE_FACTOR, SCREEN_HEIGHT, SCREEN_WIDTH,
};
use sandchip::stack::CallStack;

#[test]
fn window_is_the_framebuffer_scaled() {
    assert_eq!(SCALE_FACTOR, 20);
    assert_eq!(SCREEN_WIDTH, 1280);
    assert_eq!(SCREEN_HEIGHT, 640);
}

#[test]
fn cell_rect_of_the_corners() {
    assert_eq!(cell_rect(0, 0), CellRect { x: 0, y: 0, width: 20, height: 20 });
    assert_eq!(cell_rect(63, 31), CellRect { x: 1260, y: 620, width: 20, height: 20 });
}

#[test]
fn cell_rect_takes_column_then_row() {
    assert_eq!(cell_rect(3, 2), CellRect { x: 60, y: 40, width: 20, height: 20 });
}

#[test]
fn cell_color_is_black_or_green() {
    assert_eq!(cell_color(0), CellColor { r: 0, g: 0, b: 0 });
    assert_eq!(cell_color(1), CellColor { r: 0, g: 255, b: 0 });
    assert_eq!(cell_color(7), CellColor { r: 0, g: 255, b: 0 });
}

#[test]
fn call_stack_gives_back_in_reverse() {
    let mut stack = CallStack::new();
    assert_eq!(stack.depth(), 0);
    assert_eq!(stack.pop(), None);
    assert!(stack.push(0x202));
    assert!(stack.push(0x300));
    assert_eq!(stack.depth(), 2);
    assert_eq!(stack.pop(), Some(0x300));
    assert_eq!(stack.pop(), Some(0x202));
    assert_eq!(stack.pop(), None);
    assert_eq!(stack.depth(), 0);
}

#[test]
fn call_stack_holds_sixteen() {
    let mut stack = CallStack::new();
    for addr in 0..16u16 {
        assert!(stack.push(addr));
    }
    assert!(!stack.push(99));
    assert_eq!(stack.depth(), 16);
    assert_eq!(stack.pop(), Some(15));
    assert!(stack.push(99));
    assert_eq!(stack.pop(), Some(99));
}
