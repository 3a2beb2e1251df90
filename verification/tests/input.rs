use sandchip::cpu::CPU;
use sandchip::input::{Input, KeyAction, KeymapError, ESCAPE_KEYCODE};

#[test]
fn key_names_of_a_json_list() {
    let names = Input::key_names("[\"X\", \"1\", \"Left Shift\"]");
    assert_eq!(
        names,
        Ok(vec!["X".to_string(), "1".to_string(), "Left Shift".to_string()])
    );
}

#[test]
fn key_names_unescapes_strings() {
    assert_eq!(Input::key_names(" [ \"a\\\"b\", \"\\u0041\" ] "), Ok(vec!["a\"b".to_string(), "A".to_string()]));
}

#[test]
fn key_names_of_an_empty_list() {
    assert_eq!(Input::key_names("[]"), Ok(Vec::new()));
}

#[test]
fn key_names_refuses_what_is_no_json() {
    assert_eq!(Input::key_names("[\"X\", "), Err(KeymapError::NotAStringList));
    assert_eq!(Input::key_names(""), Err(KeymapError::NotAStringList));
    assert_eq!(Input::key_names("[\"X\"] trailing"), Err(KeymapError::NotAStringList));
}

#[test]
fn key_names_refuses_json_of_another_shape() {
    assert_eq!(Input::key_names("[1, 2]"), Err(KeymapError::NotAStringList));
    assert_eq!(Input::key_names("{\"X\": 0}"), Err(KeymapError::NotAStringList));
    assert_eq!(Input::key_names("\"X\""), Err(KeymapError::NotAStringList));
}

#[test]
fn keycodes_lead_to_their_places() {
    let input = Input::from_keycodes(&vec![120, 49, 50, 51]);
    assert_eq!(input.keymap.len(), 4);
    assert_eq!(input.keymap.get(&120), Some(&0));
    assert_eq!(input.keymap.get(&51), Some(&3));
    assert_eq!(input.keymap.get(&52), None);
    assert_eq!(input.slot(49), Some(1));
    assert_eq!(input.slot(48), None);
}

#[test]
fn repeated_keycode_leads_to_its_last_place() {
    let input = Input::from_keycodes(&vec![7, 8, 7, 9]);
    assert_eq!(input.keymap.len(), 3);
    assert_eq!(input.slot(7), Some(2));
    assert_eq!(input.slot(8), Some(1));
}

#[test]
fn no_keycodes_make_an_empty_table() {
    let input = Input::from_keycodes(&Vec::new());
    assert!(input.keymap.is_empty());
    assert_eq!(input.slot(0), None);
}

#[test]
fn key_down_sets_the_slot() {
    let input = Input::from_keycodes(&vec![120, 49, 50, 51]);
    let mut cpu = CPU::new();
    assert_eq!(input.handle_key_down(50, &mut cpu), KeyAction::Continue);
    let mut expected: [u8; 16] = [0; 16];
    expected[2] = 1;
    assert_eq!(cpu.keypad, expected);
    assert_eq!(input.handle_key_down(50, &mut cpu), KeyAction::Continue);
    assert_eq!(cpu.keypad, expected);
}

#[test]
fn key_up_clears_the_slot() {
    let input = Input::from_keycodes(&vec![120, 49, 50, 51]);
    let mut cpu = CPU::new();
    cpu.keypad = [1; 16];
    input.handle_key_up(51, &mut cpu);
    let mut expected: [u8; 16] = [1; 16];
    expected[3] = 0;
    assert_eq!(cpu.keypad, expected);
}

#[test]
fn unknown_key_changes_nothing() {
    let input = Input::from_keycodes(&vec![120, 49]);
    let mut cpu = CPU::new();
    assert_eq!(input.handle_key_down(1000, &mut cpu), KeyAction::Continue);
    assert_eq!(cpu.keypad, [0u8; 16]);
    cpu.keypad = [1; 16];
    input.handle_key_up(1000, &mut cpu);
    assert_eq!(cpu.keypad, [1u8; 16]);
}

#[test]
fn escape_asks_for_the_end() {
    let input = Input::from_keycodes(&vec![ESCAPE_KEYCODE, 49]);
    let mut cpu = CPU::new();
    assert_eq!(ESCAPE_KEYCODE, 27);
    assert_eq!(input.handle_key_down(ESCAPE_KEYCODE, &mut cpu), KeyAction::Exit);
    assert_eq!(cpu.keypad, [0u8; 16]);
    cpu.keypad = [1; 16];
    input.handle_key_up(ESCAPE_KEYCODE, &mut cpu);
    assert_eq!(cpu.keypad[0], 0);
}

#[test]
fn key_beyond_the_keypad_is_ignored() {
    let codes: Vec<i32> = (100..120).collect();
    let input = Input::from_keycodes(&codes);
    assert_eq!(input.keymap.get(&116), Some(&16));
    assert_eq!(input.slot(115), Some(15));
    assert_eq!(input.slot(116), None);
    let mut cpu = CPU::new();
    assert_eq!(input.handle_key_down(116, &mut cpu), KeyAction::Continue);
    assert_eq!(input.handle_key_down(119, &mut cpu), KeyAction::Continue);
    assert_eq!(cpu.keypad, [0u8; 16]);
    assert_eq!(input.handle_key_down(115, &mut cpu), KeyAction::Continue);
    assert_eq!(cpu.keypad[15], 1);
}

#[test]
fn key_held_is_seen_by_the_program() {
    let input = Input::from_keycodes(&vec![10, 11, 12]);
    let mut cpu = CPU::new();
    // V0 = 2; skip if key V0 is pressed
    assert_eq!(cpu.load_rom(&vec![0x60, 0x02, 0xE0, 0x9E]), Ok(()));
    input.handle_key_down(12, &mut cpu);
    cpu.tick();
    cpu.tick();
    assert_eq!(cpu.pc(), 0x206);
}

#[test]
fn keycodes_of_names_that_were_all_found() {
    assert_eq!(Input::keycodes(&vec![Some(120), Some(49), Some(120)]), Ok(vec![120, 49, 120]));
    assert_eq!(Input::keycodes(&Vec::new()), Ok(Vec::new()));
}

#[test]
fn keycodes_reports_the_first_unknown_name() {
    assert_eq!(
        Input::keycodes(&vec![Some(120), None, Some(49), None]),
        Err(KeymapError::UnknownKey(1))
    );
    assert_eq!(Input::keycodes(&vec![None]), Err(KeymapError::UnknownKey(0)));
    assert_eq!(Input::keycodes(&vec![Some(1), Some(2), None]), Err(KeymapError::UnknownKey(2)));
}
