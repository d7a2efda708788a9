use chip8::chip8::{Chip8, CpuState};
use chip8::keypad::Keypad;

#[test]
fn keypad_starts_released_and_records_presses() {
    let mut k = Keypad::new();
    assert_eq!(k.size(), 16);
    for i in 0..16 {
        assert!(!k.is_key_pressed(i));
    }
    k.set_key(0xC, true);
    assert!(k.is_key_pressed(0xC));
    assert!(!k.is_key_pressed(0xB));
    k.set_key(0xC, false);
    assert!(!k.is_key_pressed(0xC));
}

#[test]
fn wait_suspends_without_advancing_pc() {
    let mut c = Chip8::new();
    let rom = vec![0xF1, 0x0A]; // wait for a key into V1
    c.load_rom(&rom).unwrap();
    assert_eq!(c.cycle(), Ok(()));
    assert_eq!(c.pc, 0x200); // still at the wait instruction
    assert_eq!(c.state, CpuState::AwaitingKey { reg: 1 });
    // with no key pressed, any number of cycles changes nothing
    for _ in 0..10 {
        assert_eq!(c.cycle(), Ok(()));
        assert_eq!(c.pc, 0x200);
        assert_eq!(c.state, CpuState::AwaitingKey { reg: 1 });
        assert_eq!(c.v[1], 0);
    }
}

#[test]
fn wait_resumes_on_key_press_and_never_reexecutes() {
    let mut c = Chip8::new();
    // the wait, then LD V2, 0x33 as the next instruction
    let rom = vec![0xF1, 0x0A, 0x62, 0x33];
    c.load_rom(&rom).unwrap();
    assert_eq!(c.cycle(), Ok(()));
    assert_eq!(c.cycle(), Ok(())); // idle poll
    c.keypad.set_key(7, true);
    assert_eq!(c.cycle(), Ok(()));
    assert_eq!(c.v[1], 7);
    assert_eq!(c.pc, 0x202); // advanced by exactly 2
    assert_eq!(c.state, CpuState::Running);
    // the next cycle runs the following instruction, not the wait again
    assert_eq!(c.cycle(), Ok(()));
    assert_eq!(c.v[2], 0x33);
    assert_eq!(c.pc, 0x204);
}

#[test]
fn wait_stores_lowest_pressed_key() {
    let mut c = Chip8::new();
    let rom = vec![0xF0, 0x0A];
    c.load_rom(&rom).unwrap();
    assert_eq!(c.cycle(), Ok(()));
    c.keypad.set_key(9, true);
    c.keypad.set_key(4, true);
    c.keypad.set_key(11, true);
    assert_eq!(c.cycle(), Ok(()));
    assert_eq!(c.v[0], 4);
    assert_eq!(c.state, CpuState::Running);
}

#[test]
fn waiting_machine_still_ticks_timers() {
    let mut c = Chip8::new();
    let rom = vec![0xF1, 0x0A];
    c.load_rom(&rom).unwrap();
    c.op_6xkk(5, 3);
    c.op_fx15(5);
    assert_eq!(c.cycle(), Ok(()));
    assert_eq!(c.state, CpuState::AwaitingKey { reg: 1 });
    c.decrement_timers();
    assert_eq!(c.delay_timer, 2);
    assert_eq!(c.state, CpuState::AwaitingKey { reg: 1 });
}
