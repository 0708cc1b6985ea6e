use rust_nes::controller::controller_state::ControllerState;
use rust_nes::controller::{Controller, CONTROLLER_OPEN_BUS};

#[test]
fn strobe_then_reads_report_buttons_in_order() {
    let mut controller = Controller::default();
    // A, Start and Right held.
    controller.set_controller_state(true, false, false, true, false, false, false, true);
    assert_eq!(controller.controller_state, ControllerState(0b1000_1001));
    controller.write(&1);
    controller.write(&0);
    let expected = [1, 0, 0, 1, 0, 0, 0, 1];
    for bit in expected {
        assert_eq!(controller.read(&0), bit | CONTROLLER_OPEN_BUS);
    }
    // Past the eighth button the port reads 1.
    assert_eq!(controller.read(&0), 1 | CONTROLLER_OPEN_BUS);
}

#[test]
fn strobe_held_keeps_reporting_a() {
    let mut controller = Controller::default();
    controller.set_controller_state(true, true, false, false, false, false, false, false);
    for _ in 0..4 {
        assert_eq!(controller.read(&1), 0x41);
    }
    assert_eq!(controller.button_shift, 0);
}

#[test]
fn releasing_a_key_clears_its_bit() {
    let mut controller = Controller::default();
    controller.set_controller_state(true, true, false, true, true, true, true, true);
    assert_eq!(controller.controller_state.get(), 0b1111_1011);
    controller.set_controller_state(false, true, true, true, true, true, true, true);
    assert_eq!(controller.controller_state.get(), 0b1111_1110);
    let mut state = ControllerState(0);
    state.set_select(true);
    assert_eq!(state.get(), 0b100);
}

#[test]
fn shift_register_interface() {
    let mut controller = Controller::default();
    controller.buttons[7] = true;
    controller.buttons[6] = true;
    controller.set_state();
    assert_eq!(controller.state, 0xC0);
    assert_eq!(controller.get_msb(), 1);
    assert_eq!(controller.get_msb(), 1);
    assert_eq!(controller.get_msb(), 0);
    assert_eq!(controller.state, 0);
    // A reload reports exactly the buttons held: released ones are cleared.
    controller.state = 0xFF;
    controller.buttons[6] = false;
    controller.set_state();
    assert_eq!(controller.state, 0x80);
    controller.buttons[7] = false;
    controller.set_state();
    assert_eq!(controller.state, 0);
}
