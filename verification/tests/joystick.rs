use c64_emu::system::joystick::{
    JoystickPorts, JoystickState, JOY_DOWN, JOY_FIRE, JOY_LEFT, JOY_RIGHT, JOY_UP,
};

#[test]
fn test_joystick_state_new() {
    let joy = JoystickState::new();
    assert_eq!(joy.get(), 0);
    assert!(!joy.up());
    assert!(!joy.down());
    assert!(!joy.left());
    assert!(!joy.right());
    assert!(!joy.fire());
}

#[test]
fn test_joystick_state_set() {
    let mut joy = JoystickState::new();
    joy.set(JOY_UP | JOY_FIRE);
    assert!(joy.up());
    assert!(joy.fire());
    assert!(!joy.down());
    assert!(!joy.left());
    assert!(!joy.right());
}

#[test]
fn test_joystick_state_active_low() {
    let mut joy = JoystickState::new();
    // No buttons pressed = all 1s (active-low)
    assert_eq!(joy.get_active_low(), 0x1F);

    // All buttons pressed = all 0s (active-low)
    joy.set(0x1F);
    assert_eq!(joy.get_active_low(), 0x00);

    // Up pressed = bit 0 is 0
    joy.set(JOY_UP);
    assert_eq!(joy.get_active_low(), 0x1E);
}

#[test]
fn test_joystick_state_individual_buttons() {
    let mut joy = JoystickState::new();

    joy.press_up();
    assert!(joy.up());
    joy.release_up();
    assert!(!joy.up());

    joy.press_down();
    assert!(joy.down());

    joy.press_left();
    assert!(joy.left());

    joy.press_right();
    assert!(joy.right());

    joy.press_fire();
    assert!(joy.fire());

    // Multiple buttons can be pressed
    assert_eq!(joy.get(), JOY_DOWN | JOY_LEFT | JOY_RIGHT | JOY_FIRE);

    joy.release_all();
    assert_eq!(joy.get(), 0);
}

#[test]
fn test_joystick_ports_basic() {
    let mut ports = JoystickPorts::new();

    ports.set_port(1, JOY_UP);
    ports.set_port(2, JOY_FIRE);

    assert!(ports.physical_port1().up());
    assert!(ports.physical_port2().fire());
}

#[test]
fn test_joystick_ports_swapped() {
    let mut ports = JoystickPorts::new();
    ports.set_swapped(true);

    // With swap, port 2 input goes to physical port 1
    ports.set_port(2, JOY_UP);
    ports.set_port(1, JOY_FIRE);

    assert!(ports.physical_port1().up()); // Port 2 input went here
    assert!(ports.physical_port2().fire()); // Port 1 input went here
}

#[test]
fn test_joystick_ports_toggle_swap() {
    let mut ports = JoystickPorts::new();
    assert!(!ports.is_swapped());

    ports.toggle_swap();
    assert!(ports.is_swapped());

    ports.toggle_swap();
    assert!(!ports.is_swapped());
}

#[test]
fn test_joystick_ports_release_all() {
    let mut ports = JoystickPorts::new();
    ports.set_port(1, JOY_UP | JOY_FIRE);
    ports.set_port(2, JOY_DOWN | JOY_LEFT);

    ports.release_all();

    assert_eq!(ports.physical_port1().get(), 0);
    assert_eq!(ports.physical_port2().get(), 0);
}

