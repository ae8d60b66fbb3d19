use kernel_core::keyboard_driver::{KeyboardDriver, LOWER_CASE_OFFSET};
use kernel_core::ps2::{
    identify_action, identify_advance, identity_devices, read_status, IdentifyPhase,
    KeyboardInitError, PS2Error, Ps2Action,
};

#[test]
fn identify_returns_the_id_pair_after_both_acks() {
    let reads = vec![0xfa, 0xfa, 0x41, 0x42];
    let (writes, result) = identity_devices(&reads);
    assert_eq!(result, Ok((0x41, 0x42)));
    assert_eq!(writes, vec![0xf5, 0xf2, 0xf4]);
}

#[test]
fn missing_disable_ack_fails_early() {
    let reads = vec![0x00, 0xfa, 0x41, 0x42];
    let (writes, result) = identity_devices(&reads);
    assert_eq!(result, Err(KeyboardInitError::NoDisableAck));
    assert_eq!(writes, vec![0xf5]);
}

#[test]
fn missing_identify_ack_fails_after_identify_command() {
    let reads = vec![0xfa, 0x00, 0x41, 0x42];
    let (writes, result) = identity_devices(&reads);
    assert_eq!(result, Err(KeyboardInitError::NoIdentiyAck));
    assert_eq!(writes, vec![0xf5, 0xf2]);
}

#[test]
fn step_machine_walks_the_happy_path() {
    let mut phase = IdentifyPhase::SendDisable;
    assert_eq!(identify_action(&phase), Ps2Action::WriteData(0xf5));
    phase = identify_advance(phase, None);
    assert_eq!(identify_action(&phase), Ps2Action::ReadData);
    phase = identify_advance(phase, Some(0xfa));
    assert_eq!(identify_action(&phase), Ps2Action::WriteData(0xf2));
    phase = identify_advance(phase, None);
    assert_eq!(identify_action(&phase), Ps2Action::ReadData);
    phase = identify_advance(phase, Some(0xfa));
    assert_eq!(identify_action(&phase), Ps2Action::ReadData);
    phase = identify_advance(phase, Some(0x41));
    assert_eq!(identify_action(&phase), Ps2Action::ReadData);
    phase = identify_advance(phase, Some(0x42));
    assert_eq!(identify_action(&phase), Ps2Action::WriteData(0xf4));
    phase = identify_advance(phase, None);
    assert_eq!(phase, IdentifyPhase::Done { first: 0x41, second: 0x42 });
    assert_eq!(identify_action(&phase), Ps2Action::Finished);
}

#[test]
fn step_machine_fails_on_bad_ack() {
    let mut phase = IdentifyPhase::SendDisable;
    phase = identify_advance(phase, None);
    phase = identify_advance(phase, Some(0x00));
    assert_eq!(phase, IdentifyPhase::Failed { error: KeyboardInitError::NoDisableAck });
    let stuck = identify_advance(phase, None);
    assert_eq!(stuck, phase);
}

#[test]
fn driver_initialise_keeps_the_id_pair() {
    let reads = vec![0xfa, 0xfa, 0xab, 0x83];
    let drv = KeyboardDriver::initialise(&reads).unwrap();
    assert_eq!(drv.b1, 0xab);
    assert_eq!(drv.b2, 0x83);
    assert_eq!(drv.shift_offset, LOWER_CASE_OFFSET);
}

#[test]
fn driver_initialise_surfaces_handshake_failure() {
    let reads = vec![0x12, 0x00, 0x00, 0x00];
    let r = KeyboardDriver::initialise(&reads);
    assert!(matches!(r, Err(KeyboardInitError::NoDisableAck)));
}

#[test]
fn status_error_bits_take_precedence() {
    assert_eq!(read_status(0x40), Err(PS2Error::TimeOut));
    assert_eq!(read_status(0x80), Err(PS2Error::Parity));
    // Timeout is tested first when both error bits are set.
    assert_eq!(read_status(0xc0), Err(PS2Error::TimeOut));
    assert_eq!(read_status(0xc5), Err(PS2Error::TimeOut));
    assert_eq!(read_status(0x85), Err(PS2Error::Parity));
}

#[test]
fn status_condition_flags_decode_their_own_bits() {
    let s = read_status(0x00).unwrap();
    assert!(!s.output_buf_full && !s.input_buf_full && !s.sys_flag && !s.data_for_device);
    let s = read_status(0x01).unwrap();
    assert!(s.output_buf_full && !s.input_buf_full && !s.sys_flag && !s.data_for_device);
    let s = read_status(0x02).unwrap();
    assert!(!s.output_buf_full && s.input_buf_full && !s.sys_flag && !s.data_for_device);
    let s = read_status(0x04).unwrap();
    assert!(!s.output_buf_full && !s.input_buf_full && s.sys_flag && !s.data_for_device);
    let s = read_status(0x08).unwrap();
    assert!(!s.output_buf_full && !s.input_buf_full && !s.sys_flag && s.data_for_device);
    let s = read_status(0x0f).unwrap();
    assert!(s.output_buf_full && s.input_buf_full && s.sys_flag && s.data_for_device);
    // Bits 4 and 5 belong to neither a condition nor an error flag.
    let s = read_status(0x30).unwrap();
    assert!(!s.output_buf_full && !s.input_buf_full && !s.sys_flag && !s.data_for_device);
}

#[test]
fn controller_init_is_a_no_op_on_this_boot_path() {
    kernel_core::ps2::init_ps2();
}
