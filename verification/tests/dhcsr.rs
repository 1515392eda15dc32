use mke_mdm_ap::dhcsr::{Dhcsr, DHCSR_ADDRESS, DHCSR_C_DEBUGEN_BIT, DHCSR_C_HALT_BIT, DHCSR_DEBUG_KEY};

#[test]
fn dhcsr_constants() {
    assert_eq!(DHCSR_ADDRESS, 0xE000_EDF0);
    assert_eq!(DHCSR_DEBUG_KEY, 0xA05F);
    assert_eq!(DHCSR_C_DEBUGEN_BIT, 1);
    assert_eq!(DHCSR_C_HALT_BIT, 2);
}

#[test]
fn halt_request_word() {
    assert_eq!(Dhcsr::halt_request(), 0xA05F_0003);
}

#[test]
fn halt_bit_is_set_and_cleared() {
    let mut dhcsr = Dhcsr(0);
    dhcsr.set_c_halt(true);
    assert_eq!(dhcsr.0, 0b10);
    dhcsr.set_c_halt(true);
    assert_eq!(dhcsr.0, 0b10);
    dhcsr.set_c_halt(false);
    assert_eq!(dhcsr.0, 0);
    let mut dhcsr = Dhcsr(0xFFFF_FFFF);
    dhcsr.set_c_halt(false);
    assert_eq!(dhcsr.0, 0xFFFF_FFFD);
}

#[test]
fn debugen_bit_is_set_and_cleared() {
    let mut dhcsr = Dhcsr(0);
    dhcsr.set_c_debugen(true);
    assert_eq!(dhcsr.0, 0b01);
    dhcsr.set_c_debugen(false);
    assert_eq!(dhcsr.0, 0);
    let mut dhcsr = Dhcsr(0xFFFF_FFFF);
    dhcsr.set_c_debugen(false);
    assert_eq!(dhcsr.0, 0xFFFF_FFFE);
}

#[test]
fn enable_write_replaces_the_upper_half() {
    let mut dhcsr = Dhcsr(0x1234_5678);
    dhcsr.enable_write();
    assert_eq!(dhcsr.0, 0xA05F_5678);
    let mut dhcsr = Dhcsr(0);
    dhcsr.enable_write();
    assert_eq!(dhcsr.0, 0xA05F_0000);
}
