use mke_mdm_ap::errors::{clear_reset_message, wrap_quoted, Error};
use mke_mdm_ap::exchange::Fault;

fn message(error: &Error) -> &str {
    match error {
        Error::MdmExample(message) => message,
    }
}

#[test]
fn read_fault_message() {
    let error = Error::from_fault(Fault::ReadRegister, "Timeout");
    assert_eq!(message(&error), "iface.read_raw_ap_register");
}

#[test]
fn reset_timeout_message() {
    let error = Error::from_fault(Fault::ResetTimeout, "");
    assert_eq!(message(&error), " Reset: System not reseting reset after 20ms");
}

#[test]
fn flash_not_ready_message() {
    let error = Error::from_fault(Fault::FlashNotReady, "");
    assert_eq!(message(&error), "Flash module not ready! MKE_MDM_STATUS_FLASH_READY_BIT = 1");
}

#[test]
fn write_bit_fault_message() {
    let error = Error::from_fault(Fault::WriteControlBit { bit: 0x4, old_value: 0x8 }, "Timeout");
    assert_eq!(
        message(&error),
        "While write_mdm_ap_control_bit 0x0004, old_value 0x0008, : error Timeout, "
    );
}

#[test]
fn write_new_fault_message() {
    let error = Error::from_fault(Fault::WriteControlNew { value: 0x8, old_value: 0x001C_0020 }, "Usb(None)");
    assert_eq!(
        message(&error),
        "While write_mdm_ap_control_new 0x0008, old_value 0x1C0020, : error Usb(None), "
    );
}

#[test]
fn words_are_shown_as_the_formatter_shows_them() {
    for word in [
        0u32, 1, 9, 0xA, 0xF, 0x10, 0xFF, 0x100, 0xFFF, 0x1000, 0xABCD, 0xFFFF, 0x1_0000, 0x12_3456,
        0x001C_0020, 0xA05F_0003, 0x0FFF_FFFF, 0x1000_0000, 0xDEAD_BEEF, u32::MAX,
    ] {
        let error = Error::from_fault(Fault::WriteControlBit { bit: word, old_value: !word }, "e");
        assert_eq!(
            message(&error),
            format!(
                "While write_mdm_ap_control_bit {:#06X}, old_value {:#06X}, : error {}, ",
                word, !word, "e"
            )
        );
    }
}

#[test]
fn step_fault_messages() {
    let cause = "ProbeSpecific(\"x\")";
    let cases = [
        (Fault::ProbeOpen, "StLink Can't Be Open: error "),
        (
            Fault::Attach,
            "Failed base init Programmer. If this happend error after-write erase re-load programmer : error ",
        ),
        (Fault::TargetReset, "Failed reset target : error "),
        (Fault::OpenArmInterface, "Programmer failed open ARM Interface : error "),
        (Fault::OpenMemory, "Failed get ARM interface : error "),
        (Fault::ReadDhcsr, "Failed read DHCSR ARM reg  : error "),
        (Fault::WriteDhcsr, "Probe Flush : error "),
        (Fault::Flush, "Probe Flush : error "),
        (Fault::ReadDhcsrAfterWrite, "Failed check after write DHCSR ARM reg  : error "),
    ];
    for (fault, what) in cases {
        let error = Error::from_fault(fault, cause);
        assert_eq!(message(&error), format!("{}{}, ", what, cause));
    }
}

#[test]
fn probe_not_found_message() {
    let error = Error::from_fault(Fault::ProbeNotFound, "whatever");
    assert_eq!(message(&error), "StLink not connected - not found by VID & PID");
}

#[test]
fn init_interface_fault_message() {
    let error = Error::from_fault(Fault::InitArmInterface, "whatever");
    assert_eq!(message(&error), "Programmer failed init ARM interface");
}

#[test]
fn clear_reset_fault_message_holds_the_inner_error() {
    let cause = "Other(\"no \\ answer\")";
    let error = Error::from_fault(Fault::ClearResetBit { old_value: 0xC }, cause);
    let inner = Error::MdmExample(format!(
        "While write_mdm_ap_control_bit {:#06X}, old_value {:#06X}, : error {}, ",
        0x8, 0xC, cause
    ));
    assert_eq!(message(&error), format!("Failed mdm_ap_clear_reset_bit  : error {:?}, ", inner));
    assert_eq!(
        message(&error),
        "Failed mdm_ap_clear_reset_bit  : error MdmExample(\"While write_mdm_ap_control_bit 0x0008, old_value 0x000C, : error Other(\\\"no \\\\ answer\\\"), \"), "
    );
}

#[test]
fn error_is_shown_in_its_debug_form() {
    let error = Error::MdmExample("plain".to_string());
    assert_eq!(error.to_string(), "MdmExample(\"plain\")");
    assert_eq!(error.to_string(), format!("{:?}", error));
}

#[test]
fn error_is_shown_with_escapes() {
    let error = Error::MdmExample("a \"quoted\" line\n\tand a \\".to_string());
    assert_eq!(error.to_string(), "MdmExample(\"a \\\"quoted\\\" line\\n\\tand a \\\\\")");
    assert_eq!(error.to_string(), format!("{:?}", error));
}

#[test]
fn wrap_quoted_puts_the_variant_around() {
    assert_eq!(wrap_quoted("\"x\""), "MdmExample(\"x\")");
    assert_eq!(wrap_quoted(""), "MdmExample()");
}

#[test]
fn clear_reset_message_puts_the_step_around() {
    assert_eq!(
        clear_reset_message("\"inner\""),
        "Failed mdm_ap_clear_reset_bit  : error MdmExample(\"inner\"), "
    );
}

#[test]
fn error_clones() {
    let error = Error::from_fault(Fault::ReadRegister, "");
    let copy = error.clone();
    assert_eq!(message(&copy), message(&error));
}
