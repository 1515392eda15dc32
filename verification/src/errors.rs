//! The error that a procedure of this crate ends with, as a message for the
//! user.

use vstd::prelude::*;
use crate::exchange::Fault;
use crate::registers::MKE_MDM_CONTROL_SYS_RESET_BIT;

verus! {

/// The one kind of error: a message for the user.
#[derive(Debug, Clone)]
pub enum Error {
    MdmExample(String),
}

/// The digit of `digit`, which is under 16, in upper-case hexadecimal
/// notation.
pub open spec fn hex_digit(digit: nat) -> char {
    "0123456789ABCDEF"@[digit as int]
}

/// `value` in upper-case hexadecimal notation, with zeros before it where it
/// has fewer than `width` digits.
pub open spec fn hex_digits(value: nat, width: nat) -> Seq<char>
    decreases value, width,
{
    if value < 16 && width <= 1 {
        seq![hex_digit(value)]
    } else {
        hex_digits(
            value / 16,
            if width == 0 {
                0
            } else {
                (width - 1) as nat
            },
        ).push(hex_digit(value % 16))
    }
}

/// `word` as a message shows it: `0x` and at least four hexadecimal digits.
pub open spec fn hex_text(word: u32) -> Seq<char> {
    seq!['0', 'x'] + hex_digits(word as nat, 4)
}

fn hex_digit_text(digit: u32) -> (text: &'static str)
    requires
        digit < 16,
    ensures
        text@ == seq![hex_digit(digit as nat)],
{
    proof {
        reveal_strlit("0123456789ABCDEF");
        reveal_strlit("0");
        reveal_strlit("1");
        reveal_strlit("2");
        reveal_strlit("3");
        reveal_strlit("4");
        reveal_strlit("5");
        reveal_strlit("6");
        reveal_strlit("7");
        reveal_strlit("8");
        reveal_strlit("9");
        reveal_strlit("A");
        reveal_strlit("B");
        reveal_strlit("C");
        reveal_strlit("D");
        reveal_strlit("E");
        reveal_strlit("F");
    }
    let text = if digit == 0 {
        "0"
    } else if digit == 1 {
        "1"
    } else if digit == 2 {
        "2"
    } else if digit == 3 {
        "3"
    } else if digit == 4 {
        "4"
    } else if digit == 5 {
        "5"
    } else if digit == 6 {
        "6"
    } else if digit == 7 {
        "7"
    } else if digit == 8 {
        "8"
    } else if digit == 9 {
        "9"
    } else if digit == 10 {
        "A"
    } else if digit == 11 {
        "B"
    } else if digit == 12 {
        "C"
    } else if digit == 13 {
        "D"
    } else if digit == 14 {
        "E"
    } else {
        "F"
    };
    text
}

/// Appends `value` in hexadecimal notation to `text`, with zeros before it
/// where it has fewer than `width` digits.
fn append_hex_digits(text: &mut String, value: u32, width: u8)
    ensures
        final(text)@ == old(text)@ + hex_digits(value as nat, width as nat),
    decreases value, width,
{
    if value < 16 && width <= 1 {
        text.append(hex_digit_text(value));
    } else {
        let fewer: u8 = if width == 0 {
            0
        } else {
            width - 1
        };
        append_hex_digits(text, value / 16, fewer);
        text.append(hex_digit_text(value % 16));
    }
}

/// Appends `word` to `text` as a message shows it.
fn append_hex(text: &mut String, word: u32)
    ensures
        final(text)@ == old(text)@ + hex_text(word),
{
    proof {
        reveal_strlit("0x");
    }
    text.append("0x");
    append_hex_digits(text, word, 4);
}

/// What `{:?}` shows of a string: the string between double quotes, with
/// escapes in place of the characters that cannot stand there.
pub uninterp spec fn debug_quoted(text: Seq<char>) -> Seq<char>;

/// Formats `text` with `{:?}`, the `Debug` form that `std` gives a `str`.
/// The result is what [`debug_quoted`] names: it depends on the characters
/// of `text` alone.
#[verifier::external_body]
fn quote(text: &str) -> (quoted: String)
    ensures
        quoted@ == debug_quoted(text@),
{
    format!("{:?}", text)
}

/// What `{:?}` shows of an error with the message `message`.
pub open spec fn error_text(message: Seq<char>) -> Seq<char> {
    "MdmExample("@ + debug_quoted(message) + ")"@
}

/// Puts the name of the error's one variant around a message that is
/// already in its quoted form.
pub fn wrap_quoted(quoted: &str) -> (text: String)
    ensures
        text@ == "MdmExample("@ + quoted@ + ")"@,
{
    let mut text = String::from_str("MdmExample(");
    text.append(quoted);
    text.append(")");
    text
}

/// The message that tells that the reset request could not be cleared,
/// around the error of the failed write in the form that `{:?}` shows: the
/// name of its variant around its message, which is handed in quoted.
pub fn clear_reset_message(quoted: &str) -> (text: String)
    ensures
        text@ == step_fault_text(
            "Failed mdm_ap_clear_reset_bit  : error "@,
            "MdmExample("@ + quoted@ + ")"@,
        ),
{
    let shown = wrap_quoted(quoted);
    step_fault_message("Failed mdm_ap_clear_reset_bit  : error ", shown.as_str())
}

/// The message of a failed write to the Control register.
pub open spec fn write_fault_text(what: Seq<char>, word: u32, old_value: u32, cause: Seq<char>) -> Seq<
    char,
> {
    what + hex_text(word) + ", old_value "@ + hex_text(old_value) + ", : error "@ + cause + ", "@
}

/// The message of a step that failed for `cause`.
pub open spec fn step_fault_text(what: Seq<char>, cause: Seq<char>) -> Seq<char> {
    what + cause + ", "@
}

/// The message that tells of `fault`. `cause` is what the failed access
/// said of itself; the faults that no access caused do not show it.
pub open spec fn fault_text(fault: Fault, cause: Seq<char>) -> Seq<char> {
    match fault {
        Fault::ProbeNotFound => "StLink not connected - not found by VID & PID"@,
        Fault::ProbeOpen => step_fault_text("StLink Can't Be Open: error "@, cause),
        Fault::Attach => step_fault_text(
            "Failed base init Programmer. If this happend error after-write erase re-load programmer : error "@,
            cause,
        ),
        Fault::TargetReset => step_fault_text("Failed reset target : error "@, cause),
        Fault::OpenArmInterface => step_fault_text(
            "Programmer failed open ARM Interface : error "@,
            cause,
        ),
        Fault::InitArmInterface => "Programmer failed init ARM interface"@,
        Fault::ReadRegister => "iface.read_raw_ap_register"@,
        Fault::WriteControlBit { bit, old_value } => write_fault_text(
            "While write_mdm_ap_control_bit "@,
            bit,
            old_value,
            cause,
        ),
        Fault::WriteControlNew { value, old_value } => write_fault_text(
            "While write_mdm_ap_control_new "@,
            value,
            old_value,
            cause,
        ),
        Fault::ResetTimeout => " Reset: System not reseting reset after 20ms"@,
        Fault::FlashNotReady => "Flash module not ready! MKE_MDM_STATUS_FLASH_READY_BIT = 1"@,
        Fault::OpenMemory => step_fault_text("Failed get ARM interface : error "@, cause),
        Fault::ReadDhcsr => step_fault_text("Failed read DHCSR ARM reg  : error "@, cause),
        Fault::WriteDhcsr => step_fault_text("Probe Flush : error "@, cause),
        Fault::Flush => step_fault_text("Probe Flush : error "@, cause),
        Fault::ReadDhcsrAfterWrite => step_fault_text(
            "Failed check after write DHCSR ARM reg  : error "@,
            cause,
        ),
        Fault::ClearResetBit { old_value } => step_fault_text(
            "Failed mdm_ap_clear_reset_bit  : error "@,
            error_text(
                write_fault_text(
                    "While write_mdm_ap_control_bit "@,
                    MKE_MDM_CONTROL_SYS_RESET_BIT,
                    old_value,
                    cause,
                ),
            ),
        ),
    }
}

fn write_fault_message(what: &str, word: u32, old_value: u32, cause: &str) -> (text: String)
    ensures
        text@ == write_fault_text(what@, word, old_value, cause@),
{
    let mut text = String::from_str(what);
    append_hex(&mut text, word);
    text.append(", old_value ");
    append_hex(&mut text, old_value);
    text.append(", : error ");
    text.append(cause);
    text.append(", ");
    text
}

fn step_fault_message(what: &str, cause: &str) -> (text: String)
    ensures
        text@ == step_fault_text(what@, cause@),
{
    let mut text = String::from_str(what);
    text.append(cause);
    text.append(", ");
    text
}

impl Error {
    /// The message of the error.
    pub open spec fn message(self) -> Seq<char> {
        match self {
            Error::MdmExample(message) => message@,
        }
    }

    /// The error that tells of `fault`. `cause` is what the failed access
    /// said of itself.
    pub fn from_fault(fault: Fault, cause: &str) -> (error: Error)
        ensures
            error.message() == fault_text(fault, cause@),
    {
        let text = match fault {
            Fault::ProbeNotFound => String::from_str("StLink not connected - not found by VID & PID"),
            Fault::ProbeOpen => step_fault_message("StLink Can't Be Open: error ", cause),
            Fault::Attach => step_fault_message(
                "Failed base init Programmer. If this happend error after-write erase re-load programmer : error ",
                cause,
            ),
            Fault::TargetReset => step_fault_message("Failed reset target : error ", cause),
            Fault::OpenArmInterface => step_fault_message(
                "Programmer failed open ARM Interface : error ",
                cause,
            ),
            Fault::InitArmInterface => String::from_str("Programmer failed init ARM interface"),
            Fault::ReadRegister => String::from_str("iface.read_raw_ap_register"),
            Fault::WriteControlBit { bit, old_value } => write_fault_message(
                "While write_mdm_ap_control_bit ",
                bit,
                old_value,
                cause,
            ),
            Fault::WriteControlNew { value, old_value } => write_fault_message(
                "While write_mdm_ap_control_new ",
                value,
                old_value,
                cause,
            ),
            Fault::ResetTimeout => String::from_str(" Reset: System not reseting reset after 20ms"),
            Fault::FlashNotReady => String::from_str(
                "Flash module not ready! MKE_MDM_STATUS_FLASH_READY_BIT = 1",
            ),
            Fault::OpenMemory => step_fault_message("Failed get ARM interface : error ", cause),
            Fault::ReadDhcsr => step_fault_message("Failed read DHCSR ARM reg  : error ", cause),
            Fault::WriteDhcsr => step_fault_message("Probe Flush : error ", cause),
            Fault::Flush => step_fault_message("Probe Flush : error ", cause),
            Fault::ReadDhcsrAfterWrite => step_fault_message(
                "Failed check after write DHCSR ARM reg  : error ",
                cause,
            ),
            Fault::ClearResetBit { old_value } => {
                let inner = write_fault_message(
                    "While write_mdm_ap_control_bit ",
                    MKE_MDM_CONTROL_SYS_RESET_BIT,
                    old_value,
                    cause,
                );
                let quoted = quote(inner.as_str());
                clear_reset_message(quoted.as_str())
            },
        };
        Error::MdmExample(text)
    }

    /// The error as it is shown to the user: the name of its variant around
    /// the message in its quoted form.
    pub fn to_string(&self) -> (text: String)
        ensures
            text@ == error_text(self.message()),
    {
        match self {
            Error::MdmExample(message) => {
                let quoted = quote(message.as_str());
                wrap_quoted(quoted.as_str())
            },
        }
    }
}

} // verus!
