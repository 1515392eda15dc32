//! What passes between a procedure of this crate and the code that owns the
//! debug probe. A procedure asks for one access at a time with a [`Request`]
//! and is told how it went with an [`Event`].

use vstd::prelude::*;
use crate::mdm_ap::MdmAP;

verus! {

/// How the access that a procedure asked for last went.
///
/// A procedure takes the event as the answer to its pending request and
/// does not ask whether it fits: a read has succeeded if the event is a
/// value and has failed otherwise, any other access has succeeded if the
/// event is `Completed` and has failed otherwise. A wait, a notice and the
/// letting go of the memory interface cannot fail: any event ends them.
#[derive(Debug, Clone, Copy, PartialEq, Eq, Structural)]
pub enum Event {
    /// Nothing was asked yet: the procedure begins.
    Start,
    /// The access was made. It was not a read.
    Completed,
    /// The read was made and gave this word.
    Value(u32),
    /// The access failed.
    Failed,
}

/// Something to bring to the user's notice. It asks for no access to the target.
#[derive(Debug, Clone, Copy, PartialEq, Eq)]
pub enum Notice {
    /// The procedure's heading.
    Banner,
    /// The Status and Control words as they were read.
    Registers { status: u32, control: u32 },
    /// Every flag of a snapshot that was just read.
    Snapshot(MdmAP),
    /// The snapshot before and after a step, to be set against each other
    /// under the heading `reason`.
    Changes { reason: &'static str, before: MdmAP, after: MdmAP },
    /// The system is held in reset.
    ResetAsserted,
    /// The wait for the flash begins.
    WaitingFlashReady,
    /// The flash is ready.
    FlashReady,
    /// The identification register as read, and whether it holds the
    /// expected value. An unexpected value is a warning only.
    Idr { idr: u32, expected: bool },
    /// The target is secured: only a mass erase gives access to it.
    Secured,
    /// The halting control and status register before and after the halt
    /// was written. Neither value is checked.
    DhcsrWritten { was: u32, now: u32 },
    /// The halting control and status register once reset was released.
    DhcsrEnd { value: u32 },
}

/// One thing for the owner of the probe to do.
#[derive(Debug, Clone, Copy, PartialEq, Eq)]
pub enum Request {
    /// Attach to the target's debug interface, whatever the target is.
    Attach,
    /// Ask the probe for a hardware reset of the target.
    ResetTarget,
    /// Turn the probe into an ARM debug interface.
    OpenArmInterface,
    /// Initialise the ARM debug interface, whatever the target is.
    InitArmInterface,
    /// Read a 32-bit register of an access port.
    ReadAp { port: u8, offset: u8 },
    /// Write a 32-bit register of an access port.
    WriteAp { port: u8, offset: u8, value: u32 },
    /// Open the memory interface behind an access port.
    OpenMemory { port: u8 },
    /// Read a 32-bit word of target memory through the open memory interface.
    ReadWord { address: u64 },
    /// Write a 32-bit word of target memory through the open memory interface.
    WriteWord { address: u64, value: u32 },
    /// Flush the writes of the open memory interface.
    Flush,
    /// Let go of the open memory interface.
    CloseMemory,
    /// Wait.
    Sleep { millis: u64 },
    /// Tell the user.
    Report(Notice),
}

/// Why a procedure gave up. [`crate::errors::Error::from_fault`] makes the
/// message of it.
#[derive(Debug, Clone, Copy, PartialEq, Eq, Structural)]
pub enum Fault {
    /// No probe of the wanted kind is connected.
    ProbeNotFound,
    /// The probe could not be opened.
    ProbeOpen,
    /// The probe could not attach to the target.
    Attach,
    /// The probe could not reset the target.
    TargetReset,
    /// The probe gave no ARM debug interface.
    OpenArmInterface,
    /// The ARM debug interface could not be initialised.
    InitArmInterface,
    /// A register of the MDM access port could not be read.
    ReadRegister,
    /// The Control register could not be written to set or clear `bit`;
    /// `old_value` is the Control word of the snapshot at that time.
    WriteControlBit { bit: u32, old_value: u32 },
    /// The Control register could not be overwritten with `value`;
    /// `old_value` is the Control word of the snapshot at that time.
    WriteControlNew { value: u32, old_value: u32 },
    /// The system did not enter reset within the allowed polls.
    ResetTimeout,
    /// The flash did not become ready within the allowed polls.
    FlashNotReady,
    /// The memory interface could not be opened.
    OpenMemory,
    /// The halting control and status register could not be read.
    ReadDhcsr,
    /// The halt could not be written.
    WriteDhcsr,
    /// The halt could not be flushed.
    Flush,
    /// The halting control and status register could not be read back.
    ReadDhcsrAfterWrite,
    /// The reset request could not be cleared; `old_value` is the Control
    /// word of the snapshot at that time.
    ClearResetBit { old_value: u32 },
}

/// What a procedure answers to an event.
#[derive(Debug, Clone, Copy, PartialEq, Eq)]
pub enum Step<T> {
    /// This is to be done next; its outcome is the next event.
    Do(Request),
    /// The procedure has ended with this result. Nothing is to be done.
    Finish(T),
}

/// Progress of a procedure that makes a single access.
#[derive(Debug, Clone, Copy, PartialEq, Eq, Structural)]
pub enum Access {
    /// Not begun, or ended.
    Idle,
    /// The access was asked for.
    Pending,
}

} // verus!
