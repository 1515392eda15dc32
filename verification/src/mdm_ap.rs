//! The MDM-AP session: the last Status and Control registers that were read,
//! and the operations that read, write and poll them.
//!
//! Each operation is written as one step of a procedure. It takes how far the
//! procedure has come and the event that answers its last request, and gives
//! the next request or the result. A procedure that is at rest begins on any
//! event. While a request is pending, the event is taken as the answer to it:
//! a read succeeded if the event is a value, any other access if the event is
//! `Completed`. A wait and a notice cannot fail.

use vstd::prelude::*;
use crate::diff::{differences, FieldChange, FieldValue};
use crate::exchange::{Access, Event, Fault, Notice, Request, Step};
use crate::registers::{
    MdmApControl, MdmApStatus, IDR_REG_CHECK_VALUE, MKE_MDM_AP_PORT, MKE_MDM_CONTROL,
    MKE_MDM_CONTROL_SYS_RESET_BIT, MKE_MDM_IDR_REG, MKE_MDM_STATUS,
    MKE_MDM_STATUS_FLASH_READY_BIT, MKE_MDM_STATUS_SYSTEM_RESET_BIT,
};

verus! {

/// The snapshot of the MDM-AP registers that a session holds.
#[derive(Debug, Clone, Copy, PartialEq, Eq, Structural)]
pub struct MdmAP {
    pub status: MdmApStatus,
    pub control: MdmApControl,
}

impl Default for MdmAP {
    /// The snapshot of registers that read zero.
    fn default() -> (mdm_ap: MdmAP)
        ensures
            mdm_ap == MdmAP::decoded(0, 0),
    {
        MdmAP { status: MdmApStatus::parse_from_u32(0), control: MdmApControl::parse_from_u32(0) }
    }
}

/// Progress of reading the Status and Control registers.
#[derive(Debug, Clone, Copy, PartialEq, Eq, Structural)]
pub enum RegisterRead {
    /// Not begun, or ended.
    Idle,
    /// The Status register was asked for.
    Status,
    /// The Status register gave `status`; the Control register was asked for.
    Control { status: u32 },
    /// Both registers were read and the notice of them was asked for.
    Notice { status: u32, control: u32 },
}

/// Progress of replacing the snapshot by a fresh one.
#[derive(Debug, Clone, Copy, PartialEq, Eq, Structural)]
pub enum Refresh {
    /// Not begun, or ended.
    Idle,
    /// The registers are being read.
    Reading(RegisterRead),
    /// The registers gave `fresh`; the notice of it was asked for. The
    /// snapshot is replaced once the notice is out.
    Notice { fresh: MdmAP },
}

/// How often the Status register is polled for the system to enter reset.
pub const RESET_POLL_LIMIT: u8 = 20;

/// Milliseconds to wait before each poll for the system to enter reset.
pub const RESET_POLL_INTERVAL_MS: u64 = 1;

/// How often the Status register is polled for the flash to be ready. There
/// is no wait between these polls.
pub const FLASH_POLL_LIMIT: u8 = 20;

/// Progress of asserting the system reset and waiting for it to take hold.
#[derive(Debug, Clone, Copy, PartialEq, Eq, Structural)]
pub enum ResetKeep {
    /// Not begun, or ended.
    Idle,
    /// The reset request is being written.
    Requesting(Access),
    /// `polls` polls found the system out of reset; the wait before the next
    /// one was asked for.
    Waiting { polls: u8 },
    /// `polls` polls found the system out of reset; the next one is reading.
    Polling { polls: u8, refresh: Refresh },
    /// The system is in reset and the notice of it was asked for.
    Notice,
}

/// Progress of waiting for the flash to be ready.
#[derive(Debug, Clone, Copy, PartialEq, Eq, Structural)]
pub enum FlashReady {
    /// Not begun, or ended.
    Idle,
    /// The refresh before the polls is reading.
    First(Refresh),
    /// The notice that the wait begins was asked for.
    Notice,
    /// `polls` polls found the flash not ready; the next one is reading.
    Polling { polls: u8, refresh: Refresh },
    /// The flash is ready and the notice of it was asked for.
    Ready,
    /// The refresh after the polls is reading; `ready` says how they ended.
    Last { ready: bool, refresh: Refresh },
}

/// The flags that differ between two snapshots, register by register.
#[derive(Debug, Clone, PartialEq, Eq)]
pub struct Changes {
    pub status: Vec<FieldChange>,
    pub control: Vec<FieldChange>,
}

impl Refresh {
    /// The snapshot that waits to replace the old one is decoded from its
    /// raw words.
    pub open spec fn wf(&self) -> bool {
        match *self {
            Refresh::Notice { fresh } => fresh.wf(),
            _ => true,
        }
    }
}

impl ResetKeep {
    /// The refresh of the poll is well-formed.
    pub open spec fn wf(&self) -> bool {
        match *self {
            ResetKeep::Polling { refresh, .. } => refresh.wf(),
            _ => true,
        }
    }
}

impl FlashReady {
    /// The refresh that is going on is well-formed.
    pub open spec fn wf(&self) -> bool {
        match *self {
            FlashReady::First(refresh) => refresh.wf(),
            FlashReady::Polling { refresh, .. } => refresh.wf(),
            FlashReady::Last { refresh, .. } => refresh.wf(),
            _ => true,
        }
    }
}

impl MdmAP {
    /// The snapshot that the two register words decode to.
    pub open spec fn decoded(status: u32, control: u32) -> MdmAP {
        MdmAP { status: MdmApStatus::decoded(status), control: MdmApControl::decoded(control) }
    }

    /// Both registers of the snapshot are decoded from their raw words.
    pub open spec fn wf(&self) -> bool {
        self.status.wf() && self.control.wf()
    }

    /// The request that reads register `offset` of the MDM access port.
    pub open spec fn read_of(offset: u8) -> Request {
        Request::ReadAp { port: MKE_MDM_AP_PORT, offset }
    }

    /// The request that writes `value` to the Control register.
    pub open spec fn control_write_of(value: u32) -> Request {
        Request::WriteAp { port: MKE_MDM_AP_PORT, offset: MKE_MDM_CONTROL, value }
    }

    /// One step of reading a fresh snapshot: the Status register, then the
    /// Control register, then, if `print` is set, a notice of both words.
    /// Gives up at the first read that fails.
    pub open spec fn spec_read_mdm_ap_register(progress: RegisterRead, print: bool, event: Event) -> (
        RegisterRead,
        Step<Result<MdmAP, Fault>>,
    ) {
        match progress {
            RegisterRead::Idle => (RegisterRead::Status, Step::Do(Self::read_of(MKE_MDM_STATUS))),
            RegisterRead::Status => match event {
                Event::Value(status) => (
                    RegisterRead::Control { status },
                    Step::Do(Self::read_of(MKE_MDM_CONTROL)),
                ),
                _ => (RegisterRead::Idle, Step::Finish(Err(Fault::ReadRegister))),
            },
            RegisterRead::Control { status } => match event {
                Event::Value(control) => if print {
                    (
                        RegisterRead::Notice { status, control },
                        Step::Do(Request::Report(Notice::Registers { status, control })),
                    )
                } else {
                    (RegisterRead::Idle, Step::Finish(Ok(Self::decoded(status, control))))
                },
                _ => (RegisterRead::Idle, Step::Finish(Err(Fault::ReadRegister))),
            },
            RegisterRead::Notice { status, control } => (
                RegisterRead::Idle,
                Step::Finish(Ok(Self::decoded(status, control))),
            ),
        }
    }

    /// One step of reading a fresh snapshot from the Status and Control
    /// registers.
    pub fn read_mdm_ap_register(progress: &mut RegisterRead, print: bool, event: Event) -> (step: Step<
        Result<MdmAP, Fault>,
    >)
        ensures
            (*final(progress), step) == Self::spec_read_mdm_ap_register(*old(progress), print, event),
            step matches Step::Finish(Ok(fresh)) ==> fresh.wf(),
    {
        match *progress {
            RegisterRead::Idle => {
                *progress = RegisterRead::Status;
                Step::Do(Request::ReadAp { port: MKE_MDM_AP_PORT, offset: MKE_MDM_STATUS })
            },
            RegisterRead::Status => match event {
                Event::Value(status) => {
                    *progress = RegisterRead::Control { status };
                    Step::Do(Request::ReadAp { port: MKE_MDM_AP_PORT, offset: MKE_MDM_CONTROL })
                },
                _ => {
                    *progress = RegisterRead::Idle;
                    Step::Finish(Err(Fault::ReadRegister))
                },
            },
            RegisterRead::Control { status } => match event {
                Event::Value(control) => {
                    if print {
                        *progress = RegisterRead::Notice { status, control };
                        Step::Do(Request::Report(Notice::Registers { status, control }))
                    } else {
                        *progress = RegisterRead::Idle;
                        Step::Finish(Ok(Self::snapshot_of(status, control)))
                    }
                },
                _ => {
                    *progress = RegisterRead::Idle;
                    Step::Finish(Err(Fault::ReadRegister))
                },
            },
            RegisterRead::Notice { status, control } => {
                *progress = RegisterRead::Idle;
                Step::Finish(Ok(Self::snapshot_of(status, control)))
            },
        }
    }

    /// Decodes the two register words into a snapshot.
    fn snapshot_of(status: u32, control: u32) -> (mdm_ap: MdmAP)
        ensures
            mdm_ap == Self::decoded(status, control),
            mdm_ap.wf(),
    {
        MdmAP { status: MdmApStatus::parse_from_u32(status), control: MdmApControl::parse_from_u32(control) }
    }

    /// The Control word of the snapshot with the bits of `bit` set.
    pub open spec fn control_with(&self, bit: u32) -> u32 {
        self.control.value | bit
    }

    /// The Control word of the snapshot with the bits of `bit` cleared.
    pub open spec fn control_without(&self, bit: u32) -> u32 {
        self.control.value & !bit
    }

    /// One step of a procedure that writes `value` to the Control register
    /// and gives up with `fault` if the write fails.
    pub open spec fn spec_write_control(access: Access, value: u32, fault: Fault, event: Event) -> (
        Access,
        Step<Result<(), Fault>>,
    ) {
        match access {
            Access::Idle => (Access::Pending, Step::Do(Self::control_write_of(value))),
            Access::Pending => (
                Access::Idle,
                Step::Finish(
                    if event == Event::Completed {
                        Ok(())
                    } else {
                        Err(fault)
                    },
                ),
            ),
        }
    }

    fn write_control(access: &mut Access, value: u32, fault: Fault, event: Event) -> (step: Step<
        Result<(), Fault>,
    >)
        ensures
            (*final(access), step) == Self::spec_write_control(*old(access), value, fault, event),
    {
        match *access {
            Access::Idle => {
                *access = Access::Pending;
                Step::Do(Request::WriteAp { port: MKE_MDM_AP_PORT, offset: MKE_MDM_CONTROL, value })
            },
            Access::Pending => {
                *access = Access::Idle;
                match event {
                    Event::Completed => Step::Finish(Ok(())),
                    _ => Step::Finish(Err(fault)),
                }
            },
        }
    }

    /// One step of setting the bits of `bit` in the Control register. The
    /// word written is the Control word of the snapshot with those bits set:
    /// the register is not read first, and the snapshot is left as it is.
    pub fn write_mdm_ap_control_bit(&self, access: &mut Access, bit: u32, event: Event) -> (step: Step<
        Result<(), Fault>,
    >)
        ensures
            (*final(access), step) == Self::spec_write_control(
                *old(access),
                self.control_with(bit),
                Fault::WriteControlBit { bit, old_value: self.control.value },
                event,
            ),
    {
        let change_one_bit: u32 = self.control.value | bit;
        Self::write_control(
            access,
            change_one_bit,
            Fault::WriteControlBit { bit, old_value: self.control.value },
            event,
        )
    }

    /// One step of clearing the bits of `bit` in the Control register. The
    /// word written is the Control word of the snapshot without those bits:
    /// the register is not read first, and the snapshot is left as it is.
    pub fn write_mdm_ap_control_clear_bit(&self, access: &mut Access, bit: u32, event: Event) -> (step:
        Step<Result<(), Fault>>)
        ensures
            (*final(access), step) == Self::spec_write_control(
                *old(access),
                self.control_without(bit),
                Fault::WriteControlBit { bit, old_value: self.control.value },
                event,
            ),
    {
        let clear_one_bit: u32 = self.control.value & !bit;
        Self::write_control(
            access,
            clear_one_bit,
            Fault::WriteControlBit { bit, old_value: self.control.value },
            event,
        )
    }

    /// One step of overwriting the Control register with `value`, whatever
    /// the snapshot holds.
    pub fn write_mdm_ap_control_new(&self, access: &mut Access, value: u32, event: Event) -> (step: Step<
        Result<(), Fault>,
    >)
        ensures
            (*final(access), step) == Self::spec_write_control(
                *old(access),
                value,
                Fault::WriteControlNew { value, old_value: self.control.value },
                event,
            ),
    {
        Self::write_control(
            access,
            value,
            Fault::WriteControlNew { value, old_value: self.control.value },
            event,
        )
    }

    /// One step of clearing the reset request in the Control register.
    pub fn mdm_ap_clear_reset_bit(&self, access: &mut Access, event: Event) -> (step: Step<
        Result<(), Fault>,
    >)
        ensures
            (*final(access), step) == Self::spec_write_control(
                *old(access),
                self.control_without(MKE_MDM_CONTROL_SYS_RESET_BIT),
                Fault::WriteControlBit {
                    bit: MKE_MDM_CONTROL_SYS_RESET_BIT,
                    old_value: self.control.value,
                },
                event,
            ),
    {
        self.write_mdm_ap_control_clear_bit(access, MKE_MDM_CONTROL_SYS_RESET_BIT, event)
    }

    /// One step of reading the identification register.
    pub open spec fn spec_read_mdm_ap_idr(access: Access, event: Event) -> (
        Access,
        Step<Result<u32, Fault>>,
    ) {
        match access {
            Access::Idle => (Access::Pending, Step::Do(Self::read_of(MKE_MDM_IDR_REG))),
            Access::Pending => (
                Access::Idle,
                Step::Finish(
                    match event {
                        Event::Value(idr) => Ok(idr),
                        _ => Err(Fault::ReadRegister),
                    },
                ),
            ),
        }
    }

    /// One step of reading the identification register. The value is handed
    /// back as it was read: whether it is the expected one is for the caller
    /// to say, see [`idr_is_expected`].
    pub fn read_mdm_ap_idr(&self, access: &mut Access, event: Event) -> (step: Step<Result<u32, Fault>>)
        ensures
            (*final(access), step) == Self::spec_read_mdm_ap_idr(*old(access), event),
    {
        match *access {
            Access::Idle => {
                *access = Access::Pending;
                Step::Do(Request::ReadAp { port: MKE_MDM_AP_PORT, offset: MKE_MDM_IDR_REG })
            },
            Access::Pending => {
                *access = Access::Idle;
                match event {
                    Event::Value(idr) => Step::Finish(Ok(idr)),
                    _ => Step::Finish(Err(Fault::ReadRegister)),
                }
            },
        }
    }

    /// What follows a register read within a refresh. While the read goes
    /// on, its requests are passed on. A failed read ends the refresh and
    /// leaves the snapshot as it was. A fresh snapshot replaces the old one
    /// at once where `notice` is `None`, and else after that notice.
    pub open spec fn after_read(
        self,
        read: RegisterRead,
        step: Step<Result<MdmAP, Fault>>,
        notice: spec_fn(MdmAP) -> Option<Notice>,
    ) -> (MdmAP, Refresh, Step<Result<MdmAP, Fault>>) {
        match step {
            Step::Do(request) => (self, Refresh::Reading(read), Step::Do(request)),
            Step::Finish(Err(fault)) => (self, Refresh::Idle, Step::Finish(Err(fault))),
            Step::Finish(Ok(fresh)) => match notice(fresh) {
                Some(notice) => (self, Refresh::Notice { fresh }, Step::Do(Request::Report(notice))),
                None => (fresh, Refresh::Idle, Step::Finish(Ok(fresh))),
            },
        }
    }

    /// The register read that a refresh is in, if it is in one.
    pub open spec fn read_in(progress: Refresh) -> Option<RegisterRead> {
        match progress {
            Refresh::Idle => Some(RegisterRead::Idle),
            Refresh::Reading(read) => Some(read),
            Refresh::Notice { .. } => None,
        }
    }

    /// One step of replacing the snapshot by a fresh one: the registers are
    /// read as [`Self::spec_read_mdm_ap_register`] says and decoded; if
    /// `print` is set, a notice of every flag follows; then the fresh
    /// snapshot takes the place of the old one and is the result.
    pub open spec fn spec_refresh_mdm_ap(self, progress: Refresh, print: bool, event: Event) -> (
        MdmAP,
        Refresh,
        Step<Result<MdmAP, Fault>>,
    ) {
        match progress {
            Refresh::Notice { fresh } => (fresh, Refresh::Idle, Step::Finish(Ok(fresh))),
            _ => {
                let (read, step) = Self::spec_read_mdm_ap_register(
                    Self::read_in(progress)->0,
                    print,
                    event,
                );
                self.after_read(
                    read,
                    step,
                    |fresh: MdmAP|
                        if print {
                            Some(Notice::Snapshot(fresh))
                        } else {
                            None
                        },
                )
            },
        }
    }

    /// One step of replacing the snapshot by a fresh one.
    pub fn refresh_mdm_ap(&mut self, progress: &mut Refresh, print: bool, event: Event) -> (step: Step<
        Result<MdmAP, Fault>,
    >)
        ensures
            (*final(self), *final(progress), step) == old(self).spec_refresh_mdm_ap(
                *old(progress),
                print,
                event,
            ),
            old(self).wf() && old(progress).wf() ==> final(self).wf() && final(progress).wf(),
    {
        let mut read = match *progress {
            Refresh::Idle => RegisterRead::Idle,
            Refresh::Reading(read) => read,
            Refresh::Notice { fresh } => {
                *self = fresh;
                *progress = Refresh::Idle;
                return Step::Finish(Ok(fresh));
            },
        };
        match Self::read_mdm_ap_register(&mut read, print, event) {
            Step::Do(request) => {
                *progress = Refresh::Reading(read);
                Step::Do(request)
            },
            Step::Finish(Err(fault)) => {
                *progress = Refresh::Idle;
                Step::Finish(Err(fault))
            },
            Step::Finish(Ok(fresh)) => {
                if print {
                    *progress = Refresh::Notice { fresh };
                    Step::Do(Request::Report(Notice::Snapshot(fresh)))
                } else {
                    *self = fresh;
                    *progress = Refresh::Idle;
                    Step::Finish(Ok(fresh))
                }
            },
        }
    }

    /// One step of replacing the snapshot by a fresh one and telling what
    /// changed: the registers are read with a notice of both words; a notice
    /// follows that holds `track_reason`, the old snapshot and the fresh one;
    /// then the fresh snapshot takes the place of the old one and is the
    /// result.
    pub open spec fn spec_refresh_and_compare_mdm_ap(
        self,
        progress: Refresh,
        track_reason: &'static str,
        event: Event,
    ) -> (MdmAP, Refresh, Step<Result<MdmAP, Fault>>) {
        match progress {
            Refresh::Notice { fresh } => (fresh, Refresh::Idle, Step::Finish(Ok(fresh))),
            _ => {
                let (read, step) = Self::spec_read_mdm_ap_register(
                    Self::read_in(progress)->0,
                    true,
                    event,
                );
                self.after_read(
                    read,
                    step,
                    |fresh: MdmAP|
                        Some(Notice::Changes { reason: track_reason, before: self, after: fresh }),
                )
            },
        }
    }

    /// One step of replacing the snapshot by a fresh one and telling what
    /// changed.
    pub fn refresh_and_compare_mdm_ap(
        &mut self,
        progress: &mut Refresh,
        track_reason: &'static str,
        event: Event,
    ) -> (step: Step<Result<MdmAP, Fault>>)
        ensures
            (*final(self), *final(progress), step) == old(self).spec_refresh_and_compare_mdm_ap(
                *old(progress),
                track_reason,
                event,
            ),
            old(self).wf() && old(progress).wf() ==> final(self).wf() && final(progress).wf(),
    {
        let mut read = match *progress {
            Refresh::Idle => RegisterRead::Idle,
            Refresh::Reading(read) => read,
            Refresh::Notice { fresh } => {
                *self = fresh;
                *progress = Refresh::Idle;
                return Step::Finish(Ok(fresh));
            },
        };
        match Self::read_mdm_ap_register(&mut read, true, event) {
            Step::Do(request) => {
                *progress = Refresh::Reading(read);
                Step::Do(request)
            },
            Step::Finish(Err(fault)) => {
                *progress = Refresh::Idle;
                Step::Finish(Err(fault))
            },
            Step::Finish(Ok(fresh)) => {
                *progress = Refresh::Notice { fresh };
                Step::Do(
                    Request::Report(Notice::Changes { reason: track_reason, before: *self, after: fresh }),
                )
            },
        }
    }

    /// The flags that `updated` holds otherwise than `self`: those of the
    /// Status register, then those of the Control register.
    pub fn compare(&self, updated: &MdmAP) -> (changes: Changes)
        ensures
            changes.status@ == differences(self.status.spec_rows(), updated.status.spec_rows()),
            changes.control@ == differences(self.control.spec_rows(), updated.control.spec_rows()),
    {
        Changes {
            status: self.status.compare(&updated.status),
            control: self.control.compare(&updated.control),
        }
    }

    /// Every flag of the snapshot as it is shown to the user: the seven of
    /// the Status register, then the five of the Control register.
    pub fn print(&self) -> (rows: Vec<FieldValue>)
        ensures
            rows@ == self.status.spec_rows() + self.control.spec_rows(),
    {
        let mut rows = self.status.rows();
        let mut control_rows = self.control.rows();
        rows.append(&mut control_rows);
        rows
    }

    /// Where a refresh stands once it has asked for the Status register, and
    /// that request. A refresh at rest does so on any event.
    pub open spec fn refresh_begun() -> (Refresh, Request) {
        (Refresh::Reading(RegisterRead::Status), Self::read_of(MKE_MDM_STATUS))
    }

    /// Begins a refresh and gives its first request.
    fn begin_refresh(&self) -> (begun: (Refresh, Request))
        ensures
            begun == Self::refresh_begun(),
            forall|print: bool, event: Event| #[trigger]
                self.spec_refresh_mdm_ap(Refresh::Idle, print, event) == (
                    *self,
                    begun.0,
                    Step::<Result<MdmAP, Fault>>::Do(begun.1),
                ),
    {
        (
            Refresh::Reading(RegisterRead::Status),
            Request::ReadAp { port: MKE_MDM_AP_PORT, offset: MKE_MDM_STATUS },
        )
    }

    /// What asserting the reset does once `polls` polls have found the
    /// system out of reset: it waits and polls again while polls are left,
    /// and else gives up.
    pub open spec fn reset_wait(self, polls: int) -> (MdmAP, ResetKeep, Step<Result<(), Fault>>) {
        if polls < RESET_POLL_LIMIT {
            (
                self,
                ResetKeep::Waiting { polls: polls as u8 },
                Step::Do(Request::Sleep { millis: RESET_POLL_INTERVAL_MS }),
            )
        } else {
            (self, ResetKeep::Idle, Step::Finish(Err(Fault::ResetTimeout)))
        }
    }

    /// One step of the poll that follows `polls` polls which found the
    /// system out of reset. The poll refreshes the snapshot without notice.
    /// The system is in reset when the reset bit of the fresh Status word
    /// is 0.
    pub open spec fn reset_poll(self, polls: u8, refresh: Refresh, event: Event) -> (
        MdmAP,
        ResetKeep,
        Step<Result<(), Fault>>,
    ) {
        let (mdm_ap, refresh, step) = self.spec_refresh_mdm_ap(refresh, false, event);
        match step {
            Step::Do(request) => (mdm_ap, ResetKeep::Polling { polls, refresh }, Step::Do(request)),
            Step::Finish(Err(fault)) => (mdm_ap, ResetKeep::Idle, Step::Finish(Err(fault))),
            Step::Finish(Ok(_)) => if mdm_ap.status.value & MKE_MDM_STATUS_SYSTEM_RESET_BIT == 0 {
                (mdm_ap, ResetKeep::Notice, Step::Do(Request::Report(Notice::ResetAsserted)))
            } else {
                mdm_ap.reset_wait(polls + 1)
            },
        }
    }

    /// One step of asserting the system reset: the Control register is
    /// overwritten with the reset request alone, which drops every other
    /// bit that was set; then the Status register is polled, after a wait
    /// each time, until the system is in reset or
    /// [`RESET_POLL_LIMIT`] polls have found it out of reset.
    pub open spec fn spec_mdm_ap_reset_keep(self, progress: ResetKeep, event: Event) -> (
        MdmAP,
        ResetKeep,
        Step<Result<(), Fault>>,
    ) {
        match progress {
            ResetKeep::Idle | ResetKeep::Requesting(_) => {
                let (access, step) = Self::spec_write_control(
                    match progress {
                        ResetKeep::Requesting(access) => access,
                        _ => Access::Idle,
                    },
                    MKE_MDM_CONTROL_SYS_RESET_BIT,
                    Fault::WriteControlNew {
                        value: MKE_MDM_CONTROL_SYS_RESET_BIT,
                        old_value: self.control.value,
                    },
                    event,
                );
                match step {
                    Step::Do(request) => (self, ResetKeep::Requesting(access), Step::Do(request)),
                    Step::Finish(Err(fault)) => (self, ResetKeep::Idle, Step::Finish(Err(fault))),
                    Step::Finish(Ok(_)) => self.reset_wait(0),
                }
            },
            ResetKeep::Waiting { polls } => self.reset_poll(polls, Refresh::Idle, event),
            ResetKeep::Polling { polls, refresh } => self.reset_poll(polls, refresh, event),
            ResetKeep::Notice => (self, ResetKeep::Idle, Step::Finish(Ok(()))),
        }
    }

    /// One step of asserting the system reset and waiting for it to take
    /// hold.
    pub fn mdm_ap_reset_keep(&mut self, progress: &mut ResetKeep, event: Event) -> (step: Step<
        Result<(), Fault>,
    >)
        ensures
            (*final(self), *final(progress), step) == old(self).spec_mdm_ap_reset_keep(
                *old(progress),
                event,
            ),
            old(self).wf() && old(progress).wf() ==> final(self).wf() && final(progress).wf(),
    {
        let (polls, mut refresh) = match *progress {
            ResetKeep::Idle | ResetKeep::Requesting(_) => {
                let mut access = match *progress {
                    ResetKeep::Requesting(access) => access,
                    _ => Access::Idle,
                };
                match self.write_mdm_ap_control_new(&mut access, MKE_MDM_CONTROL_SYS_RESET_BIT, event) {
                    Step::Do(request) => {
                        *progress = ResetKeep::Requesting(access);
                        return Step::Do(request);
                    },
                    Step::Finish(Err(fault)) => {
                        *progress = ResetKeep::Idle;
                        return Step::Finish(Err(fault));
                    },
                    Step::Finish(Ok(_)) => {
                        *progress = ResetKeep::Waiting { polls: 0 };
                        return Step::Do(Request::Sleep { millis: RESET_POLL_INTERVAL_MS });
                    },
                }
            },
            ResetKeep::Waiting { polls } => (polls, Refresh::Idle),
            ResetKeep::Polling { polls, refresh } => (polls, refresh),
            ResetKeep::Notice => {
                *progress = ResetKeep::Idle;
                return Step::Finish(Ok(()));
            },
        };
        match self.refresh_mdm_ap(&mut refresh, false, event) {
            Step::Do(request) => {
                *progress = ResetKeep::Polling { polls, refresh };
                Step::Do(request)
            },
            Step::Finish(Err(fault)) => {
                *progress = ResetKeep::Idle;
                Step::Finish(Err(fault))
            },
            Step::Finish(Ok(_)) => {
                if self.status.value & MKE_MDM_STATUS_SYSTEM_RESET_BIT == 0 {
                    *progress = ResetKeep::Notice;
                    Step::Do(Request::Report(Notice::ResetAsserted))
                } else if polls < RESET_POLL_LIMIT - 1 {
                    *progress = ResetKeep::Waiting { polls: polls + 1 };
                    Step::Do(Request::Sleep { millis: RESET_POLL_INTERVAL_MS })
                } else {
                    *progress = ResetKeep::Idle;
                    Step::Finish(Err(Fault::ResetTimeout))
                }
            },
        }
    }

    /// One step of the refresh before the polls for the flash, which is
    /// made with notice. The notice that the wait begins follows it.
    pub open spec fn flash_first(self, refresh: Refresh, event: Event) -> (
        MdmAP,
        FlashReady,
        Step<Result<(), Fault>>,
    ) {
        let (mdm_ap, refresh, step) = self.spec_refresh_mdm_ap(refresh, true, event);
        match step {
            Step::Do(request) => (mdm_ap, FlashReady::First(refresh), Step::Do(request)),
            Step::Finish(Err(fault)) => (mdm_ap, FlashReady::Idle, Step::Finish(Err(fault))),
            Step::Finish(Ok(_)) => (
                mdm_ap,
                FlashReady::Notice,
                Step::Do(Request::Report(Notice::WaitingFlashReady)),
            ),
        }
    }

    /// One step of the poll that follows `polls` polls which found the
    /// flash not ready. The poll refreshes the snapshot without notice. The
    /// flash is ready when the flash-ready bit of the fresh Status word is
    /// 1. A poll that finds it not ready is followed at once by the next
    /// one while polls are left, and else by the refresh after the polls.
    pub open spec fn flash_poll(self, polls: u8, refresh: Refresh, event: Event) -> (
        MdmAP,
        FlashReady,
        Step<Result<(), Fault>>,
    ) {
        let (mdm_ap, refresh, step) = self.spec_refresh_mdm_ap(refresh, false, event);
        match step {
            Step::Do(request) => (mdm_ap, FlashReady::Polling { polls, refresh }, Step::Do(request)),
            Step::Finish(Err(fault)) => (mdm_ap, FlashReady::Idle, Step::Finish(Err(fault))),
            Step::Finish(Ok(_)) => if mdm_ap.status.value & MKE_MDM_STATUS_FLASH_READY_BIT != 0 {
                (mdm_ap, FlashReady::Ready, Step::Do(Request::Report(Notice::FlashReady)))
            } else if polls + 1 < FLASH_POLL_LIMIT {
                (
                    mdm_ap,
                    FlashReady::Polling { polls: (polls + 1) as u8, refresh: Self::refresh_begun().0 },
                    Step::Do(Self::refresh_begun().1),
                )
            } else {
                (
                    mdm_ap,
                    FlashReady::Last { ready: false, refresh: Self::refresh_begun().0 },
                    Step::Do(Self::refresh_begun().1),
                )
            },
        }
    }

    /// One step of the refresh after the polls for the flash, which is made
    /// with notice whether the flash was found ready or not. Only when it
    /// has succeeded is the outcome of the polls the result.
    pub open spec fn flash_last(self, ready: bool, refresh: Refresh, event: Event) -> (
        MdmAP,
        FlashReady,
        Step<Result<(), Fault>>,
    ) {
        let (mdm_ap, refresh, step) = self.spec_refresh_mdm_ap(refresh, true, event);
        match step {
            Step::Do(request) => (mdm_ap, FlashReady::Last { ready, refresh }, Step::Do(request)),
            Step::Finish(Err(fault)) => (mdm_ap, FlashReady::Idle, Step::Finish(Err(fault))),
            Step::Finish(Ok(_)) => (
                mdm_ap,
                FlashReady::Idle,
                Step::Finish(
                    if ready {
                        Ok(())
                    } else {
                        Err(Fault::FlashNotReady)
                    },
                ),
            ),
        }
    }

    /// One step of waiting for the flash to be ready: a refresh with notice,
    /// the notice that the wait begins, polls without wait until the flash
    /// is ready or [`FLASH_POLL_LIMIT`] polls have found it not ready, the
    /// notice that it is ready if it is, and a last refresh with notice.
    pub open spec fn spec_is_mdm_flash_ready(self, progress: FlashReady, event: Event) -> (
        MdmAP,
        FlashReady,
        Step<Result<(), Fault>>,
    ) {
        match progress {
            FlashReady::Idle => self.flash_first(Refresh::Idle, event),
            FlashReady::First(refresh) => self.flash_first(refresh, event),
            FlashReady::Notice => self.flash_poll(0, Refresh::Idle, event),
            FlashReady::Polling { polls, refresh } => self.flash_poll(polls, refresh, event),
            FlashReady::Ready => self.flash_last(true, Refresh::Idle, event),
            FlashReady::Last { ready, refresh } => self.flash_last(ready, refresh, event),
        }
    }

    /// One step of waiting for the flash to be ready.
    pub fn is_mdm_flash_ready(&mut self, progress: &mut FlashReady, event: Event) -> (step: Step<
        Result<(), Fault>,
    >)
        ensures
            (*final(self), *final(progress), step) == old(self).spec_is_mdm_flash_ready(
                *old(progress),
                event,
            ),
            old(self).wf() && old(progress).wf() ==> final(self).wf() && final(progress).wf(),
    {
        match *progress {
            FlashReady::Idle | FlashReady::First(_) => {
                let mut refresh = match *progress {
                    FlashReady::First(refresh) => refresh,
                    _ => Refresh::Idle,
                };
                match self.refresh_mdm_ap(&mut refresh, true, event) {
                    Step::Do(request) => {
                        *progress = FlashReady::First(refresh);
                        Step::Do(request)
                    },
                    Step::Finish(Err(fault)) => {
                        *progress = FlashReady::Idle;
                        Step::Finish(Err(fault))
                    },
                    Step::Finish(Ok(_)) => {
                        *progress = FlashReady::Notice;
                        Step::Do(Request::Report(Notice::WaitingFlashReady))
                    },
                }
            },
            FlashReady::Notice | FlashReady::Polling { .. } => {
                let (polls, mut refresh) = match *progress {
                    FlashReady::Polling { polls, refresh } => (polls, refresh),
                    _ => (0, Refresh::Idle),
                };
                match self.refresh_mdm_ap(&mut refresh, false, event) {
                    Step::Do(request) => {
                        *progress = FlashReady::Polling { polls, refresh };
                        Step::Do(request)
                    },
                    Step::Finish(Err(fault)) => {
                        *progress = FlashReady::Idle;
                        Step::Finish(Err(fault))
                    },
                    Step::Finish(Ok(_)) => {
                        if self.status.value & MKE_MDM_STATUS_FLASH_READY_BIT != 0 {
                            *progress = FlashReady::Ready;
                            Step::Do(Request::Report(Notice::FlashReady))
                        } else {
                            let (refresh, request) = self.begin_refresh();
                            if polls < FLASH_POLL_LIMIT - 1 {
                                *progress = FlashReady::Polling { polls: polls + 1, refresh };
                            } else {
                                *progress = FlashReady::Last { ready: false, refresh };
                            }
                            Step::Do(request)
                        }
                    },
                }
            },
            FlashReady::Ready | FlashReady::Last { .. } => {
                let (ready, mut refresh) = match *progress {
                    FlashReady::Last { ready, refresh } => (ready, refresh),
                    _ => (true, Refresh::Idle),
                };
                match self.refresh_mdm_ap(&mut refresh, true, event) {
                    Step::Do(request) => {
                        *progress = FlashReady::Last { ready, refresh };
                        Step::Do(request)
                    },
                    Step::Finish(Err(fault)) => {
                        *progress = FlashReady::Idle;
                        Step::Finish(Err(fault))
                    },
                    Step::Finish(Ok(_)) => {
                        *progress = FlashReady::Idle;
                        if ready {
                            Step::Finish(Ok(()))
                        } else {
                            Step::Finish(Err(Fault::FlashNotReady))
                        }
                    },
                }
            },
        }
    }
}

/// Whether the identification register holds the value that this family
/// always reads. Another value does not stop the procedure.
pub fn idr_is_expected(idr: u32) -> (expected: bool)
    ensures
        expected == (idr == IDR_REG_CHECK_VALUE),
{
    idr == IDR_REG_CHECK_VALUE
}

/// Clearing bits that were set before puts back the Control word that the
/// snapshot held, if none of these bits was set in it. This holds of the
/// word that the clearing writes whether the snapshot was refreshed after
/// the setting, and then holds what was written, or was not.
pub proof fn law_clear_undoes_set(mdm_ap: MdmAP, status: u32, bit: u32)
    requires
        mdm_ap.control.value & bit == 0,
    ensures
        mdm_ap.control_without(bit) == mdm_ap.control.value,
        MdmAP::decoded(status, mdm_ap.control_with(bit)).control_without(bit) == mdm_ap.control.value,
{
    let word = mdm_ap.control.value;
    assert(word & !bit == word && (word | bit) & !bit == word) by (bit_vector)
        requires
            word & bit == 0,
    ;
}

/// Whatever the snapshot held, the clearing writes the same word after a
/// refresh that followed the setting as it does without one: the Control
/// word of the snapshot without the bits.
pub proof fn law_clear_after_set(mdm_ap: MdmAP, status: u32, bit: u32)
    ensures
        MdmAP::decoded(status, mdm_ap.control_with(bit)).control_without(bit)
            == mdm_ap.control_without(bit),
{
    let word = mdm_ap.control.value;
    assert((word | bit) & !bit == word & !bit) by (bit_vector);
}

} // verus!
