//! The procedure that brings a Kinetis-E target into debug mode through its
//! MDM-AP: attach, hold the system in reset, check that the flash is ready
//! and the device not secured, request debug, halt the core, release reset.
//!
//! It is written as a procedure of steps like those of the session: see
//! [`crate::mdm_ap`].

use vstd::prelude::*;
use crate::dhcsr::{Dhcsr, DHCSR_ADDRESS};
use crate::exchange::{Access, Event, Fault, Notice, Request, Step};
use crate::mdm_ap::{FlashReady, MdmAP, Refresh, RegisterRead, ResetKeep};
use crate::registers::{
    IDR_REG_CHECK_VALUE, MKE_DEFAULT_MEM_AP, MKE_MDM_CONTROL_DBG_REQ_BIT,
    MKE_MDM_CONTROL_SYS_RESET_BIT,
};

verus! {

/// Milliseconds that the core is given to halt before its halting control
/// and status register is read back.
pub const HALT_SETTLE_MS: u64 = 500;

/// Milliseconds that the system is given after the reset request is cleared.
pub const RESET_RELEASE_SETTLE_MS: u64 = 50;

/// Heading of the notice that follows the debug request.
pub const DBG_REQ_REASON: &'static str = " DBG_REQ_BIT set ";

/// How the procedure ended.
#[derive(Debug, Clone, Copy, PartialEq, Eq, Structural)]
pub enum Outcome {
    /// Every step was made: the core was asked to halt and reset is released.
    DebugModeOn,
    /// The device is secured. The core was not touched; only a mass erase
    /// gives access to it.
    Secured,
    /// A step failed. No step is undone: the target may still be held in
    /// reset.
    Failed(Fault),
}

/// Where the procedure stands. Every phase but the first names the request
/// that is pending in it.
#[derive(Debug, Clone, Copy, PartialEq, Eq, Structural)]
pub enum Phase {
    /// Not begun, or ended.
    Idle,
    /// Attaching to the target.
    Attaching,
    /// Resetting the target through the probe.
    ResettingTarget,
    /// Opening the ARM debug interface.
    OpeningInterface,
    /// Initialising the ARM debug interface.
    InitialisingInterface,
    /// The heading is being shown.
    Banner,
    /// Reading the first snapshot.
    FirstRead(RegisterRead),
    /// Asserting the system reset.
    ResetKeep(ResetKeep),
    /// Reading the identification register.
    Idr(Access),
    /// The identification register is being shown.
    IdrNotice,
    /// Waiting for the flash.
    FlashReady(FlashReady),
    /// Refreshing the snapshot to look at the security flag.
    SecurityCheck(Refresh),
    /// The user is being told that the device is secured.
    SecuredNotice,
    /// Setting the debug request.
    DebugRequest(Access),
    /// Refreshing the snapshot to show what the debug request changed.
    DebugRequestCheck(Refresh),
    /// Opening the memory interface for the halt.
    OpeningMemory,
    /// Reading the halting control and status register before the halt.
    ReadingDhcsr,
    /// Writing the halt; the register read `was` before.
    WritingDhcsr { was: u32 },
    /// Flushing the halt.
    Flushing { was: u32 },
    /// Giving the core time to halt.
    Settling { was: u32 },
    /// Reading the register back.
    ReadingBack { was: u32 },
    /// Both readings are being shown.
    DhcsrNotice,
    /// Letting go of the memory interface.
    ClosingMemory,
    /// Refreshing the snapshot after the halt.
    AfterHalt(Refresh),
    /// Clearing the reset request.
    ClearingReset(Access),
    /// Giving the system time to leave reset.
    ReleaseSettling,
    /// Refreshing the snapshot after the release.
    AfterRelease(Refresh),
    /// Opening the memory interface for the last reading.
    ReopeningMemory,
    /// Reading the halting control and status register a last time.
    ReadingDhcsrEnd,
    /// The last reading is being shown.
    DhcsrEndNotice,
    /// Letting go of the memory interface.
    ReclosingMemory,
    /// Refreshing the snapshot a last time.
    LastRefresh(Refresh),
}

/// The procedure: the session's snapshot and the phase it is in.
#[derive(Debug, Clone, Copy, PartialEq, Eq, Structural)]
pub struct Unlock {
    pub mdm_ap: MdmAP,
    pub phase: Phase,
}

impl Phase {
    /// The procedure of the session that is going on is well-formed.
    pub open spec fn wf(&self) -> bool {
        match *self {
            Phase::ResetKeep(progress) => progress.wf(),
            Phase::FlashReady(progress) => progress.wf(),
            Phase::SecurityCheck(refresh) => refresh.wf(),
            Phase::DebugRequestCheck(refresh) => refresh.wf(),
            Phase::AfterHalt(refresh) => refresh.wf(),
            Phase::AfterRelease(refresh) => refresh.wf(),
            Phase::LastRefresh(refresh) => refresh.wf(),
            _ => true,
        }
    }
}

impl Unlock {
    /// Every snapshot that the procedure holds is decoded from its raw
    /// words.
    pub open spec fn wf(&self) -> bool {
        self.mdm_ap.wf() && self.phase.wf()
    }

    /// The procedure before its first step.
    pub fn new() -> (unlock: Unlock)
        ensures
            unlock == (Unlock { mdm_ap: MdmAP::decoded(0, 0), phase: Phase::Idle }),
            unlock.wf(),
    {
        Unlock { mdm_ap: MdmAP::default(), phase: Phase::Idle }
    }

    /// The procedure goes to `phase` and asks for `request`.
    pub open spec fn spec_ask(self, phase: Phase, request: Request) -> (Unlock, Step<Outcome>) {
        (Unlock { mdm_ap: self.mdm_ap, phase }, Step::Do(request))
    }

    /// The procedure ends with `outcome`.
    pub open spec fn spec_stop(self, outcome: Outcome) -> (Unlock, Step<Outcome>) {
        (Unlock { mdm_ap: self.mdm_ap, phase: Phase::Idle }, Step::Finish(outcome))
    }

    /// The procedure holds `mdm_ap` from now on.
    pub open spec fn holding(self, mdm_ap: MdmAP) -> Unlock {
        Unlock { mdm_ap, phase: self.phase }
    }

    fn ask(&mut self, phase: Phase, request: Request) -> (step: Step<Outcome>)
        ensures
            (*final(self), step) == old(self).spec_ask(phase, request),
            old(self).mdm_ap.wf() && phase.wf() ==> final(self).wf(),
    {
        self.phase = phase;
        Step::Do(request)
    }

    fn stop(&mut self, outcome: Outcome) -> (step: Step<Outcome>)
        ensures
            (*final(self), step) == old(self).spec_stop(outcome),
            old(self).mdm_ap.wf() ==> final(self).wf(),
    {
        self.phase = Phase::Idle;
        Step::Finish(outcome)
    }

    /// The first snapshot is read, without notice, and held from then on.
    /// The system reset follows.
    pub open spec fn spec_first_read(self, read: RegisterRead, event: Event) -> (Unlock, Step<Outcome>) {
        let (read, step) = MdmAP::spec_read_mdm_ap_register(read, false, event);
        match step {
            Step::Do(request) => self.spec_ask(Phase::FirstRead(read), request),
            Step::Finish(Err(fault)) => self.spec_stop(Outcome::Failed(fault)),
            Step::Finish(Ok(mdm_ap)) => self.holding(mdm_ap).spec_reset_keep(ResetKeep::Idle, Event::Start),
        }
    }

    fn first_read(&mut self, read: RegisterRead, event: Event) -> (step: Step<Outcome>)
        ensures
            (*final(self), step) == old(self).spec_first_read(read, event),
            old(self).mdm_ap.wf() ==> final(self).wf(),
    {
        let mut read = read;
        match MdmAP::read_mdm_ap_register(&mut read, false, event) {
            Step::Do(request) => self.ask(Phase::FirstRead(read), request),
            Step::Finish(Err(fault)) => self.stop(Outcome::Failed(fault)),
            Step::Finish(Ok(mdm_ap)) => {
                self.mdm_ap = mdm_ap;
                self.reset_keep(ResetKeep::Idle, Event::Start)
            },
        }
    }

    /// The system reset is asserted and waited for. A reset that does not
    /// take hold ends the procedure. The identification register follows.
    pub open spec fn spec_reset_keep(self, progress: ResetKeep, event: Event) -> (Unlock, Step<Outcome>) {
        let (mdm_ap, progress, step) = self.mdm_ap.spec_mdm_ap_reset_keep(progress, event);
        match step {
            Step::Do(request) => self.holding(mdm_ap).spec_ask(Phase::ResetKeep(progress), request),
            Step::Finish(Err(fault)) => self.holding(mdm_ap).spec_stop(Outcome::Failed(fault)),
            Step::Finish(Ok(_)) => self.holding(mdm_ap).spec_idr(Access::Idle, Event::Start),
        }
    }

    fn reset_keep(&mut self, progress: ResetKeep, event: Event) -> (step: Step<Outcome>)
        ensures
            (*final(self), step) == old(self).spec_reset_keep(progress, event),
            old(self).mdm_ap.wf() && progress.wf() ==> final(self).wf(),
    {
        let mut progress = progress;
        match self.mdm_ap.mdm_ap_reset_keep(&mut progress, event) {
            Step::Do(request) => self.ask(Phase::ResetKeep(progress), request),
            Step::Finish(Err(fault)) => self.stop(Outcome::Failed(fault)),
            Step::Finish(Ok(_)) => self.idr(Access::Idle, Event::Start),
        }
    }

    /// The identification register is read and shown, with whether it
    /// holds [`IDR_REG_CHECK_VALUE`]. Whatever it holds, the procedure
    /// goes on.
    pub open spec fn spec_idr(self, access: Access, event: Event) -> (Unlock, Step<Outcome>) {
        let (access, step) = MdmAP::spec_read_mdm_ap_idr(access, event);
        match step {
            Step::Do(request) => self.spec_ask(Phase::Idr(access), request),
            Step::Finish(Err(fault)) => self.spec_stop(Outcome::Failed(fault)),
            Step::Finish(Ok(idr)) => self.spec_ask(
                Phase::IdrNotice,
                Request::Report(Notice::Idr { idr, expected: idr == IDR_REG_CHECK_VALUE }),
            ),
        }
    }

    fn idr(&mut self, access: Access, event: Event) -> (step: Step<Outcome>)
        ensures
            (*final(self), step) == old(self).spec_idr(access, event),
            old(self).mdm_ap.wf() ==> final(self).wf(),
    {
        let mut access = access;
        match self.mdm_ap.read_mdm_ap_idr(&mut access, event) {
            Step::Do(request) => self.ask(Phase::Idr(access), request),
            Step::Finish(Err(fault)) => self.stop(Outcome::Failed(fault)),
            Step::Finish(Ok(idr)) => {
                let expected = crate::mdm_ap::idr_is_expected(idr);
                self.ask(Phase::IdrNotice, Request::Report(Notice::Idr { idr, expected }))
            },
        }
    }

    /// The wait for the flash. A flash that does not become ready ends the
    /// procedure. The security check follows.
    pub open spec fn spec_flash_ready(self, progress: FlashReady, event: Event) -> (Unlock, Step<Outcome>) {
        let (mdm_ap, progress, step) = self.mdm_ap.spec_is_mdm_flash_ready(progress, event);
        match step {
            Step::Do(request) => self.holding(mdm_ap).spec_ask(Phase::FlashReady(progress), request),
            Step::Finish(Err(fault)) => self.holding(mdm_ap).spec_stop(Outcome::Failed(fault)),
            Step::Finish(Ok(_)) => self.holding(mdm_ap).spec_security_check(Refresh::Idle, Event::Start),
        }
    }

    fn flash_ready(&mut self, progress: FlashReady, event: Event) -> (step: Step<Outcome>)
        ensures
            (*final(self), step) == old(self).spec_flash_ready(progress, event),
            old(self).mdm_ap.wf() && progress.wf() ==> final(self).wf(),
    {
        let mut progress = progress;
        match self.mdm_ap.is_mdm_flash_ready(&mut progress, event) {
            Step::Do(request) => self.ask(Phase::FlashReady(progress), request),
            Step::Finish(Err(fault)) => self.stop(Outcome::Failed(fault)),
            Step::Finish(Ok(_)) => self.security_check(Refresh::Idle, Event::Start),
        }
    }

    /// The refresh that looks at the security flag, without notice. If the
    /// fresh snapshot says that the device is secured, the user is told and
    /// the procedure ends there. If not, the debug request follows.
    pub open spec fn spec_security_check(self, refresh: Refresh, event: Event) -> (Unlock, Step<Outcome>) {
        let (mdm_ap, refresh, step) = self.mdm_ap.spec_refresh_mdm_ap(refresh, false, event);
        match step {
            Step::Do(request) => self.holding(mdm_ap).spec_ask(Phase::SecurityCheck(refresh), request),
            Step::Finish(Err(fault)) => self.holding(mdm_ap).spec_stop(Outcome::Failed(fault)),
            Step::Finish(Ok(_)) => if mdm_ap.status.security {
                self.holding(mdm_ap).spec_ask(Phase::SecuredNotice, Request::Report(Notice::Secured))
            } else {
                self.holding(mdm_ap).spec_debug_request(Access::Idle, Event::Start)
            },
        }
    }

    fn security_check(&mut self, refresh: Refresh, event: Event) -> (step: Step<Outcome>)
        ensures
            (*final(self), step) == old(self).spec_security_check(refresh, event),
            old(self).mdm_ap.wf() && refresh.wf() ==> final(self).wf(),
    {
        let mut refresh = refresh;
        match self.mdm_ap.refresh_mdm_ap(&mut refresh, false, event) {
            Step::Do(request) => self.ask(Phase::SecurityCheck(refresh), request),
            Step::Finish(Err(fault)) => self.stop(Outcome::Failed(fault)),
            Step::Finish(Ok(_)) => {
                if self.mdm_ap.status.security {
                    self.ask(Phase::SecuredNotice, Request::Report(Notice::Secured))
                } else {
                    self.debug_request(Access::Idle, Event::Start)
                }
            },
        }
    }

    /// The debug request is set in the Control register, by the word of the
    /// snapshot with that bit.
    pub open spec fn spec_debug_request(self, access: Access, event: Event) -> (Unlock, Step<Outcome>) {
        let (access, step) = MdmAP::spec_write_control(
            access,
            self.mdm_ap.control_with(MKE_MDM_CONTROL_DBG_REQ_BIT),
            Fault::WriteControlBit {
                bit: MKE_MDM_CONTROL_DBG_REQ_BIT,
                old_value: self.mdm_ap.control.value,
            },
            event,
        );
        match step {
            Step::Do(request) => self.spec_ask(Phase::DebugRequest(access), request),
            Step::Finish(Err(fault)) => self.spec_stop(Outcome::Failed(fault)),
            Step::Finish(Ok(_)) => self.spec_debug_request_check(Refresh::Idle, Event::Start),
        }
    }

    fn debug_request(&mut self, access: Access, event: Event) -> (step: Step<Outcome>)
        ensures
            (*final(self), step) == old(self).spec_debug_request(access, event),
            old(self).mdm_ap.wf() ==> final(self).wf(),
    {
        let mut access = access;
        match self.mdm_ap.write_mdm_ap_control_bit(&mut access, MKE_MDM_CONTROL_DBG_REQ_BIT, event) {
            Step::Do(request) => self.ask(Phase::DebugRequest(access), request),
            Step::Finish(Err(fault)) => self.stop(Outcome::Failed(fault)),
            Step::Finish(Ok(_)) => self.debug_request_check(Refresh::Idle, Event::Start),
        }
    }

    /// The refresh that shows what the debug request changed: it is made
    /// with the notice of the changes under [`DBG_REQ_REASON`]. The halt
    /// begins after it, by opening the memory interface.
    pub open spec fn spec_debug_request_check(self, refresh: Refresh, event: Event) -> (
        Unlock,
        Step<Outcome>,
    ) {
        let (mdm_ap, refresh, step) = self.mdm_ap.spec_refresh_and_compare_mdm_ap(
            refresh,
            DBG_REQ_REASON,
            event,
        );
        match step {
            Step::Do(request) => self.holding(mdm_ap).spec_ask(Phase::DebugRequestCheck(refresh), request),
            Step::Finish(Err(fault)) => self.holding(mdm_ap).spec_stop(Outcome::Failed(fault)),
            Step::Finish(Ok(_)) => self.holding(mdm_ap).spec_ask(
                Phase::OpeningMemory,
                Request::OpenMemory { port: MKE_DEFAULT_MEM_AP },
            ),
        }
    }

    fn debug_request_check(&mut self, refresh: Refresh, event: Event) -> (step: Step<Outcome>)
        ensures
            (*final(self), step) == old(self).spec_debug_request_check(refresh, event),
            old(self).mdm_ap.wf() && refresh.wf() ==> final(self).wf(),
    {
        let mut refresh = refresh;
        match self.mdm_ap.refresh_and_compare_mdm_ap(&mut refresh, DBG_REQ_REASON, event) {
            Step::Do(request) => self.ask(Phase::DebugRequestCheck(refresh), request),
            Step::Finish(Err(fault)) => self.stop(Outcome::Failed(fault)),
            Step::Finish(Ok(_)) => self.ask(
                Phase::OpeningMemory,
                Request::OpenMemory { port: MKE_DEFAULT_MEM_AP },
            ),
        }
    }

    /// The refresh after the halt, with notice. The reset request is
    /// cleared after it.
    pub open spec fn spec_after_halt(self, refresh: Refresh, event: Event) -> (Unlock, Step<Outcome>) {
        let (mdm_ap, refresh, step) = self.mdm_ap.spec_refresh_mdm_ap(refresh, true, event);
        match step {
            Step::Do(request) => self.holding(mdm_ap).spec_ask(Phase::AfterHalt(refresh), request),
            Step::Finish(Err(fault)) => self.holding(mdm_ap).spec_stop(Outcome::Failed(fault)),
            Step::Finish(Ok(_)) => self.holding(mdm_ap).spec_clearing_reset(Access::Idle, Event::Start),
        }
    }

    fn after_halt(&mut self, refresh: Refresh, event: Event) -> (step: Step<Outcome>)
        ensures
            (*final(self), step) == old(self).spec_after_halt(refresh, event),
            old(self).mdm_ap.wf() && refresh.wf() ==> final(self).wf(),
    {
        let mut refresh = refresh;
        match self.mdm_ap.refresh_mdm_ap(&mut refresh, true, event) {
            Step::Do(request) => self.ask(Phase::AfterHalt(refresh), request),
            Step::Finish(Err(fault)) => self.stop(Outcome::Failed(fault)),
            Step::Finish(Ok(_)) => self.clearing_reset(Access::Idle, Event::Start),
        }
    }

    /// The reset request is cleared in the Control register, by the word of
    /// the snapshot without that bit. A wait follows.
    pub open spec fn spec_clearing_reset(self, access: Access, event: Event) -> (Unlock, Step<Outcome>) {
        let (access, step) = MdmAP::spec_write_control(
            access,
            self.mdm_ap.control_without(MKE_MDM_CONTROL_SYS_RESET_BIT),
            Fault::WriteControlBit {
                bit: MKE_MDM_CONTROL_SYS_RESET_BIT,
                old_value: self.mdm_ap.control.value,
            },
            event,
        );
        match step {
            Step::Do(request) => self.spec_ask(Phase::ClearingReset(access), request),
            Step::Finish(Err(_)) => self.spec_stop(
                Outcome::Failed(Fault::ClearResetBit { old_value: self.mdm_ap.control.value }),
            ),
            Step::Finish(Ok(_)) => self.spec_ask(
                Phase::ReleaseSettling,
                Request::Sleep { millis: RESET_RELEASE_SETTLE_MS },
            ),
        }
    }

    fn clearing_reset(&mut self, access: Access, event: Event) -> (step: Step<Outcome>)
        ensures
            (*final(self), step) == old(self).spec_clearing_reset(access, event),
            old(self).mdm_ap.wf() ==> final(self).wf(),
    {
        let mut access = access;
        match self.mdm_ap.mdm_ap_clear_reset_bit(&mut access, event) {
            Step::Do(request) => self.ask(Phase::ClearingReset(access), request),
            Step::Finish(Err(_)) => {
                let old_value = self.mdm_ap.control.value;
                self.stop(Outcome::Failed(Fault::ClearResetBit { old_value }))
            },
            Step::Finish(Ok(_)) => self.ask(
                Phase::ReleaseSettling,
                Request::Sleep { millis: RESET_RELEASE_SETTLE_MS },
            ),
        }
    }

    /// The refresh after the release of reset, with notice. The memory
    /// interface is opened after it.
    pub open spec fn spec_after_release(self, refresh: Refresh, event: Event) -> (Unlock, Step<Outcome>) {
        let (mdm_ap, refresh, step) = self.mdm_ap.spec_refresh_mdm_ap(refresh, true, event);
        match step {
            Step::Do(request) => self.holding(mdm_ap).spec_ask(Phase::AfterRelease(refresh), request),
            Step::Finish(Err(fault)) => self.holding(mdm_ap).spec_stop(Outcome::Failed(fault)),
            Step::Finish(Ok(_)) => self.holding(mdm_ap).spec_ask(
                Phase::ReopeningMemory,
                Request::OpenMemory { port: MKE_DEFAULT_MEM_AP },
            ),
        }
    }

    fn after_release(&mut self, refresh: Refresh, event: Event) -> (step: Step<Outcome>)
        ensures
            (*final(self), step) == old(self).spec_after_release(refresh, event),
            old(self).mdm_ap.wf() && refresh.wf() ==> final(self).wf(),
    {
        let mut refresh = refresh;
        match self.mdm_ap.refresh_mdm_ap(&mut refresh, true, event) {
            Step::Do(request) => self.ask(Phase::AfterRelease(refresh), request),
            Step::Finish(Err(fault)) => self.stop(Outcome::Failed(fault)),
            Step::Finish(Ok(_)) => self.ask(
                Phase::ReopeningMemory,
                Request::OpenMemory { port: MKE_DEFAULT_MEM_AP },
            ),
        }
    }

    /// The last refresh, with notice. When it is made the procedure has
    /// succeeded.
    pub open spec fn spec_last_refresh(self, refresh: Refresh, event: Event) -> (Unlock, Step<Outcome>) {
        let (mdm_ap, refresh, step) = self.mdm_ap.spec_refresh_mdm_ap(refresh, true, event);
        match step {
            Step::Do(request) => self.holding(mdm_ap).spec_ask(Phase::LastRefresh(refresh), request),
            Step::Finish(Err(fault)) => self.holding(mdm_ap).spec_stop(Outcome::Failed(fault)),
            Step::Finish(Ok(_)) => self.holding(mdm_ap).spec_stop(Outcome::DebugModeOn),
        }
    }

    fn last_refresh(&mut self, refresh: Refresh, event: Event) -> (step: Step<Outcome>)
        ensures
            (*final(self), step) == old(self).spec_last_refresh(refresh, event),
            old(self).mdm_ap.wf() && refresh.wf() ==> final(self).wf(),
    {
        let mut refresh = refresh;
        match self.mdm_ap.refresh_mdm_ap(&mut refresh, true, event) {
            Step::Do(request) => self.ask(Phase::LastRefresh(refresh), request),
            Step::Finish(Err(fault)) => self.stop(Outcome::Failed(fault)),
            Step::Finish(Ok(_)) => self.stop(Outcome::DebugModeOn),
        }
    }
}

/// The request that reads the halting control and status register.
pub open spec fn dhcsr_read() -> Request {
    Request::ReadWord { address: DHCSR_ADDRESS }
}

/// One step of the procedure, in the order of its phases:
///
/// 1. attach to the target, reset it through the probe, open and
///    initialise the ARM debug interface, show the heading;
/// 2. read the first snapshot;
/// 3. assert the system reset and wait for it;
/// 4. read and show the identification register;
/// 5. wait for the flash;
/// 6. refresh and end with [`Outcome::Secured`] if the device is secured;
/// 7. set the debug request and show what it changed;
/// 8. through the memory interface read the halting control and status
///    register, write [`Dhcsr::halt_request`] to it, flush, wait
///    [`HALT_SETTLE_MS`], read it back and show both readings, neither of
///    which is checked;
/// 9. refresh;
/// 10. clear the reset request, wait [`RESET_RELEASE_SETTLE_MS`], refresh,
///     read and show the halting control and status register;
/// 11. refresh.
///
/// The first request that fails ends the procedure with the fault of its
/// phase.
pub open spec fn spec_debug_mode_on_an4835(unlock: Unlock, event: Event) -> (Unlock, Step<Outcome>) {
    let done = event == Event::Completed;
    match unlock.phase {
        Phase::Idle => unlock.spec_ask(Phase::Attaching, Request::Attach),
        Phase::Attaching => if done {
            unlock.spec_ask(Phase::ResettingTarget, Request::ResetTarget)
        } else {
            unlock.spec_stop(Outcome::Failed(Fault::Attach))
        },
        Phase::ResettingTarget => if done {
            unlock.spec_ask(Phase::OpeningInterface, Request::OpenArmInterface)
        } else {
            unlock.spec_stop(Outcome::Failed(Fault::TargetReset))
        },
        Phase::OpeningInterface => if done {
            unlock.spec_ask(Phase::InitialisingInterface, Request::InitArmInterface)
        } else {
            unlock.spec_stop(Outcome::Failed(Fault::OpenArmInterface))
        },
        Phase::InitialisingInterface => if done {
            unlock.spec_ask(Phase::Banner, Request::Report(Notice::Banner))
        } else {
            unlock.spec_stop(Outcome::Failed(Fault::InitArmInterface))
        },
        Phase::Banner => unlock.spec_first_read(RegisterRead::Idle, Event::Start),
        Phase::FirstRead(read) => unlock.spec_first_read(read, event),
        Phase::ResetKeep(progress) => unlock.spec_reset_keep(progress, event),
        Phase::Idr(access) => unlock.spec_idr(access, event),
        Phase::IdrNotice => unlock.spec_flash_ready(FlashReady::Idle, Event::Start),
        Phase::FlashReady(progress) => unlock.spec_flash_ready(progress, event),
        Phase::SecurityCheck(refresh) => unlock.spec_security_check(refresh, event),
        Phase::SecuredNotice => unlock.spec_stop(Outcome::Secured),
        Phase::DebugRequest(access) => unlock.spec_debug_request(access, event),
        Phase::DebugRequestCheck(refresh) => unlock.spec_debug_request_check(refresh, event),
        Phase::OpeningMemory => if done {
            unlock.spec_ask(Phase::ReadingDhcsr, dhcsr_read())
        } else {
            unlock.spec_stop(Outcome::Failed(Fault::OpenMemory))
        },
        Phase::ReadingDhcsr => match event {
            Event::Value(was) => unlock.spec_ask(
                Phase::WritingDhcsr { was },
                Request::WriteWord { address: DHCSR_ADDRESS, value: Dhcsr::halt_request() },
            ),
            _ => unlock.spec_stop(Outcome::Failed(Fault::ReadDhcsr)),
        },
        Phase::WritingDhcsr { was } => if done {
            unlock.spec_ask(Phase::Flushing { was }, Request::Flush)
        } else {
            unlock.spec_stop(Outcome::Failed(Fault::WriteDhcsr))
        },
        Phase::Flushing { was } => if done {
            unlock.spec_ask(Phase::Settling { was }, Request::Sleep { millis: HALT_SETTLE_MS })
        } else {
            unlock.spec_stop(Outcome::Failed(Fault::Flush))
        },
        Phase::Settling { was } => unlock.spec_ask(Phase::ReadingBack { was }, dhcsr_read()),
        Phase::ReadingBack { was } => match event {
            Event::Value(now) => unlock.spec_ask(
                Phase::DhcsrNotice,
                Request::Report(Notice::DhcsrWritten { was, now }),
            ),
            _ => unlock.spec_stop(Outcome::Failed(Fault::ReadDhcsrAfterWrite)),
        },
        Phase::DhcsrNotice => unlock.spec_ask(Phase::ClosingMemory, Request::CloseMemory),
        Phase::ClosingMemory => unlock.spec_after_halt(Refresh::Idle, Event::Start),
        Phase::AfterHalt(refresh) => unlock.spec_after_halt(refresh, event),
        Phase::ClearingReset(access) => unlock.spec_clearing_reset(access, event),
        Phase::ReleaseSettling => unlock.spec_after_release(Refresh::Idle, Event::Start),
        Phase::AfterRelease(refresh) => unlock.spec_after_release(refresh, event),
        Phase::ReopeningMemory => if done {
            unlock.spec_ask(Phase::ReadingDhcsrEnd, dhcsr_read())
        } else {
            unlock.spec_stop(Outcome::Failed(Fault::OpenMemory))
        },
        Phase::ReadingDhcsrEnd => match event {
            Event::Value(value) => unlock.spec_ask(
                Phase::DhcsrEndNotice,
                Request::Report(Notice::DhcsrEnd { value }),
            ),
            _ => unlock.spec_stop(Outcome::Failed(Fault::ReadDhcsr)),
        },
        Phase::DhcsrEndNotice => unlock.spec_ask(Phase::ReclosingMemory, Request::CloseMemory),
        Phase::ReclosingMemory => unlock.spec_last_refresh(Refresh::Idle, Event::Start),
        Phase::LastRefresh(refresh) => unlock.spec_last_refresh(refresh, event),
    }
}

/// One step of the procedure that brings the target into debug mode.
pub fn debug_mode_on_an4835(unlock: &mut Unlock, event: Event) -> (step: Step<Outcome>)
    ensures
        (*final(unlock), step) == spec_debug_mode_on_an4835(*old(unlock), event),
        old(unlock).wf() ==> final(unlock).wf(),
{

    let done = match event {
        Event::Completed => true,
        _ => false,
    };
    match unlock.phase {
        Phase::Idle => unlock.ask(Phase::Attaching, Request::Attach),
        Phase::Attaching => {
            if done {
                unlock.ask(Phase::ResettingTarget, Request::ResetTarget)
            } else {
                unlock.stop(Outcome::Failed(Fault::Attach))
            }
        },
        Phase::ResettingTarget => {
            if done {
                unlock.ask(Phase::OpeningInterface, Request::OpenArmInterface)
            } else {
                unlock.stop(Outcome::Failed(Fault::TargetReset))
            }
        },
        Phase::OpeningInterface => {
            if done {
                unlock.ask(Phase::InitialisingInterface, Request::InitArmInterface)
            } else {
                unlock.stop(Outcome::Failed(Fault::OpenArmInterface))
            }
        },
        Phase::InitialisingInterface => {
            if done {
                unlock.ask(Phase::Banner, Request::Report(Notice::Banner))
            } else {
                unlock.stop(Outcome::Failed(Fault::InitArmInterface))
            }
        },
        Phase::Banner => unlock.first_read(RegisterRead::Idle, Event::Start),
        Phase::FirstRead(read) => unlock.first_read(read, event),
        Phase::ResetKeep(progress) => unlock.reset_keep(progress, event),
        Phase::Idr(access) => unlock.idr(access, event),
        Phase::IdrNotice => unlock.flash_ready(FlashReady::Idle, Event::Start),
        Phase::FlashReady(progress) => unlock.flash_ready(progress, event),
        Phase::SecurityCheck(refresh) => unlock.security_check(refresh, event),
        Phase::SecuredNotice => unlock.stop(Outcome::Secured),
        Phase::DebugRequest(access) => unlock.debug_request(access, event),
        Phase::DebugRequestCheck(refresh) => unlock.debug_request_check(refresh, event),
        Phase::OpeningMemory => {
            if done {
                unlock.ask(Phase::ReadingDhcsr, Request::ReadWord { address: DHCSR_ADDRESS })
            } else {
                unlock.stop(Outcome::Failed(Fault::OpenMemory))
            }
        },
        Phase::ReadingDhcsr => match event {
            Event::Value(was) => {
                let value = Dhcsr::halt_request();
                unlock.ask(Phase::WritingDhcsr { was }, Request::WriteWord { address: DHCSR_ADDRESS, value })
            },
            _ => unlock.stop(Outcome::Failed(Fault::ReadDhcsr)),
        },
        Phase::WritingDhcsr { was } => {
            if done {
                unlock.ask(Phase::Flushing { was }, Request::Flush)
            } else {
                unlock.stop(Outcome::Failed(Fault::WriteDhcsr))
            }
        },
        Phase::Flushing { was } => {
            if done {
                unlock.ask(Phase::Settling { was }, Request::Sleep { millis: HALT_SETTLE_MS })
            } else {
                unlock.stop(Outcome::Failed(Fault::Flush))
            }
        },
        Phase::Settling { was } => unlock.ask(
            Phase::ReadingBack { was },
            Request::ReadWord { address: DHCSR_ADDRESS },
        ),
        Phase::ReadingBack { was } => match event {
            Event::Value(now) => unlock.ask(
                Phase::DhcsrNotice,
                Request::Report(Notice::DhcsrWritten { was, now }),
            ),
            _ => unlock.stop(Outcome::Failed(Fault::ReadDhcsrAfterWrite)),
        },
        Phase::DhcsrNotice => unlock.ask(Phase::ClosingMemory, Request::CloseMemory),
        Phase::ClosingMemory => unlock.after_halt(Refresh::Idle, Event::Start),
        Phase::AfterHalt(refresh) => unlock.after_halt(refresh, event),
        Phase::ClearingReset(access) => unlock.clearing_reset(access, event),
        Phase::ReleaseSettling => unlock.after_release(Refresh::Idle, Event::Start),
        Phase::AfterRelease(refresh) => unlock.after_release(refresh, event),
        Phase::ReopeningMemory => {
            if done {
                unlock.ask(Phase::ReadingDhcsrEnd, Request::ReadWord { address: DHCSR_ADDRESS })
            } else {
                unlock.stop(Outcome::Failed(Fault::OpenMemory))
            }
        },
        Phase::ReadingDhcsrEnd => match event {
            Event::Value(value) => unlock.ask(
                Phase::DhcsrEndNotice,
                Request::Report(Notice::DhcsrEnd { value }),
            ),
            _ => unlock.stop(Outcome::Failed(Fault::ReadDhcsr)),
        },
        Phase::DhcsrEndNotice => unlock.ask(Phase::ReclosingMemory, Request::CloseMemory),
        Phase::ReclosingMemory => unlock.last_refresh(Refresh::Idle, Event::Start),
        Phase::LastRefresh(refresh) => unlock.last_refresh(refresh, event),
    }
}

} // verus!
