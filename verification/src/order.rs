//! The order that the unlock procedure keeps to: which phase follows
//! which, what is written in which, when the memory interface is used,
//! when the debug request may be set, and that a secured target is left
//! alone.

use vstd::prelude::*;
use crate::exchange::{Access, Event, Request, Step};
use crate::dhcsr::{Dhcsr, DHCSR_ADDRESS};
use crate::mdm_ap::{FlashReady, MdmAP, Refresh, RegisterRead, ResetKeep};
use crate::registers::{
    law_status_flags_follow_masks, MKE_MDM_CONTROL_DBG_REQ_BIT, MKE_MDM_CONTROL_SYS_RESET_BIT,
    MKE_MDM_STATUS, MKE_MDM_STATUS_SYSTEM_SECURITY_BIT,
};
use crate::run::{event_after, kept_by_steps, lemma_run_keeps, run, stepped, unlock_step};
use crate::unlock::{spec_debug_mode_on_an4835, Outcome, Phase, Unlock};

verus! {

/// Whether the memory interface is open while the request that is pending
/// in `phase` is served.
pub open spec fn memory_is_open(phase: Phase) -> bool {
    match phase {
        Phase::ReadingDhcsr => true,
        Phase::WritingDhcsr { .. } => true,
        Phase::Flushing { .. } => true,
        Phase::Settling { .. } => true,
        Phase::ReadingBack { .. } => true,
        Phase::DhcsrNotice => true,
        Phase::ClosingMemory => true,
        Phase::ReadingDhcsrEnd => true,
        Phase::DhcsrEndNotice => true,
        Phase::ReclosingMemory => true,
        _ => false,
    }
}

/// Whether `request` goes to the open memory interface.
pub open spec fn needs_memory(request: Request) -> bool {
    match request {
        Request::ReadWord { .. } => true,
        Request::WriteWord { .. } => true,
        Request::Flush => true,
        Request::CloseMemory => true,
        _ => false,
    }
}

/// Whether `request` goes to the probe or to the debug port, which cannot
/// be reached while the memory interface is open.
pub open spec fn needs_port(request: Request) -> bool {
    match request {
        Request::Attach => true,
        Request::ResetTarget => true,
        Request::OpenArmInterface => true,
        Request::InitArmInterface => true,
        Request::ReadAp { .. } => true,
        Request::WriteAp { .. } => true,
        Request::OpenMemory { .. } => true,
        _ => false,
    }
}

/// What a step from `before` to `after` that asks for `request` owes to
/// the memory interface: a request for the memory interface is made only
/// while it is open and one for the debug port only while it is not; the
/// memory interface is open after the step only if it was open before and
/// was not let go, or if it was being opened and that succeeded; and it is
/// opened and let go by the requests for that alone.
pub open spec fn respects_memory(before: Phase, event: Event, after: Phase, request: Request) -> bool {
    &&& needs_memory(request) ==> memory_is_open(after)
    &&& needs_port(request) ==> !memory_is_open(after)
    &&& memory_is_open(after) ==> {
        ||| memory_is_open(before) && before != Phase::ClosingMemory && before != Phase::ReclosingMemory
        ||| (before == Phase::OpeningMemory || before == Phase::ReopeningMemory) && event
            == Event::Completed
    }
    &&& !memory_is_open(after) && memory_is_open(before) ==> before == Phase::ClosingMemory || before
        == Phase::ReclosingMemory
    &&& after == Phase::OpeningMemory || after == Phase::ReopeningMemory <==> request is OpenMemory
    &&& after == Phase::ClosingMemory || after == Phase::ReclosingMemory <==> request
        == Request::CloseMemory
}

/// The place of a phase in the order of the procedure.
pub open spec fn place(phase: Phase) -> nat {
    match phase {
        Phase::Idle => 0,
        Phase::Attaching => 1,
        Phase::ResettingTarget => 2,
        Phase::OpeningInterface => 3,
        Phase::InitialisingInterface => 4,
        Phase::Banner => 5,
        Phase::FirstRead(_) => 6,
        Phase::ResetKeep(_) => 7,
        Phase::Idr(_) => 8,
        Phase::IdrNotice => 9,
        Phase::FlashReady(_) => 10,
        Phase::SecurityCheck(_) => 11,
        Phase::SecuredNotice => 12,
        Phase::DebugRequest(_) => 13,
        Phase::DebugRequestCheck(_) => 14,
        Phase::OpeningMemory => 15,
        Phase::ReadingDhcsr => 16,
        Phase::WritingDhcsr { .. } => 17,
        Phase::Flushing { .. } => 18,
        Phase::Settling { .. } => 19,
        Phase::ReadingBack { .. } => 20,
        Phase::DhcsrNotice => 21,
        Phase::ClosingMemory => 22,
        Phase::AfterHalt(_) => 23,
        Phase::ClearingReset(_) => 24,
        Phase::ReleaseSettling => 25,
        Phase::AfterRelease(_) => 26,
        Phase::ReopeningMemory => 27,
        Phase::ReadingDhcsrEnd => 28,
        Phase::DhcsrEndNotice => 29,
        Phase::ReclosingMemory => 30,
        Phase::LastRefresh(_) => 31,
    }
}

/// Whether a step may lead from the phase at place `before` to `after`: it
/// stays in its phase or goes on to the next one. The security check
/// alone is followed either by the notice that the device is secured or,
/// past it, by the debug request; after that notice nothing follows.
pub open spec fn follows(before: nat, after: Phase) -> bool {
    ||| place(after) == before
    ||| place(after) == before + 1 && before != place(Phase::SecuredNotice)
    ||| before == place(Phase::SecurityCheck(Refresh::Idle)) && after is DebugRequest
}

/// If `request` writes, it writes what is due in the phase that it leads
/// to: the reset request alone where the reset is asserted, the Control
/// word of the snapshot with the debug request where that is set and
/// without the reset request where that is cleared, and the halt to the
/// halting control and status register. Nothing else is written.
pub open spec fn writes_as_due(after: Unlock, request: Request) -> bool {
    match request {
        Request::WriteAp { .. } => match after.phase {
            Phase::ResetKeep(ResetKeep::Requesting(Access::Pending)) => request
                == MdmAP::control_write_of(MKE_MDM_CONTROL_SYS_RESET_BIT),
            Phase::DebugRequest(Access::Pending) => request == MdmAP::control_write_of(
                after.mdm_ap.control_with(MKE_MDM_CONTROL_DBG_REQ_BIT),
            ),
            Phase::ClearingReset(Access::Pending) => request == MdmAP::control_write_of(
                after.mdm_ap.control_without(MKE_MDM_CONTROL_SYS_RESET_BIT),
            ),
            _ => false,
        },
        Request::WriteWord { address, value } => {
            &&& after.phase is WritingDhcsr
            &&& address == DHCSR_ADDRESS
            &&& value == Dhcsr::halt_request()
        },
        _ => true,
    }
}

/// What the step of a phase that runs a procedure of the session keeps to.
/// It asks nothing of the memory interface, which is not open after it,
/// and opens it by the request for that alone. It stays in the phase at
/// place `at`, and unless that phase is only `entered` by this step, it
/// may go on as [`follows`] says.
pub open spec fn keeps_to_port(end: (Unlock, Step<Outcome>), at: nat, entered: bool) -> bool {
    end.1 matches Step::Do(request) ==> {
        &&& !needs_memory(request)
        &&& !memory_is_open(end.0.phase)
        &&& end.0.phase == Phase::OpeningMemory || end.0.phase == Phase::ReopeningMemory
            <==> request is OpenMemory
        &&& follows(at, end.0.phase)
        &&& entered ==> place(end.0.phase) == at
        &&& writes_as_due(end.0, request)
    }
}

proof fn lemma_first_read(unlock: Unlock, read: RegisterRead, event: Event)
    ensures
        keeps_to_port(unlock.spec_first_read(read, event), 6, read == RegisterRead::Idle),
{
    let (_, step) = MdmAP::spec_read_mdm_ap_register(read, false, event);
    match step {
        Step::Finish(Ok(mdm_ap)) => {
            lemma_reset_keep(unlock.holding(mdm_ap), ResetKeep::Idle, Event::Start);
        },
        _ => {},
    }
}

proof fn lemma_reset_keep(unlock: Unlock, progress: ResetKeep, event: Event)
    ensures
        keeps_to_port(unlock.spec_reset_keep(progress, event), 7, progress == ResetKeep::Idle),
{
    let (mdm_ap, _, _) = unlock.mdm_ap.spec_mdm_ap_reset_keep(progress, event);
    lemma_idr(unlock.holding(mdm_ap), Access::Idle, Event::Start);
}

proof fn lemma_idr(unlock: Unlock, access: Access, event: Event)
    ensures
        keeps_to_port(unlock.spec_idr(access, event), 8, access == Access::Idle),
{
}

proof fn lemma_flash_ready(unlock: Unlock, progress: FlashReady, event: Event)
    ensures
        keeps_to_port(unlock.spec_flash_ready(progress, event), 10, progress == FlashReady::Idle),
{
    let (mdm_ap, _, _) = unlock.mdm_ap.spec_is_mdm_flash_ready(progress, event);
    lemma_security_check(unlock.holding(mdm_ap), Refresh::Idle, Event::Start);
}

proof fn lemma_security_check(unlock: Unlock, refresh: Refresh, event: Event)
    ensures
        keeps_to_port(unlock.spec_security_check(refresh, event), 11, refresh == Refresh::Idle),
{
    let (mdm_ap, _, _) = unlock.mdm_ap.spec_refresh_mdm_ap(refresh, false, event);
    lemma_debug_request(unlock.holding(mdm_ap), Access::Idle, Event::Start);
}

proof fn lemma_debug_request(unlock: Unlock, access: Access, event: Event)
    ensures
        keeps_to_port(unlock.spec_debug_request(access, event), 13, access == Access::Idle),
{
    lemma_debug_request_check(unlock, Refresh::Idle, Event::Start);
}

proof fn lemma_debug_request_check(unlock: Unlock, refresh: Refresh, event: Event)
    ensures
        keeps_to_port(unlock.spec_debug_request_check(refresh, event), 14, refresh == Refresh::Idle),
{
}

proof fn lemma_after_halt(unlock: Unlock, refresh: Refresh, event: Event)
    ensures
        keeps_to_port(unlock.spec_after_halt(refresh, event), 23, refresh == Refresh::Idle),
{
    let (mdm_ap, _, _) = unlock.mdm_ap.spec_refresh_mdm_ap(refresh, true, event);
    lemma_clearing_reset(unlock.holding(mdm_ap), Access::Idle, Event::Start);
}

proof fn lemma_clearing_reset(unlock: Unlock, access: Access, event: Event)
    ensures
        keeps_to_port(unlock.spec_clearing_reset(access, event), 24, access == Access::Idle),
{
}

proof fn lemma_after_release(unlock: Unlock, refresh: Refresh, event: Event)
    ensures
        keeps_to_port(unlock.spec_after_release(refresh, event), 26, refresh == Refresh::Idle),
{
}

proof fn lemma_last_refresh(unlock: Unlock, refresh: Refresh, event: Event)
    ensures
        keeps_to_port(unlock.spec_last_refresh(refresh, event), 31, refresh == Refresh::Idle),
{
}

/// Whether a procedure of the session runs in `phase`, or begins with the
/// step from it.
pub open spec fn runs_session(phase: Phase) -> bool {
    match phase {
        Phase::Banner => true,
        Phase::FirstRead(_) => true,
        Phase::ResetKeep(_) => true,
        Phase::Idr(_) => true,
        Phase::IdrNotice => true,
        Phase::FlashReady(_) => true,
        Phase::SecurityCheck(_) => true,
        Phase::DebugRequest(_) => true,
        Phase::DebugRequestCheck(_) => true,
        Phase::ClosingMemory => true,
        Phase::AfterHalt(_) => true,
        Phase::ClearingReset(_) => true,
        Phase::ReleaseSettling => true,
        Phase::AfterRelease(_) => true,
        Phase::ReclosingMemory => true,
        Phase::LastRefresh(_) => true,
        _ => false,
    }
}

/// The steps of the phases in which a procedure of the session runs or
/// begins.
proof fn lemma_session_phases(unlock: Unlock, event: Event)
    requires
        runs_session(unlock.phase),
    ensures
        ({
            let end = spec_debug_mode_on_an4835(unlock, event);
            end.1 matches Step::Do(request) ==> {
                &&& !needs_memory(request)
                &&& !memory_is_open(end.0.phase)
                &&& end.0.phase == Phase::OpeningMemory || end.0.phase == Phase::ReopeningMemory
                    <==> request is OpenMemory
                &&& follows(place(unlock.phase), end.0.phase)
                &&& writes_as_due(end.0, request)
            }
        }),
{
    match unlock.phase {
        Phase::Banner => lemma_first_read(unlock, RegisterRead::Idle, Event::Start),
        Phase::FirstRead(read) => lemma_first_read(unlock, read, event),
        Phase::ResetKeep(progress) => lemma_reset_keep(unlock, progress, event),
        Phase::Idr(access) => lemma_idr(unlock, access, event),
        Phase::IdrNotice => lemma_flash_ready(unlock, FlashReady::Idle, Event::Start),
        Phase::FlashReady(progress) => lemma_flash_ready(unlock, progress, event),
        Phase::SecurityCheck(refresh) => lemma_security_check(unlock, refresh, event),
        Phase::DebugRequest(access) => lemma_debug_request(unlock, access, event),
        Phase::DebugRequestCheck(refresh) => lemma_debug_request_check(unlock, refresh, event),
        Phase::ClosingMemory => lemma_after_halt(unlock, Refresh::Idle, Event::Start),
        Phase::AfterHalt(refresh) => lemma_after_halt(unlock, refresh, event),
        Phase::ClearingReset(access) => lemma_clearing_reset(unlock, access, event),
        Phase::ReleaseSettling => lemma_after_release(unlock, Refresh::Idle, Event::Start),
        Phase::AfterRelease(refresh) => lemma_after_release(unlock, refresh, event),
        Phase::ReclosingMemory => lemma_last_refresh(unlock, Refresh::Idle, Event::Start),
        Phase::LastRefresh(refresh) => lemma_last_refresh(unlock, refresh, event),
        _ => {},
    }
}

/// The phases are passed in their order: a step that asks for something
/// stays in its phase or goes on to the next one, as [`follows`] says, so
/// that no phase is left out and none comes again. A step that ends the
/// procedure leaves it at rest. Only the last refresh ends it with
/// [`Outcome::DebugModeOn`], and only the notice that the device is
/// secured, which always does so, ends it with [`Outcome::Secured`].
pub proof fn law_phases_follow_in_order(unlock: Unlock, event: Event)
    ensures
        ({
            let (after, step) = spec_debug_mode_on_an4835(unlock, event);
            &&& step is Do ==> follows(place(unlock.phase), after.phase)
            &&& step is Finish ==> after.phase == Phase::Idle
            &&& step == Step::Finish(Outcome::DebugModeOn) ==> unlock.phase is LastRefresh
            &&& step == Step::Finish(Outcome::Secured) <==> unlock.phase == Phase::SecuredNotice
        }),
{
    if runs_session(unlock.phase) {
        lemma_session_phases(unlock, event);
        lemma_session_ends(unlock, event);
    }
}

/// How the steps of the phases in which a procedure of the session runs or
/// begins end the procedure, if they do.
proof fn lemma_session_ends(unlock: Unlock, event: Event)
    requires
        runs_session(unlock.phase),
    ensures
        ({
            let (after, step) = spec_debug_mode_on_an4835(unlock, event);
            &&& step is Finish ==> after.phase == Phase::Idle
            &&& step == Step::Finish(Outcome::DebugModeOn) ==> unlock.phase is LastRefresh
            &&& step != Step::Finish(Outcome::Secured)
        }),
{
    match unlock.phase {
        Phase::Banner => lemma_first_read_ends(unlock, RegisterRead::Idle, Event::Start),
        Phase::FirstRead(read) => lemma_first_read_ends(unlock, read, event),
        Phase::ResetKeep(progress) => lemma_reset_keep_ends(unlock, progress, event),
        Phase::IdrNotice => lemma_flash_ready_ends(unlock, FlashReady::Idle, Event::Start),
        Phase::FlashReady(progress) => lemma_flash_ready_ends(unlock, progress, event),
        Phase::SecurityCheck(refresh) => lemma_security_check_ends(unlock, refresh, event),
        Phase::ClosingMemory => lemma_after_halt_ends(unlock, Refresh::Idle, Event::Start),
        Phase::AfterHalt(refresh) => lemma_after_halt_ends(unlock, refresh, event),
        _ => {},
    }
}

/// The step ends the procedure at rest and with a failure, if it ends it.
pub open spec fn ends_failed(end: (Unlock, Step<Outcome>)) -> bool {
    end.1 matches Step::Finish(outcome) ==> end.0.phase == Phase::Idle && outcome is Failed
}

proof fn lemma_first_read_ends(unlock: Unlock, read: RegisterRead, event: Event)
    ensures
        ends_failed(unlock.spec_first_read(read, event)),
{
    let (_, step) = MdmAP::spec_read_mdm_ap_register(read, false, event);
    match step {
        Step::Finish(Ok(mdm_ap)) => {
            lemma_reset_keep_ends(unlock.holding(mdm_ap), ResetKeep::Idle, Event::Start);
        },
        _ => {},
    }
}

proof fn lemma_reset_keep_ends(unlock: Unlock, progress: ResetKeep, event: Event)
    ensures
        ends_failed(unlock.spec_reset_keep(progress, event)),
{
}

proof fn lemma_flash_ready_ends(unlock: Unlock, progress: FlashReady, event: Event)
    ensures
        ends_failed(unlock.spec_flash_ready(progress, event)),
{
    let (mdm_ap, _, _) = unlock.mdm_ap.spec_is_mdm_flash_ready(progress, event);
    lemma_security_check_ends(unlock.holding(mdm_ap), Refresh::Idle, Event::Start);
}

proof fn lemma_security_check_ends(unlock: Unlock, refresh: Refresh, event: Event)
    ensures
        ends_failed(unlock.spec_security_check(refresh, event)),
{
}

proof fn lemma_after_halt_ends(unlock: Unlock, refresh: Refresh, event: Event)
    ensures
        ends_failed(unlock.spec_after_halt(refresh, event)),
{
}

/// Every write that the procedure asks for is one of four: the reset
/// request, the debug request, the release of the reset and the halt, each
/// in its phase, as [`writes_as_due`] says.
pub proof fn law_writes_are_due(unlock: Unlock, event: Event)
    ensures
        spec_debug_mode_on_an4835(unlock, event).1 matches Step::Do(request) ==> writes_as_due(
            spec_debug_mode_on_an4835(unlock, event).0,
            request,
        ),
{
    if runs_session(unlock.phase) {
        lemma_session_phases(unlock, event);
    }
}

/// The memory interface is used only while it is open, and the debug port
/// only while it is not: every step of the procedure that asks for
/// something does what [`respects_memory`] says.
pub proof fn law_memory_is_used_while_open(unlock: Unlock, event: Event)
    ensures
        spec_debug_mode_on_an4835(unlock, event).1 matches Step::Do(request) ==> respects_memory(
            unlock.phase,
            event,
            spec_debug_mode_on_an4835(unlock, event).0.phase,
            request,
        ),
{
    if runs_session(unlock.phase) {
        lemma_session_phases(unlock, event);
    }
}

/// The debug request is set only where the security check has just found
/// the device not secured: a step that begins to set it comes from the
/// security check, holds a snapshot whose security flag is clear, and asks
/// for the Control word of that snapshot with the debug request bit.
pub proof fn law_debug_request_follows_security_check(unlock: Unlock, event: Event)
    ensures
        ({
            let (after, step) = spec_debug_mode_on_an4835(unlock, event);
            after.phase is DebugRequest && !(unlock.phase is DebugRequest) ==> {
                &&& unlock.phase is SecurityCheck
                &&& !after.mdm_ap.status.security
                &&& after.phase == Phase::DebugRequest(Access::Pending)
                &&& step == Step::<Outcome>::Do(
                    MdmAP::control_write_of(after.mdm_ap.control_with(MKE_MDM_CONTROL_DBG_REQ_BIT)),
                )
            }
        }),
{
    law_phases_follow_in_order(unlock, event);
}

/// Every read of the Status register that gives a word gives one with the
/// security bit 1.
pub open spec fn shows_secured(answer: spec_fn(Seq<Request>, Request) -> Event) -> bool {
    forall|before: Seq<Request>|
        (#[trigger] answer(before, MdmAP::read_of(MKE_MDM_STATUS))) matches Event::Value(status)
            ==> status & MKE_MDM_STATUS_SYSTEM_SECURITY_BIT != 0
}

/// The request writes nothing but the reset request and does not reach for
/// the memory of the target.
pub open spec fn leaves_core_alone(request: Request) -> bool {
    match request {
        Request::WriteAp { .. } => request == MdmAP::control_write_of(MKE_MDM_CONTROL_SYS_RESET_BIT),
        Request::OpenMemory { .. } => false,
        Request::ReadWord { .. } => false,
        Request::WriteWord { .. } => false,
        Request::Flush => false,
        Request::CloseMemory => false,
        _ => true,
    }
}

/// The Status word that a refresh has read and not yet decoded has the
/// security bit 1, and where the refresh waits for the Status register,
/// `pending` is the read of it.
pub open spec fn refresh_shows_secured(refresh: Refresh, pending: Option<Request>) -> bool {
    match refresh {
        Refresh::Idle => true,
        Refresh::Reading(RegisterRead::Idle) => true,
        Refresh::Reading(RegisterRead::Status) => pending == Some(MdmAP::read_of(MKE_MDM_STATUS)),
        Refresh::Reading(RegisterRead::Control { status }) => status
            & MKE_MDM_STATUS_SYSTEM_SECURITY_BIT != 0,
        Refresh::Reading(RegisterRead::Notice { status, .. }) => status
            & MKE_MDM_STATUS_SYSTEM_SECURITY_BIT != 0,
        Refresh::Notice { fresh } => fresh.status.security,
    }
}

/// The procedure has not set the debug request, and if it is looking at the
/// security flag, what it has read so far says that the device is secured.
pub open spec fn before_debug_request(unlock: Unlock, pending: Option<Request>) -> bool {
    match unlock.phase {
        Phase::Idle => true,
        Phase::Attaching => true,
        Phase::ResettingTarget => true,
        Phase::OpeningInterface => true,
        Phase::InitialisingInterface => true,
        Phase::Banner => true,
        Phase::FirstRead(_) => true,
        Phase::ResetKeep(_) => true,
        Phase::Idr(_) => true,
        Phase::IdrNotice => true,
        Phase::FlashReady(_) => true,
        Phase::SecurityCheck(refresh) => refresh_shows_secured(refresh, pending),
        Phase::SecuredNotice => true,
        _ => false,
    }
}

/// The step asks for something that leaves the core alone and leads to a
/// state in which the debug request is still not set, or it ends the
/// procedure otherwise than with [`Outcome::DebugModeOn`].
pub open spec fn stays_before_debug_request(end: (Unlock, Step<Outcome>)) -> bool {
    match end.1 {
        Step::Do(request) => leaves_core_alone(request) && before_debug_request(end.0, Some(request)),
        Step::Finish(outcome) => outcome != Outcome::DebugModeOn,
    }
}

/// One step from a state in which the debug request is not set.
proof fn lemma_secured_step(
    answer: spec_fn(Seq<Request>, Request) -> Event,
    unlock: Unlock,
    pending: Option<Request>,
    before: Seq<Request>,
)
    requires
        shows_secured(answer),
        before_debug_request(unlock, pending),
    ensures
        stays_before_debug_request(spec_debug_mode_on_an4835(unlock, event_after(answer, pending, before))),
{
    let event = event_after(answer, pending, before);
    match unlock.phase {
        Phase::FirstRead(read) => {
            lemma_secured_first_read(unlock, read, event);
        },
        Phase::Banner => {
            lemma_secured_first_read(unlock, RegisterRead::Idle, Event::Start);
        },
        Phase::ResetKeep(progress) => {
            lemma_secured_reset_keep(unlock, progress, event);
        },
        Phase::Idr(access) => {
            lemma_secured_idr(unlock, access, event);
        },
        Phase::IdrNotice => {
            lemma_secured_flash_ready(unlock, FlashReady::Idle, Event::Start);
        },
        Phase::FlashReady(progress) => {
            lemma_secured_flash_ready(unlock, progress, event);
        },
        Phase::SecurityCheck(refresh) => {
            lemma_secured_security_check(unlock, refresh, event);
        },
        _ => {},
    }
}

/// The first request of the security check.
proof fn lemma_security_check_begins(unlock: Unlock)
    ensures
        unlock.spec_security_check(Refresh::Idle, Event::Start) == (
            Unlock {
                mdm_ap: unlock.mdm_ap,
                phase: Phase::SecurityCheck(Refresh::Reading(RegisterRead::Status)),
            },
            Step::<Outcome>::Do(MdmAP::read_of(MKE_MDM_STATUS)),
        ),
{
}

/// A step of the first read within the unlock procedure.
proof fn lemma_secured_first_read(unlock: Unlock, read: RegisterRead, event: Event)
    ensures
        stays_before_debug_request(unlock.spec_first_read(read, event)),
{
    let (after, step) = MdmAP::spec_read_mdm_ap_register(read, false, event);
    match step {
        Step::Finish(Ok(mdm_ap)) => {
            lemma_secured_reset_keep(unlock.holding(mdm_ap), ResetKeep::Idle, Event::Start);
        },
        _ => {},
    }
}

/// A step of asserting the reset within the unlock procedure.
proof fn lemma_secured_reset_keep(unlock: Unlock, progress: ResetKeep, event: Event)
    ensures
        stays_before_debug_request(unlock.spec_reset_keep(progress, event)),
{
    let (mdm_ap, after, step) = unlock.mdm_ap.spec_mdm_ap_reset_keep(progress, event);
    lemma_secured_idr(unlock.holding(mdm_ap), Access::Idle, Event::Start);
}

/// A step of reading the identification register within the unlock
/// procedure.
proof fn lemma_secured_idr(unlock: Unlock, access: Access, event: Event)
    ensures
        stays_before_debug_request(unlock.spec_idr(access, event)),
{
}

/// A step of the wait for the flash within the unlock procedure.
proof fn lemma_secured_flash_ready(unlock: Unlock, progress: FlashReady, event: Event)
    ensures
        stays_before_debug_request(unlock.spec_flash_ready(progress, event)),
{
    let (mdm_ap, after, step) = unlock.mdm_ap.spec_is_mdm_flash_ready(progress, event);
    lemma_security_check_begins(unlock.holding(mdm_ap));
}

/// A step of the security check, of which the word read so far has the
/// security bit 1.
proof fn lemma_secured_security_check(unlock: Unlock, refresh: Refresh, event: Event)
    requires
        match refresh {
            Refresh::Idle => true,
            Refresh::Reading(RegisterRead::Idle) => true,
            Refresh::Reading(RegisterRead::Status) => event matches Event::Value(status) ==> status
                & MKE_MDM_STATUS_SYSTEM_SECURITY_BIT != 0,
            Refresh::Reading(RegisterRead::Control { status }) => status
                & MKE_MDM_STATUS_SYSTEM_SECURITY_BIT != 0,
            Refresh::Reading(RegisterRead::Notice { status, .. }) => status
                & MKE_MDM_STATUS_SYSTEM_SECURITY_BIT != 0,
            Refresh::Notice { fresh } => fresh.status.security,
        },
    ensures
        stays_before_debug_request(unlock.spec_security_check(refresh, event)),
{
    match refresh {
        Refresh::Reading(RegisterRead::Control { status }) => {
            law_status_flags_follow_masks(status);
        },
        Refresh::Reading(RegisterRead::Notice { status, .. }) => {
            law_status_flags_follow_masks(status);
        },
        _ => {},
    }
}

proof fn lemma_secured_is_kept(answer: spec_fn(Seq<Request>, Request) -> Event)
    requires
        shows_secured(answer),
    ensures
        kept_by_steps(
            unlock_step(),
            answer,
            |unlock: Unlock, pending: Option<Request>| before_debug_request(unlock, pending),
            |request: Request| leaves_core_alone(request),
            |outcome: Outcome| outcome != Outcome::DebugModeOn,
        ),
{
    let next = unlock_step();
    assert forall|unlock: Unlock, pending: Option<Request>, before: Seq<Request>|
        before_debug_request(unlock, pending) implies stays_before_debug_request(
        #[trigger] stepped(next, answer, unlock, pending, before),
    ) by {
        lemma_secured_step(answer, unlock, pending, before);
    }
}

/// The unlock procedure does not touch a target that shows itself secured:
/// whatever else the probe answers, and whether accesses fail or not, the
/// procedure writes nothing but the reset request to the Control register,
/// does not open the memory of the target, and does not end with
/// [`Outcome::DebugModeOn`].
pub proof fn law_secured_target_is_left_alone(
    mdm_ap: MdmAP,
    answer: spec_fn(Seq<Request>, Request) -> Event,
    fuel: nat,
)
    requires
        shows_secured(answer),
    ensures
        run(
            unlock_step(),
            Unlock { mdm_ap, phase: Phase::Idle },
            Event::Start,
            answer,
            Seq::empty(),
            fuel,
        ) matches Some(end) ==> {
            &&& end.result != Outcome::DebugModeOn
            &&& forall|i: int| 0 <= i < end.trace.len() ==> leaves_core_alone(#[trigger] end.trace[i])
        },
{
    lemma_secured_is_kept(answer);
    lemma_run_keeps(
        unlock_step(),
        answer,
        |unlock: Unlock, pending: Option<Request>| before_debug_request(unlock, pending),
        |request: Request| leaves_core_alone(request),
        |outcome: Outcome| outcome != Outcome::DebugModeOn,
        Unlock { mdm_ap, phase: Phase::Idle },
        None,
        Seq::empty(),
        fuel,
    );
}

} // verus!
