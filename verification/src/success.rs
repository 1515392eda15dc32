//! What the unlock procedure achieves: against a target that is in reset,
//! ready and not secured, through a probe that never fails, it ends with
//! the target in debug mode.

use vstd::prelude::*;
use crate::bounds::law_unlock_ends;
use crate::exchange::{Access, Event, Fault, Request, Step};
use crate::mdm_ap::{FlashReady, MdmAP, Refresh, RegisterRead, ResetKeep};
use crate::order::runs_session;
use crate::registers::{
    law_status_flags_follow_masks, MKE_MDM_STATUS, MKE_MDM_STATUS_FLASH_READY_BIT,
    MKE_MDM_STATUS_SYSTEM_RESET_BIT, MKE_MDM_STATUS_SYSTEM_SECURITY_BIT,
};
use crate::run::{event_after, kept_by_steps, lemma_run_keeps, run, stepped, unlock_step};
use crate::unlock::{spec_debug_mode_on_an4835, Outcome, Phase, Unlock, DBG_REQ_REASON};

verus! {

/// The Status word says that the system is in reset, the flash ready and
/// the device not secured.
pub open spec fn lets_through(status: u32) -> bool {
    &&& status & MKE_MDM_STATUS_SYSTEM_RESET_BIT == 0
    &&& status & MKE_MDM_STATUS_FLASH_READY_BIT != 0
    &&& status & MKE_MDM_STATUS_SYSTEM_SECURITY_BIT == 0
}

/// Whether `request` is a read, which is answered with a word.
pub open spec fn reads(request: Request) -> bool {
    request is ReadAp || request is ReadWord
}

/// No access fails, and every read of the Status register gives a word
/// that lets the procedure through.
pub open spec fn answers_well(answer: spec_fn(Seq<Request>, Request) -> Event) -> bool {
    forall|before: Seq<Request>, request: Request|
        match #[trigger] answer(before, request) {
            Event::Value(word) => reads(request) && (request == MdmAP::read_of(MKE_MDM_STATUS)
                ==> lets_through(word)),
            Event::Completed => !reads(request),
            _ => false,
        }
}

/// What a state waits for.
pub enum Awaited {
    /// Nothing is pending: the next step begins whatever the event is.
    Nothing,
    /// An access that gives no word.
    Done,
    /// A read.
    Word,
    /// The read of the Status register.
    Status,
}

/// Whether `request` is of the kind that `awaited` stands for.
pub open spec fn asks_for(awaited: Awaited, request: Request) -> bool {
    match awaited {
        Awaited::Nothing => true,
        Awaited::Done => !reads(request),
        Awaited::Word => reads(request),
        Awaited::Status => request == MdmAP::read_of(MKE_MDM_STATUS),
    }
}

/// Whether `event` is what a state that waits for `awaited` is let through
/// by.
pub open spec fn lets_on(awaited: Awaited, event: Event) -> bool {
    match awaited {
        Awaited::Nothing => true,
        Awaited::Done => event == Event::Completed,
        Awaited::Word => event is Value,
        Awaited::Status => event matches Event::Value(status) && lets_through(status),
    }
}

/// What a register read waits for.
pub open spec fn read_awaits(read: RegisterRead) -> Awaited {
    match read {
        RegisterRead::Idle => Awaited::Nothing,
        RegisterRead::Status => Awaited::Status,
        RegisterRead::Control { .. } => Awaited::Word,
        RegisterRead::Notice { .. } => Awaited::Done,
    }
}

/// The Status word that the register read holds lets the procedure
/// through.
pub open spec fn read_sound(read: RegisterRead) -> bool {
    match read {
        RegisterRead::Control { status } => lets_through(status),
        RegisterRead::Notice { status, .. } => lets_through(status),
        _ => true,
    }
}

/// What a refresh waits for.
pub open spec fn refresh_awaits(refresh: Refresh) -> Awaited {
    match refresh {
        Refresh::Idle => Awaited::Nothing,
        Refresh::Reading(read) => read_awaits(read),
        Refresh::Notice { .. } => Awaited::Done,
    }
}

/// The Status word that the refresh holds lets the procedure through, and
/// the flags of the snapshot that waits to replace the old one are those
/// of its word.
pub open spec fn refresh_sound(refresh: Refresh) -> bool {
    match refresh {
        Refresh::Idle => true,
        Refresh::Reading(read) => read_sound(read),
        Refresh::Notice { fresh } => fresh.status.wf() && lets_through(fresh.status.value),
    }
}

/// What a single access waits for, where `read` says whether it is a read.
pub open spec fn access_awaits(access: Access, read: bool) -> Awaited {
    match access {
        Access::Idle => Awaited::Nothing,
        Access::Pending => if read {
            Awaited::Word
        } else {
            Awaited::Done
        },
    }
}

/// What asserting the reset waits for.
pub open spec fn reset_awaits(progress: ResetKeep) -> Awaited {
    match progress {
        ResetKeep::Idle => Awaited::Nothing,
        ResetKeep::Requesting(access) => access_awaits(access, false),
        ResetKeep::Waiting { .. } => Awaited::Done,
        ResetKeep::Polling { refresh, .. } => refresh_awaits(refresh),
        ResetKeep::Notice => Awaited::Done,
    }
}

/// The Status word that the poll holds lets the procedure through.
pub open spec fn reset_sound(progress: ResetKeep) -> bool {
    match progress {
        ResetKeep::Polling { refresh, .. } => refresh_sound(refresh),
        _ => true,
    }
}

/// What the wait for the flash waits for.
pub open spec fn flash_awaits(progress: FlashReady) -> Awaited {
    match progress {
        FlashReady::Idle => Awaited::Nothing,
        FlashReady::First(refresh) => refresh_awaits(refresh),
        FlashReady::Notice => Awaited::Done,
        FlashReady::Polling { refresh, .. } => refresh_awaits(refresh),
        FlashReady::Ready => Awaited::Done,
        FlashReady::Last { refresh, .. } => refresh_awaits(refresh),
    }
}

/// The Status word that the wait for the flash holds lets the procedure
/// through, and if the polls are over, they have found the flash ready.
pub open spec fn flash_sound(progress: FlashReady) -> bool {
    match progress {
        FlashReady::First(refresh) => refresh_sound(refresh),
        FlashReady::Polling { refresh, .. } => refresh_sound(refresh),
        FlashReady::Last { ready, refresh } => ready && refresh_sound(refresh),
        _ => true,
    }
}

/// What the unlock procedure waits for.
pub open spec fn unlock_awaits(phase: Phase) -> Awaited {
    match phase {
        Phase::Idle => Awaited::Nothing,
        Phase::FirstRead(read) => read_awaits(read),
        Phase::ResetKeep(progress) => reset_awaits(progress),
        Phase::Idr(access) => access_awaits(access, true),
        Phase::FlashReady(progress) => flash_awaits(progress),
        Phase::SecurityCheck(refresh) => refresh_awaits(refresh),
        Phase::DebugRequest(access) => access_awaits(access, false),
        Phase::DebugRequestCheck(refresh) => refresh_awaits(refresh),
        Phase::ReadingDhcsr => Awaited::Word,
        Phase::ReadingBack { .. } => Awaited::Word,
        Phase::AfterHalt(refresh) => refresh_awaits(refresh),
        Phase::ClearingReset(access) => access_awaits(access, false),
        Phase::AfterRelease(refresh) => refresh_awaits(refresh),
        Phase::ReadingDhcsrEnd => Awaited::Word,
        Phase::LastRefresh(refresh) => refresh_awaits(refresh),
        _ => Awaited::Done,
    }
}

/// The Status words that the unlock procedure holds let it through, and it
/// is not about to tell that the device is secured.
pub open spec fn unlock_sound(phase: Phase) -> bool {
    match phase {
        Phase::FirstRead(read) => read_sound(read),
        Phase::ResetKeep(progress) => reset_sound(progress),
        Phase::FlashReady(progress) => flash_sound(progress),
        Phase::SecurityCheck(refresh) => refresh_sound(refresh),
        Phase::SecuredNotice => false,
        Phase::DebugRequestCheck(refresh) => refresh_sound(refresh),
        Phase::AfterHalt(refresh) => refresh_sound(refresh),
        Phase::AfterRelease(refresh) => refresh_sound(refresh),
        Phase::LastRefresh(refresh) => refresh_sound(refresh),
        _ => true,
    }
}

/// The state is sound and waits for what is pending.
pub open spec fn on_the_way(unlock: Unlock, pending: Option<Request>) -> bool {
    &&& unlock_sound(unlock.phase)
    &&& match pending {
        Some(request) => asks_for(unlock_awaits(unlock.phase), request),
        None => unlock_awaits(unlock.phase) is Nothing,
    }
}

/// The step goes on towards debug mode: it asks for what the state that it
/// leads to waits for, and that state is sound; or it ends the procedure
/// with [`Outcome::DebugModeOn`].
pub open spec fn goes_on(end: (Unlock, Step<Outcome>)) -> bool {
    match end.1 {
        Step::Do(request) => on_the_way(end.0, Some(request)),
        Step::Finish(outcome) => outcome == Outcome::DebugModeOn,
    }
}

proof fn lemma_read_goes_on(read: RegisterRead, print: bool, event: Event)
    requires
        read_sound(read),
        lets_on(read_awaits(read), event),
    ensures
        ({
            let (after, step) = MdmAP::spec_read_mdm_ap_register(read, print, event);
            match step {
                Step::Do(request) => asks_for(read_awaits(after), request) && read_sound(after),
                Step::Finish(result) => result matches Ok(fresh) && refresh_sound(Refresh::Notice { fresh }),
            }
        }),
{
}

proof fn lemma_refresh_goes_on(mdm_ap: MdmAP, refresh: Refresh, print: bool, event: Event)
    requires
        refresh_sound(refresh),
        lets_on(refresh_awaits(refresh), event),
    ensures
        ({
            let (held, after, step) = mdm_ap.spec_refresh_mdm_ap(refresh, print, event);
            match step {
                Step::Do(request) => asks_for(refresh_awaits(after), request) && refresh_sound(after),
                Step::Finish(result) => result == Ok::<MdmAP, Fault>(held) && refresh_sound(
                    Refresh::Notice { fresh: held },
                ),
            }
        }),
{
    match refresh {
        Refresh::Idle => lemma_read_goes_on(RegisterRead::Idle, print, event),
        Refresh::Reading(read) => lemma_read_goes_on(read, print, event),
        _ => {},
    }
}

proof fn lemma_compare_goes_on(mdm_ap: MdmAP, refresh: Refresh, reason: &'static str, event: Event)
    requires
        refresh_sound(refresh),
        lets_on(refresh_awaits(refresh), event),
    ensures
        ({
            let (held, after, step) = mdm_ap.spec_refresh_and_compare_mdm_ap(refresh, reason, event);
            match step {
                Step::Do(request) => asks_for(refresh_awaits(after), request) && refresh_sound(after),
                Step::Finish(result) => result is Ok,
            }
        }),
{
    match refresh {
        Refresh::Idle => lemma_read_goes_on(RegisterRead::Idle, true, event),
        Refresh::Reading(read) => lemma_read_goes_on(read, true, event),
        _ => {},
    }
}

proof fn lemma_reset_goes_on(mdm_ap: MdmAP, progress: ResetKeep, event: Event)
    requires
        reset_sound(progress),
        lets_on(reset_awaits(progress), event),
    ensures
        ({
            let (_, after, step) = mdm_ap.spec_mdm_ap_reset_keep(progress, event);
            match step {
                Step::Do(request) => asks_for(reset_awaits(after), request) && reset_sound(after),
                Step::Finish(result) => result is Ok,
            }
        }),
{
    match progress {
        ResetKeep::Waiting { .. } => lemma_refresh_goes_on(mdm_ap, Refresh::Idle, false, event),
        ResetKeep::Polling { refresh, .. } => lemma_refresh_goes_on(mdm_ap, refresh, false, event),
        _ => {},
    }
}

proof fn lemma_flash_goes_on(mdm_ap: MdmAP, progress: FlashReady, event: Event)
    requires
        flash_sound(progress),
        lets_on(flash_awaits(progress), event),
    ensures
        ({
            let (_, after, step) = mdm_ap.spec_is_mdm_flash_ready(progress, event);
            match step {
                Step::Do(request) => asks_for(flash_awaits(after), request) && flash_sound(after),
                Step::Finish(result) => result is Ok,
            }
        }),
{
    match progress {
        FlashReady::Idle => lemma_refresh_goes_on(mdm_ap, Refresh::Idle, true, event),
        FlashReady::First(refresh) => lemma_refresh_goes_on(mdm_ap, refresh, true, event),
        FlashReady::Notice => lemma_refresh_goes_on(mdm_ap, Refresh::Idle, false, event),
        FlashReady::Polling { refresh, .. } => lemma_refresh_goes_on(mdm_ap, refresh, false, event),
        FlashReady::Ready => lemma_refresh_goes_on(mdm_ap, Refresh::Idle, true, event),
        FlashReady::Last { refresh, .. } => lemma_refresh_goes_on(mdm_ap, refresh, true, event),
    }
}

proof fn lemma_first_read_goes_on(unlock: Unlock, read: RegisterRead, event: Event)
    requires
        read_sound(read),
        lets_on(read_awaits(read), event),
    ensures
        goes_on(unlock.spec_first_read(read, event)),
{
    lemma_read_goes_on(read, false, event);
    let (_, step) = MdmAP::spec_read_mdm_ap_register(read, false, event);
    match step {
        Step::Finish(Ok(mdm_ap)) => {
            lemma_reset_keep_goes_on(unlock.holding(mdm_ap), ResetKeep::Idle, Event::Start);
        },
        _ => {},
    }
}

proof fn lemma_reset_keep_goes_on(unlock: Unlock, progress: ResetKeep, event: Event)
    requires
        reset_sound(progress),
        lets_on(reset_awaits(progress), event),
    ensures
        goes_on(unlock.spec_reset_keep(progress, event)),
{
    lemma_reset_goes_on(unlock.mdm_ap, progress, event);
    let (mdm_ap, _, _) = unlock.mdm_ap.spec_mdm_ap_reset_keep(progress, event);
    lemma_idr_goes_on(unlock.holding(mdm_ap), Access::Idle, Event::Start);
}

proof fn lemma_idr_goes_on(unlock: Unlock, access: Access, event: Event)
    requires
        lets_on(access_awaits(access, true), event),
    ensures
        goes_on(unlock.spec_idr(access, event)),
{
}

proof fn lemma_flash_ready_goes_on(unlock: Unlock, progress: FlashReady, event: Event)
    requires
        flash_sound(progress),
        lets_on(flash_awaits(progress), event),
    ensures
        goes_on(unlock.spec_flash_ready(progress, event)),
{
    lemma_flash_goes_on(unlock.mdm_ap, progress, event);
    let (mdm_ap, _, _) = unlock.mdm_ap.spec_is_mdm_flash_ready(progress, event);
    lemma_security_check_goes_on(unlock.holding(mdm_ap), Refresh::Idle, Event::Start);
}

proof fn lemma_security_check_goes_on(unlock: Unlock, refresh: Refresh, event: Event)
    requires
        refresh_sound(refresh),
        lets_on(refresh_awaits(refresh), event),
    ensures
        goes_on(unlock.spec_security_check(refresh, event)),
{
    lemma_refresh_goes_on(unlock.mdm_ap, refresh, false, event);
    let (mdm_ap, _, step) = unlock.mdm_ap.spec_refresh_mdm_ap(refresh, false, event);
    if step is Finish {
        law_status_flags_follow_masks(mdm_ap.status.value);
    }
    lemma_debug_request_goes_on(unlock.holding(mdm_ap), Access::Idle, Event::Start);
}

proof fn lemma_debug_request_goes_on(unlock: Unlock, access: Access, event: Event)
    requires
        lets_on(access_awaits(access, false), event),
    ensures
        goes_on(unlock.spec_debug_request(access, event)),
{
    lemma_debug_request_check_goes_on(unlock, Refresh::Idle, Event::Start);
}

proof fn lemma_debug_request_check_goes_on(unlock: Unlock, refresh: Refresh, event: Event)
    requires
        refresh_sound(refresh),
        lets_on(refresh_awaits(refresh), event),
    ensures
        goes_on(unlock.spec_debug_request_check(refresh, event)),
{
    lemma_compare_goes_on(unlock.mdm_ap, refresh, DBG_REQ_REASON, event);
}

proof fn lemma_after_halt_goes_on(unlock: Unlock, refresh: Refresh, event: Event)
    requires
        refresh_sound(refresh),
        lets_on(refresh_awaits(refresh), event),
    ensures
        goes_on(unlock.spec_after_halt(refresh, event)),
{
    lemma_refresh_goes_on(unlock.mdm_ap, refresh, true, event);
    let (mdm_ap, _, _) = unlock.mdm_ap.spec_refresh_mdm_ap(refresh, true, event);
    lemma_clearing_reset_goes_on(unlock.holding(mdm_ap), Access::Idle, Event::Start);
}

proof fn lemma_clearing_reset_goes_on(unlock: Unlock, access: Access, event: Event)
    requires
        lets_on(access_awaits(access, false), event),
    ensures
        goes_on(unlock.spec_clearing_reset(access, event)),
{
}

proof fn lemma_after_release_goes_on(unlock: Unlock, refresh: Refresh, event: Event)
    requires
        refresh_sound(refresh),
        lets_on(refresh_awaits(refresh), event),
    ensures
        goes_on(unlock.spec_after_release(refresh, event)),
{
    lemma_refresh_goes_on(unlock.mdm_ap, refresh, true, event);
}

proof fn lemma_last_refresh_goes_on(unlock: Unlock, refresh: Refresh, event: Event)
    requires
        refresh_sound(refresh),
        lets_on(refresh_awaits(refresh), event),
    ensures
        goes_on(unlock.spec_last_refresh(refresh, event)),
{
    lemma_refresh_goes_on(unlock.mdm_ap, refresh, true, event);
}

/// One step from a sound state in which a procedure of the session runs or
/// begins, on an event that lets it on.
proof fn lemma_session_goes_on(unlock: Unlock, event: Event)
    requires
        runs_session(unlock.phase),
        unlock_sound(unlock.phase),
        lets_on(unlock_awaits(unlock.phase), event),
    ensures
        goes_on(spec_debug_mode_on_an4835(unlock, event)),
{
    match unlock.phase {
        Phase::Banner => lemma_first_read_goes_on(unlock, RegisterRead::Idle, Event::Start),
        Phase::FirstRead(read) => lemma_first_read_goes_on(unlock, read, event),
        Phase::ResetKeep(progress) => lemma_reset_keep_goes_on(unlock, progress, event),
        Phase::Idr(access) => lemma_idr_goes_on(unlock, access, event),
        Phase::IdrNotice => lemma_flash_ready_goes_on(unlock, FlashReady::Idle, Event::Start),
        Phase::FlashReady(progress) => lemma_flash_ready_goes_on(unlock, progress, event),
        Phase::SecurityCheck(refresh) => lemma_security_check_goes_on(unlock, refresh, event),
        Phase::DebugRequest(access) => lemma_debug_request_goes_on(unlock, access, event),
        Phase::DebugRequestCheck(refresh) => lemma_debug_request_check_goes_on(unlock, refresh, event),
        Phase::ClosingMemory => lemma_after_halt_goes_on(unlock, Refresh::Idle, Event::Start),
        Phase::AfterHalt(refresh) => lemma_after_halt_goes_on(unlock, refresh, event),
        Phase::ClearingReset(access) => lemma_clearing_reset_goes_on(unlock, access, event),
        Phase::ReleaseSettling => lemma_after_release_goes_on(unlock, Refresh::Idle, Event::Start),
        Phase::AfterRelease(refresh) => lemma_after_release_goes_on(unlock, refresh, event),
        Phase::ReclosingMemory => lemma_last_refresh_goes_on(unlock, Refresh::Idle, Event::Start),
        Phase::LastRefresh(refresh) => lemma_last_refresh_goes_on(unlock, refresh, event),
        _ => {},
    }
}

/// One step from a sound state in which the procedure itself asks, on an
/// event that lets it on.
proof fn lemma_plain_goes_on(unlock: Unlock, event: Event)
    requires
        !runs_session(unlock.phase),
        unlock_sound(unlock.phase),
        lets_on(unlock_awaits(unlock.phase), event),
    ensures
        goes_on(spec_debug_mode_on_an4835(unlock, event)),
{
}

/// One step from a sound state, on an event that lets it on.
proof fn lemma_step_goes_on(unlock: Unlock, event: Event)
    requires
        unlock_sound(unlock.phase),
        lets_on(unlock_awaits(unlock.phase), event),
    ensures
        goes_on(spec_debug_mode_on_an4835(unlock, event)),
{
    if runs_session(unlock.phase) {
        lemma_session_goes_on(unlock, event);
    } else {
        lemma_plain_goes_on(unlock, event);
    }
}

/// Through a probe that never fails, a target that is in reset, ready and
/// not secured whenever its Status register is read is brought into debug
/// mode: the unlock procedure ends, and it ends with
/// [`Outcome::DebugModeOn`].
pub proof fn law_ready_target_reaches_debug_mode(
    mdm_ap: MdmAP,
    answer: spec_fn(Seq<Request>, Request) -> Event,
    fuel: nat,
)
    requires
        answers_well(answer),
        fuel >= 154,
    ensures
        run(
            unlock_step(),
            Unlock { mdm_ap, phase: Phase::Idle },
            Event::Start,
            answer,
            Seq::empty(),
            fuel,
        ) matches Some(end) && end.result == Outcome::DebugModeOn,
{
    let next = unlock_step();
    let holds = |unlock: Unlock, pending: Option<Request>| on_the_way(unlock, pending);
    let allowed = |request: Request| true;
    let possible = |outcome: Outcome| outcome == Outcome::DebugModeOn;
    assert forall|unlock: Unlock, pending: Option<Request>, before: Seq<Request>|
        on_the_way(unlock, pending) implies match (#[trigger] stepped(next, answer, unlock, pending, before)).1 {
        Step::Do(request) => on_the_way(stepped(next, answer, unlock, pending, before).0, Some(request)),
        Step::Finish(outcome) => outcome == Outcome::DebugModeOn,
    } by {
        lemma_step_goes_on(unlock, event_after(answer, pending, before));
    }
    lemma_run_keeps(
        next,
        answer,
        holds,
        allowed,
        possible,
        Unlock { mdm_ap, phase: Phase::Idle },
        None,
        Seq::empty(),
        fuel,
    );
    law_unlock_ends(mdm_ap, answer, fuel);
}

} // verus!
