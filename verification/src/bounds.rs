//! How many requests the procedures of this crate can still make: each of
//! them ends after a bounded number of requests, whatever the answers are.

use vstd::prelude::*;
use crate::exchange::{Access, Event, Request, Step};
use crate::mdm_ap::{
    FlashReady, MdmAP, Refresh, RegisterRead, ResetKeep, FLASH_POLL_LIMIT, RESET_POLL_LIMIT,
};
use crate::run::{flash_ready_step, lemma_run_ends, reset_keep_step, run, unlock_step};
use crate::unlock::{spec_debug_mode_on_an4835, Outcome, Phase, Unlock};

verus! {

/// 1 if a notice is made, 0 if not.
pub open spec fn notices(print: bool) -> nat {
    if print {
        1
    } else {
        0
    }
}

/// The requests that a register read can still make.
pub open spec fn read_left(read: RegisterRead, print: bool) -> nat {
    match read {
        RegisterRead::Idle => 2 + notices(print),
        RegisterRead::Status => 1 + notices(print),
        RegisterRead::Control { .. } => notices(print),
        RegisterRead::Notice { .. } => 0,
    }
}

/// The requests that a refresh can still make.
pub open spec fn refresh_left(refresh: Refresh, print: bool) -> nat {
    match refresh {
        Refresh::Idle => read_left(RegisterRead::Idle, print) + notices(print),
        Refresh::Reading(read) => read_left(read, print) + notices(print),
        Refresh::Notice { .. } => 0,
    }
}

/// The polls that are still made at most once `polls` of them were made:
/// the one that is going on, and those that the limit leaves after it.
pub open spec fn polls_left(polls: u8, limit: u8) -> nat {
    if polls < limit {
        (limit - polls) as nat
    } else {
        1
    }
}

/// The requests that asserting the reset can still make.
pub open spec fn reset_left(progress: ResetKeep) -> nat {
    match progress {
        ResetKeep::Idle => 2 + 3 * polls_left(0, RESET_POLL_LIMIT),
        ResetKeep::Requesting(Access::Idle) => 2 + 3 * polls_left(0, RESET_POLL_LIMIT),
        ResetKeep::Requesting(Access::Pending) => 1 + 3 * polls_left(0, RESET_POLL_LIMIT),
        ResetKeep::Waiting { polls } => 3 * polls_left(polls, RESET_POLL_LIMIT),
        ResetKeep::Polling { polls, refresh } => (refresh_left(refresh, false) + 3 * polls_left(
            polls,
            RESET_POLL_LIMIT,
        ) - 2) as nat,
        ResetKeep::Notice => 0,
    }
}

/// The requests that the wait for the flash can still make once the poll
/// that `polls` polls came before has read the registers.
pub open spec fn flash_left_after_poll(polls: u8) -> nat {
    3 + 2 * polls_left(polls, FLASH_POLL_LIMIT)
}

/// The requests that the wait for the flash can still make.
pub open spec fn flash_left(progress: FlashReady) -> nat {
    match progress {
        FlashReady::Idle => refresh_left(Refresh::Idle, true) + 3 + flash_left_after_poll(0),
        FlashReady::First(refresh) => refresh_left(refresh, true) + 3 + flash_left_after_poll(0),
        FlashReady::Notice => 2 + flash_left_after_poll(0),
        FlashReady::Polling { polls, refresh } => refresh_left(refresh, false) + flash_left_after_poll(
            polls,
        ),
        FlashReady::Ready => refresh_left(Refresh::Idle, true),
        FlashReady::Last { refresh, .. } => refresh_left(refresh, true),
    }
}

/// The requests that a single access can still make.
pub open spec fn access_left(access: Access) -> nat {
    match access {
        Access::Idle => 1,
        Access::Pending => 0,
    }
}

/// The requests that the unlock procedure can still make.
pub open spec fn unlock_left(phase: Phase) -> nat {
    match phase {
        Phase::Idle => 154,
        Phase::Attaching => 153,
        Phase::ResettingTarget => 152,
        Phase::OpeningInterface => 151,
        Phase::InitialisingInterface => 150,
        Phase::Banner => 149,
        Phase::FirstRead(read) => read_left(read, false) + 147,
        Phase::ResetKeep(progress) => reset_left(progress) + 85,
        Phase::Idr(access) => access_left(access) + 84,
        Phase::IdrNotice => 83,
        Phase::FlashReady(progress) => flash_left(progress) + 33,
        Phase::SecurityCheck(refresh) => refresh_left(refresh, false) + 31,
        Phase::SecuredNotice => 0,
        Phase::DebugRequest(access) => access_left(access) + 30,
        Phase::DebugRequestCheck(refresh) => refresh_left(refresh, true) + 26,
        Phase::OpeningMemory => 25,
        Phase::ReadingDhcsr => 24,
        Phase::WritingDhcsr { .. } => 23,
        Phase::Flushing { .. } => 22,
        Phase::Settling { .. } => 21,
        Phase::ReadingBack { .. } => 20,
        Phase::DhcsrNotice => 19,
        Phase::ClosingMemory => 18,
        Phase::AfterHalt(refresh) => refresh_left(refresh, true) + 14,
        Phase::ClearingReset(access) => access_left(access) + 13,
        Phase::ReleaseSettling => 12,
        Phase::AfterRelease(refresh) => refresh_left(refresh, true) + 8,
        Phase::ReopeningMemory => 7,
        Phase::ReadingDhcsrEnd => 6,
        Phase::DhcsrEndNotice => 5,
        Phase::ReclosingMemory => 4,
        Phase::LastRefresh(refresh) => refresh_left(refresh, true),
    }
}

proof fn lemma_read_left(read: RegisterRead, print: bool, event: Event)
    ensures
        ({
            let (after, step) = MdmAP::spec_read_mdm_ap_register(read, print, event);
            step is Do ==> read_left(after, print) < read_left(read, print)
        }),
{
}

proof fn lemma_refresh_left(mdm_ap: MdmAP, refresh: Refresh, print: bool, event: Event)
    ensures
        ({
            let (_, after, step) = mdm_ap.spec_refresh_mdm_ap(refresh, print, event);
            &&& step is Do ==> refresh_left(after, print) < refresh_left(refresh, print)
            &&& step is Finish ==> after == Refresh::Idle
        }),
{
}

proof fn lemma_compare_left(mdm_ap: MdmAP, refresh: Refresh, reason: &'static str, event: Event)
    ensures
        ({
            let (_, after, step) = mdm_ap.spec_refresh_and_compare_mdm_ap(refresh, reason, event);
            step is Do ==> refresh_left(after, true) < refresh_left(refresh, true)
        }),
{
}

proof fn lemma_reset_left(mdm_ap: MdmAP, progress: ResetKeep, event: Event)
    ensures
        ({
            let (_, after, step) = mdm_ap.spec_mdm_ap_reset_keep(progress, event);
            step is Do ==> reset_left(after) < reset_left(progress)
        }),
{
    match progress {
        ResetKeep::Waiting { polls } => {
            lemma_refresh_left(mdm_ap, Refresh::Idle, false, event);
        },
        ResetKeep::Polling { polls, refresh } => {
            lemma_refresh_left(mdm_ap, refresh, false, event);
        },
        _ => {},
    }
}

proof fn lemma_flash_left(mdm_ap: MdmAP, progress: FlashReady, event: Event)
    ensures
        ({
            let (_, after, step) = mdm_ap.spec_is_mdm_flash_ready(progress, event);
            step is Do ==> flash_left(after) < flash_left(progress)
        }),
{
    match progress {
        FlashReady::Idle => lemma_refresh_left(mdm_ap, Refresh::Idle, true, event),
        FlashReady::First(refresh) => lemma_refresh_left(mdm_ap, refresh, true, event),
        FlashReady::Notice => lemma_refresh_left(mdm_ap, Refresh::Idle, false, event),
        FlashReady::Polling { polls, refresh } => lemma_refresh_left(mdm_ap, refresh, false, event),
        FlashReady::Ready => lemma_refresh_left(mdm_ap, Refresh::Idle, true, event),
        FlashReady::Last { refresh, .. } => lemma_refresh_left(mdm_ap, refresh, true, event),
    }
}

/// Asserting the reset ends after at most 62 requests, whatever the
/// answers are.
pub proof fn law_reset_keep_ends(
    mdm_ap: MdmAP,
    answer: spec_fn(Seq<Request>, Request) -> Event,
    fuel: nat,
)
    requires
        fuel >= 62,
    ensures
        run(reset_keep_step(), (mdm_ap, ResetKeep::Idle), Event::Start, answer, Seq::empty(), fuel) matches Some(
            end,
        ) && end.trace.len() <= 62,
{
    let next = reset_keep_step();
    let left = |state: (MdmAP, ResetKeep)| reset_left(state.1);
    assert forall|state: (MdmAP, ResetKeep), event: Event| (#[trigger] next(state, event)).1 is Do implies left(
        next(state, event).0,
    ) < left(state) by {
        lemma_reset_left(state.0, state.1, event);
    }
    lemma_run_ends(next, left, (mdm_ap, ResetKeep::Idle), Event::Start, answer, Seq::empty(), fuel);
}

/// The wait for the flash ends after at most 50 requests, whatever the
/// answers are.
pub proof fn law_flash_ready_ends(
    mdm_ap: MdmAP,
    answer: spec_fn(Seq<Request>, Request) -> Event,
    fuel: nat,
)
    requires
        fuel >= 50,
    ensures
        run(flash_ready_step(), (mdm_ap, FlashReady::Idle), Event::Start, answer, Seq::empty(), fuel) matches Some(
            end,
        ) && end.trace.len() <= 50,
{
    let next = flash_ready_step();
    let left = |state: (MdmAP, FlashReady)| flash_left(state.1);
    assert forall|state: (MdmAP, FlashReady), event: Event| (#[trigger] next(state, event)).1 is Do implies left(
        next(state, event).0,
    ) < left(state) by {
        lemma_flash_left(state.0, state.1, event);
    }
    lemma_run_ends(next, left, (mdm_ap, FlashReady::Idle), Event::Start, answer, Seq::empty(), fuel);
}

/// The step asks for nothing, or leaves fewer requests than `before`.
pub open spec fn unlock_decreases(before: nat, end: (Unlock, Step<Outcome>)) -> bool {
    end.1 is Do ==> unlock_left(end.0.phase) < before
}

proof fn lemma_left_first_read(unlock: Unlock, read: RegisterRead, event: Event)
    ensures
        unlock_decreases(read_left(read, false) + 147, unlock.spec_first_read(read, event)),
{
    lemma_read_left(read, false, event);
    let (_, step) = MdmAP::spec_read_mdm_ap_register(read, false, event);
    match step {
        Step::Finish(Ok(mdm_ap)) => {
            lemma_left_reset_keep(unlock.holding(mdm_ap), ResetKeep::Idle, Event::Start);
        },
        _ => {},
    }
}

proof fn lemma_left_reset_keep(unlock: Unlock, progress: ResetKeep, event: Event)
    ensures
        unlock_decreases(reset_left(progress) + 85, unlock.spec_reset_keep(progress, event)),
{
    lemma_reset_left(unlock.mdm_ap, progress, event);
    let (mdm_ap, _, _) = unlock.mdm_ap.spec_mdm_ap_reset_keep(progress, event);
    lemma_left_idr(unlock.holding(mdm_ap), Access::Idle, Event::Start);
}

proof fn lemma_left_idr(unlock: Unlock, access: Access, event: Event)
    ensures
        unlock_decreases(access_left(access) + 84, unlock.spec_idr(access, event)),
{
}

proof fn lemma_left_flash_ready(unlock: Unlock, progress: FlashReady, event: Event)
    ensures
        unlock_decreases(flash_left(progress) + 33, unlock.spec_flash_ready(progress, event)),
{
    lemma_flash_left(unlock.mdm_ap, progress, event);
    let (mdm_ap, _, _) = unlock.mdm_ap.spec_is_mdm_flash_ready(progress, event);
    lemma_left_security_check(unlock.holding(mdm_ap), Refresh::Idle, Event::Start);
}

proof fn lemma_left_security_check(unlock: Unlock, refresh: Refresh, event: Event)
    ensures
        unlock_decreases(refresh_left(refresh, false) + 31, unlock.spec_security_check(refresh, event)),
{
    lemma_refresh_left(unlock.mdm_ap, refresh, false, event);
    let (mdm_ap, _, _) = unlock.mdm_ap.spec_refresh_mdm_ap(refresh, false, event);
    lemma_left_debug_request(unlock.holding(mdm_ap), Access::Idle, Event::Start);
}

proof fn lemma_left_debug_request(unlock: Unlock, access: Access, event: Event)
    ensures
        unlock_decreases(access_left(access) + 30, unlock.spec_debug_request(access, event)),
{
    lemma_left_debug_request_check(unlock, Refresh::Idle, Event::Start);
}

proof fn lemma_left_debug_request_check(unlock: Unlock, refresh: Refresh, event: Event)
    ensures
        unlock_decreases(
            refresh_left(refresh, true) + 26,
            unlock.spec_debug_request_check(refresh, event),
        ),
{
    lemma_compare_left(unlock.mdm_ap, refresh, crate::unlock::DBG_REQ_REASON, event);
}

proof fn lemma_left_after_halt(unlock: Unlock, refresh: Refresh, event: Event)
    ensures
        unlock_decreases(refresh_left(refresh, true) + 14, unlock.spec_after_halt(refresh, event)),
{
    lemma_refresh_left(unlock.mdm_ap, refresh, true, event);
    let (mdm_ap, _, _) = unlock.mdm_ap.spec_refresh_mdm_ap(refresh, true, event);
    lemma_left_clearing_reset(unlock.holding(mdm_ap), Access::Idle, Event::Start);
}

proof fn lemma_left_clearing_reset(unlock: Unlock, access: Access, event: Event)
    ensures
        unlock_decreases(access_left(access) + 13, unlock.spec_clearing_reset(access, event)),
{
}

proof fn lemma_left_after_release(unlock: Unlock, refresh: Refresh, event: Event)
    ensures
        unlock_decreases(refresh_left(refresh, true) + 8, unlock.spec_after_release(refresh, event)),
{
    lemma_refresh_left(unlock.mdm_ap, refresh, true, event);
}

proof fn lemma_left_last_refresh(unlock: Unlock, refresh: Refresh, event: Event)
    ensures
        unlock_decreases(refresh_left(refresh, true), unlock.spec_last_refresh(refresh, event)),
{
    lemma_refresh_left(unlock.mdm_ap, refresh, true, event);
}

proof fn lemma_unlock_left(unlock: Unlock, event: Event)
    ensures
        unlock_decreases(unlock_left(unlock.phase), spec_debug_mode_on_an4835(unlock, event)),
{
    match unlock.phase {
        Phase::Banner => lemma_left_first_read(unlock, RegisterRead::Idle, Event::Start),
        Phase::FirstRead(read) => lemma_left_first_read(unlock, read, event),
        Phase::ResetKeep(progress) => lemma_left_reset_keep(unlock, progress, event),
        Phase::Idr(access) => lemma_left_idr(unlock, access, event),
        Phase::IdrNotice => lemma_left_flash_ready(unlock, FlashReady::Idle, Event::Start),
        Phase::FlashReady(progress) => lemma_left_flash_ready(unlock, progress, event),
        Phase::SecurityCheck(refresh) => lemma_left_security_check(unlock, refresh, event),
        Phase::DebugRequest(access) => lemma_left_debug_request(unlock, access, event),
        Phase::DebugRequestCheck(refresh) => lemma_left_debug_request_check(unlock, refresh, event),
        Phase::ClosingMemory => lemma_left_after_halt(unlock, Refresh::Idle, Event::Start),
        Phase::AfterHalt(refresh) => lemma_left_after_halt(unlock, refresh, event),
        Phase::ClearingReset(access) => lemma_left_clearing_reset(unlock, access, event),
        Phase::ReleaseSettling => lemma_left_after_release(unlock, Refresh::Idle, Event::Start),
        Phase::AfterRelease(refresh) => lemma_left_after_release(unlock, refresh, event),
        Phase::ReclosingMemory => lemma_left_last_refresh(unlock, Refresh::Idle, Event::Start),
        Phase::LastRefresh(refresh) => lemma_left_last_refresh(unlock, refresh, event),
        _ => {},
    }
}

/// The unlock procedure ends after at most 154 requests, whatever the
/// answers are: no wait of it goes on for ever.
pub proof fn law_unlock_ends(mdm_ap: MdmAP, answer: spec_fn(Seq<Request>, Request) -> Event, fuel: nat)
    requires
        fuel >= 154,
    ensures
        run(
            unlock_step(),
            Unlock { mdm_ap, phase: Phase::Idle },
            Event::Start,
            answer,
            Seq::empty(),
            fuel,
        ) matches Some(end) && end.trace.len() <= 154,
{
    let next = unlock_step();
    let left = |unlock: Unlock| unlock_left(unlock.phase);
    assert forall|unlock: Unlock, event: Event| (#[trigger] next(unlock, event)).1 is Do implies left(
        next(unlock, event).0,
    ) < left(unlock) by {
        lemma_unlock_left(unlock, event);
    }
    lemma_run_ends(
        next,
        left,
        Unlock { mdm_ap, phase: Phase::Idle },
        Event::Start,
        answer,
        Seq::empty(),
        fuel,
    );
}

} // verus!
