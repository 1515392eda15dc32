//! How often the two waits of the session read the registers: what asserting
//! the reset and waiting for the flash do when they are run against a
//! simulated target that lets them wait for a given number of polls.

use vstd::prelude::*;
use crate::exchange::{Event, Fault, Notice, Request};
use crate::mdm_ap::{
    FlashReady, MdmAP, Refresh, RegisterRead, ResetKeep, FLASH_POLL_LIMIT, RESET_POLL_INTERVAL_MS,
    RESET_POLL_LIMIT,
};
use crate::registers::{
    MKE_MDM_CONTROL, MKE_MDM_CONTROL_SYS_RESET_BIT, MKE_MDM_STATUS, MKE_MDM_STATUS_FLASH_READY_BIT,
    MKE_MDM_STATUS_SYSTEM_RESET_BIT,
};
use crate::run::{flash_ready_step, occurrences, reset_keep_step, run, End, Target};

verus! {

/// How often `trace` reads the Status register, and how often the Control
/// register.
pub open spec fn refreshes(trace: Seq<Request>) -> (nat, nat) {
    (
        occurrences(trace, MdmAP::read_of(MKE_MDM_STATUS)),
        occurrences(trace, MdmAP::read_of(MKE_MDM_CONTROL)),
    )
}

/// 1 if the two requests are the same, 0 if not.
pub open spec fn one_if_same(made: Request, counted: Request) -> nat {
    if made == counted {
        1
    } else {
        0
    }
}

proof fn lemma_refreshes_push(trace: Seq<Request>, made: Request)
    ensures
        refreshes(trace.push(made)) == (
            refreshes(trace).0 + one_if_same(made, MdmAP::read_of(MKE_MDM_STATUS)),
            refreshes(trace).1 + one_if_same(made, MdmAP::read_of(MKE_MDM_CONTROL)),
        ),
{
    assert(trace.push(made).drop_last() =~= trace);
}

/// Asserting the system reset from the snapshot `mdm_ap`, run against
/// `target` from the beginning. The fuel suffices for every run of it.
pub open spec fn reset_keep_run(mdm_ap: MdmAP, target: Target) -> Option<
    End<(MdmAP, ResetKeep), Result<(), Fault>>,
> {
    run(reset_keep_step(), (mdm_ap, ResetKeep::Idle), Event::Start, target.answers(), Seq::empty(), 62)
}

/// The reset bit of the Status register reads 0 in the read that `n` reads
/// came before, and 1 in every earlier one.
pub open spec fn enters_reset_at(target: Target, n: nat) -> bool {
    &&& (target.status)(n) & MKE_MDM_STATUS_SYSTEM_RESET_BIT == 0
    &&& forall|k: nat| k < n ==> #[trigger] (target.status)(k) & MKE_MDM_STATUS_SYSTEM_RESET_BIT != 0
}

/// The reset bit of the Status register reads 1 in each of the first
/// [`RESET_POLL_LIMIT`] reads.
pub open spec fn stays_out_of_reset(target: Target) -> bool {
    forall|k: nat|
        k < RESET_POLL_LIMIT ==> #[trigger] (target.status)(k) & MKE_MDM_STATUS_SYSTEM_RESET_BIT != 0
}

/// A run of the reset from the wait before the poll that `k` polls came
/// before, which is the poll that finds the system in reset or one before
/// it.
proof fn lemma_reset_polls(mdm_ap: MdmAP, target: Target, trace: Seq<Request>, k: nat, n: nat, fuel: nat)
    requires
        k <= n < RESET_POLL_LIMIT,
        enters_reset_at(target, n),
        refreshes(trace) == (k, k),
        fuel >= 3 * (n - k) + 3,
    ensures
        ({
            &&& run(
                reset_keep_step(),
                (mdm_ap, ResetKeep::Waiting { polls: k as u8 }),
                Event::Completed,
                target.answers(),
                trace,
                fuel,
            ) matches Some(end)
            &&& end.result == Ok::<(), Fault>(())
            &&& end.state == (MdmAP::decoded((target.status)(n), (target.control)(n)), ResetKeep::Idle)
            &&& refreshes(end.trace) == (n + 1, n + 1)
        }),
    decreases n - k,
{
    let fresh = MdmAP::decoded((target.status)(k), (target.control)(k));
    let read = trace.push(MdmAP::read_of(MKE_MDM_STATUS)).push(MdmAP::read_of(MKE_MDM_CONTROL));
    lemma_refreshes_push(trace, MdmAP::read_of(MKE_MDM_STATUS));
    lemma_refreshes_push(trace.push(MdmAP::read_of(MKE_MDM_STATUS)), MdmAP::read_of(MKE_MDM_CONTROL));
    reveal_with_fuel(run, 4);
    if k == n {
        lemma_refreshes_push(read, Request::Report(Notice::ResetAsserted));
    } else {
        let waiting = read.push(Request::Sleep { millis: RESET_POLL_INTERVAL_MS });
        lemma_refreshes_push(read, Request::Sleep { millis: RESET_POLL_INTERVAL_MS });
        assert(run(
            reset_keep_step(),
            (mdm_ap, ResetKeep::Waiting { polls: k as u8 }),
            Event::Completed,
            target.answers(),
            trace,
            fuel,
        ) == run(
            reset_keep_step(),
            (fresh, ResetKeep::Waiting { polls: (k + 1) as u8 }),
            Event::Completed,
            target.answers(),
            waiting,
            (fuel - 3) as nat,
        ));
        lemma_reset_polls(fresh, target, waiting, k + 1, n, (fuel - 3) as nat);
    }
}

/// A run of the reset from the wait before the poll that `k` polls came
/// before, where no poll finds the system in reset.
proof fn lemma_reset_polls_exhausted(mdm_ap: MdmAP, target: Target, trace: Seq<Request>, k: nat, fuel: nat)
    requires
        k < RESET_POLL_LIMIT,
        stays_out_of_reset(target),
        refreshes(trace) == (k, k),
        fuel >= 3 * (RESET_POLL_LIMIT - k),
    ensures
        ({
            &&& run(
                reset_keep_step(),
                (mdm_ap, ResetKeep::Waiting { polls: k as u8 }),
                Event::Completed,
                target.answers(),
                trace,
                fuel,
            ) matches Some(end)
            &&& end.result == Err::<(), Fault>(Fault::ResetTimeout)
            &&& end.state.1 == ResetKeep::Idle
            &&& refreshes(end.trace) == (RESET_POLL_LIMIT as nat, RESET_POLL_LIMIT as nat)
        }),
    decreases RESET_POLL_LIMIT - k,
{
    let fresh = MdmAP::decoded((target.status)(k), (target.control)(k));
    let read = trace.push(MdmAP::read_of(MKE_MDM_STATUS)).push(MdmAP::read_of(MKE_MDM_CONTROL));
    lemma_refreshes_push(trace, MdmAP::read_of(MKE_MDM_STATUS));
    lemma_refreshes_push(trace.push(MdmAP::read_of(MKE_MDM_STATUS)), MdmAP::read_of(MKE_MDM_CONTROL));
    reveal_with_fuel(run, 4);
    if k + 1 < RESET_POLL_LIMIT {
        let waiting = read.push(Request::Sleep { millis: RESET_POLL_INTERVAL_MS });
        lemma_refreshes_push(read, Request::Sleep { millis: RESET_POLL_INTERVAL_MS });
        assert(run(
            reset_keep_step(),
            (mdm_ap, ResetKeep::Waiting { polls: k as u8 }),
            Event::Completed,
            target.answers(),
            trace,
            fuel,
        ) == run(
            reset_keep_step(),
            (fresh, ResetKeep::Waiting { polls: (k + 1) as u8 }),
            Event::Completed,
            target.answers(),
            waiting,
            (fuel - 3) as nat,
        ));
        lemma_reset_polls_exhausted(fresh, target, waiting, k + 1, (fuel - 3) as nat);
    }
}

/// A run of the reset up to the wait before the first poll: the reset
/// request is written and the wait is asked for.
proof fn lemma_reset_begins(mdm_ap: MdmAP, target: Target)
    ensures
        reset_keep_run(mdm_ap, target) == run(
            reset_keep_step(),
            (mdm_ap, ResetKeep::Waiting { polls: 0 }),
            Event::Completed,
            target.answers(),
            reset_first_trace(),
            60,
        ),
        refreshes(reset_first_trace()) == (0nat, 0nat),
{
    let written = Seq::<Request>::empty().push(MdmAP::control_write_of(MKE_MDM_CONTROL_SYS_RESET_BIT));
    lemma_refreshes_push(Seq::empty(), MdmAP::control_write_of(MKE_MDM_CONTROL_SYS_RESET_BIT));
    lemma_refreshes_push(written, Request::Sleep { millis: RESET_POLL_INTERVAL_MS });
    reveal_with_fuel(run, 3);
}

/// The requests of a run of the reset up to the wait before the first poll.
pub open spec fn reset_first_trace() -> Seq<Request> {
    Seq::<Request>::empty().push(MdmAP::control_write_of(MKE_MDM_CONTROL_SYS_RESET_BIT)).push(
        Request::Sleep { millis: RESET_POLL_INTERVAL_MS },
    )
}

/// Against a target that is found in reset by the poll that `n` polls came
/// before, with `n` under [`RESET_POLL_LIMIT`], asserting the reset succeeds
/// and reads the Status register and the Control register `n + 1` times
/// each. The snapshot then holds what the last of these reads gave.
pub proof fn law_reset_keep_succeeds_after_polls(mdm_ap: MdmAP, target: Target, n: nat)
    requires
        n < RESET_POLL_LIMIT,
        enters_reset_at(target, n),
    ensures
        ({
            &&& reset_keep_run(mdm_ap, target) matches Some(end)
            &&& end.result == Ok::<(), Fault>(())
            &&& end.state == (MdmAP::decoded((target.status)(n), (target.control)(n)), ResetKeep::Idle)
            &&& refreshes(end.trace) == (n + 1, n + 1)
        }),
{
    lemma_reset_begins(mdm_ap, target);
    lemma_reset_polls(mdm_ap, target, reset_first_trace(), 0, n, 60);
}

/// Against a target that is out of reset in each of the first
/// [`RESET_POLL_LIMIT`] polls, asserting the reset fails with
/// [`Fault::ResetTimeout`] and reads the Status register and the Control
/// register [`RESET_POLL_LIMIT`] times each.
pub proof fn law_reset_keep_times_out(mdm_ap: MdmAP, target: Target)
    requires
        stays_out_of_reset(target),
    ensures
        ({
            &&& reset_keep_run(mdm_ap, target) matches Some(end)
            &&& end.result == Err::<(), Fault>(Fault::ResetTimeout)
            &&& end.state.1 == ResetKeep::Idle
            &&& refreshes(end.trace) == (RESET_POLL_LIMIT as nat, RESET_POLL_LIMIT as nat)
        }),
{
    lemma_reset_begins(mdm_ap, target);
    lemma_reset_polls_exhausted(mdm_ap, target, reset_first_trace(), 0, 60);
}

/// Waiting for the flash from the snapshot `mdm_ap`, run against `target`
/// from the beginning. The fuel suffices for every run of it.
pub open spec fn flash_ready_run(mdm_ap: MdmAP, target: Target) -> Option<
    End<(MdmAP, FlashReady), Result<(), Fault>>,
> {
    run(flash_ready_step(), (mdm_ap, FlashReady::Idle), Event::Start, target.answers(), Seq::empty(), 50)
}

/// The flash-ready bit of the Status register reads 1 in the poll that `n`
/// polls came before, and 0 in every earlier poll. The polls follow one
/// refresh, so that the poll that `k` polls came before is the read of the
/// Status register that `k + 1` reads came before.
pub open spec fn flash_ready_at(target: Target, n: nat) -> bool {
    &&& (target.status)(n + 1) & MKE_MDM_STATUS_FLASH_READY_BIT != 0
    &&& forall|k: nat|
        1 <= k <= n ==> #[trigger] (target.status)(k) & MKE_MDM_STATUS_FLASH_READY_BIT == 0
}

/// The flash-ready bit of the Status register reads 0 in each of the
/// [`FLASH_POLL_LIMIT`] polls.
pub open spec fn flash_never_ready(target: Target) -> bool {
    forall|k: nat|
        1 <= k <= FLASH_POLL_LIMIT ==> #[trigger] (target.status)(k) & MKE_MDM_STATUS_FLASH_READY_BIT
            == 0
}

/// The state of the wait for the flash in which `refreshing` has asked for
/// the Status register.
pub open spec fn flash_reading(mdm_ap: MdmAP, refreshing: FlashReady) -> (MdmAP, FlashReady) {
    (
        mdm_ap,
        match refreshing {
            FlashReady::Polling { polls, .. } => FlashReady::Polling {
                polls,
                refresh: Refresh::Reading(RegisterRead::Status),
            },
            FlashReady::Last { ready, .. } => FlashReady::Last {
                ready,
                refresh: Refresh::Reading(RegisterRead::Status),
            },
            other => other,
        },
    )
}

/// A run of the wait for the flash from the answer to the Status read of
/// the refresh after the polls, which is the read that `reads` reads came
/// before.
proof fn lemma_flash_last(
    mdm_ap: MdmAP,
    ready: bool,
    target: Target,
    trace: Seq<Request>,
    reads: nat,
    fuel: nat,
)
    requires
        refreshes(trace) == (reads + 1, reads),
        fuel >= 3,
    ensures
        ({
            &&& run(
                flash_ready_step(),
                flash_reading(mdm_ap, FlashReady::Last { ready, refresh: Refresh::Idle }),
                Event::Value((target.status)(reads)),
                target.answers(),
                trace,
                fuel,
            ) matches Some(end)
            &&& end.result == if ready {
                Ok::<(), Fault>(())
            } else {
                Err::<(), Fault>(Fault::FlashNotReady)
            }
            &&& end.state == (MdmAP::decoded((target.status)(reads), (target.control)(reads)), FlashReady::Idle)
            &&& refreshes(end.trace) == (reads + 1, reads + 1)
        }),
{
    let status = (target.status)(reads);
    let control = (target.control)(reads);
    let read = trace.push(MdmAP::read_of(MKE_MDM_CONTROL));
    let shown = read.push(Request::Report(Notice::Registers { status, control }));
    lemma_refreshes_push(trace, MdmAP::read_of(MKE_MDM_CONTROL));
    lemma_refreshes_push(read, Request::Report(Notice::Registers { status, control }));
    lemma_refreshes_push(shown, Request::Report(Notice::Snapshot(MdmAP::decoded(status, control))));
    reveal_with_fuel(run, 4);
}

/// A run of the wait for the flash from the answer to the Status read of
/// the poll that `k` polls came before, which is the poll that finds the
/// flash ready or one before it.
proof fn lemma_flash_polls(mdm_ap: MdmAP, target: Target, trace: Seq<Request>, k: nat, n: nat, fuel: nat)
    requires
        k <= n < FLASH_POLL_LIMIT,
        flash_ready_at(target, n),
        refreshes(trace) == (k + 2, k + 1),
        fuel >= 2 * (n - k) + 6,
    ensures
        ({
            &&& run(
                flash_ready_step(),
                flash_reading(mdm_ap, FlashReady::Polling { polls: k as u8, refresh: Refresh::Idle }),
                Event::Value((target.status)(k + 1)),
                target.answers(),
                trace,
                fuel,
            ) matches Some(end)
            &&& end.result == Ok::<(), Fault>(())
            &&& end.state == (
                MdmAP::decoded((target.status)(n + 2), (target.control)(n + 2)),
                FlashReady::Idle,
            )
            &&& refreshes(end.trace) == (n + 3, n + 3)
        }),
    decreases n - k,
{
    let fresh = MdmAP::decoded((target.status)(k + 1), (target.control)(k + 1));
    let polling = flash_reading(mdm_ap, FlashReady::Polling { polls: k as u8, refresh: Refresh::Idle });
    let read = trace.push(MdmAP::read_of(MKE_MDM_CONTROL));
    lemma_refreshes_push(trace, MdmAP::read_of(MKE_MDM_CONTROL));
    reveal_with_fuel(run, 4);
    if k == n {
        let told = read.push(Request::Report(Notice::FlashReady));
        let last = told.push(MdmAP::read_of(MKE_MDM_STATUS));
        lemma_refreshes_push(read, Request::Report(Notice::FlashReady));
        lemma_refreshes_push(told, MdmAP::read_of(MKE_MDM_STATUS));
        assert(run(
            flash_ready_step(),
            polling,
            Event::Value((target.status)(k + 1)),
            target.answers(),
            trace,
            fuel,
        ) == run(
            flash_ready_step(),
            flash_reading(fresh, FlashReady::Last { ready: true, refresh: Refresh::Idle }),
            Event::Value((target.status)(n + 2)),
            target.answers(),
            last,
            (fuel - 3) as nat,
        ));
        lemma_flash_last(fresh, true, target, last, n + 2, (fuel - 3) as nat);
    } else {
        let next = read.push(MdmAP::read_of(MKE_MDM_STATUS));
        lemma_refreshes_push(read, MdmAP::read_of(MKE_MDM_STATUS));
        assert(run(
            flash_ready_step(),
            polling,
            Event::Value((target.status)(k + 1)),
            target.answers(),
            trace,
            fuel,
        ) == run(
            flash_ready_step(),
            flash_reading(fresh, FlashReady::Polling { polls: (k + 1) as u8, refresh: Refresh::Idle }),
            Event::Value((target.status)(k + 2)),
            target.answers(),
            next,
            (fuel - 2) as nat,
        ));
        lemma_flash_polls(fresh, target, next, k + 1, n, (fuel - 2) as nat);
    }
}

/// A run of the wait for the flash from the answer to the Status read of
/// the poll that `k` polls came before, where no poll finds the flash
/// ready.
proof fn lemma_flash_polls_exhausted(mdm_ap: MdmAP, target: Target, trace: Seq<Request>, k: nat, fuel: nat)
    requires
        k < FLASH_POLL_LIMIT,
        flash_never_ready(target),
        refreshes(trace) == (k + 2, k + 1),
        fuel >= 2 * (FLASH_POLL_LIMIT - k) + 3,
    ensures
        ({
            &&& run(
                flash_ready_step(),
                flash_reading(mdm_ap, FlashReady::Polling { polls: k as u8, refresh: Refresh::Idle }),
                Event::Value((target.status)(k + 1)),
                target.answers(),
                trace,
                fuel,
            ) matches Some(end)
            &&& end.result == Err::<(), Fault>(Fault::FlashNotReady)
            &&& end.state.1 == FlashReady::Idle
            &&& refreshes(end.trace) == ((FLASH_POLL_LIMIT + 2) as nat, (FLASH_POLL_LIMIT + 2) as nat)
        }),
    decreases FLASH_POLL_LIMIT - k,
{
    let fresh = MdmAP::decoded((target.status)(k + 1), (target.control)(k + 1));
    let polling = flash_reading(mdm_ap, FlashReady::Polling { polls: k as u8, refresh: Refresh::Idle });
    let read = trace.push(MdmAP::read_of(MKE_MDM_CONTROL));
    let next = read.push(MdmAP::read_of(MKE_MDM_STATUS));
    lemma_refreshes_push(trace, MdmAP::read_of(MKE_MDM_CONTROL));
    lemma_refreshes_push(read, MdmAP::read_of(MKE_MDM_STATUS));
    reveal_with_fuel(run, 3);
    if k + 1 < FLASH_POLL_LIMIT {
        assert(run(
            flash_ready_step(),
            polling,
            Event::Value((target.status)(k + 1)),
            target.answers(),
            trace,
            fuel,
        ) == run(
            flash_ready_step(),
            flash_reading(fresh, FlashReady::Polling { polls: (k + 1) as u8, refresh: Refresh::Idle }),
            Event::Value((target.status)(k + 2)),
            target.answers(),
            next,
            (fuel - 2) as nat,
        ));
        lemma_flash_polls_exhausted(fresh, target, next, k + 1, (fuel - 2) as nat);
    } else {
        assert(run(
            flash_ready_step(),
            polling,
            Event::Value((target.status)(k + 1)),
            target.answers(),
            trace,
            fuel,
        ) == run(
            flash_ready_step(),
            flash_reading(fresh, FlashReady::Last { ready: false, refresh: Refresh::Idle }),
            Event::Value((target.status)(k + 2)),
            target.answers(),
            next,
            (fuel - 2) as nat,
        ));
        lemma_flash_last(fresh, false, target, next, k + 2, (fuel - 2) as nat);
    }
}

/// The requests of a run of the wait for the flash up to the first poll's
/// read of the Status register: the refresh with notice, the notice that
/// the wait begins, and that read.
pub open spec fn flash_first_trace(target: Target) -> Seq<Request> {
    let status = (target.status)(0);
    let control = (target.control)(0);
    Seq::<Request>::empty().push(MdmAP::read_of(MKE_MDM_STATUS)).push(
        MdmAP::read_of(MKE_MDM_CONTROL),
    ).push(Request::Report(Notice::Registers { status, control })).push(
        Request::Report(Notice::Snapshot(MdmAP::decoded(status, control))),
    ).push(Request::Report(Notice::WaitingFlashReady)).push(MdmAP::read_of(MKE_MDM_STATUS))
}

/// A run of the wait for the flash up to the answer to the first poll's
/// read of the Status register.
proof fn lemma_flash_begins(mdm_ap: MdmAP, target: Target)
    ensures
        flash_ready_run(mdm_ap, target) == run(
            flash_ready_step(),
            flash_reading(
                MdmAP::decoded((target.status)(0), (target.control)(0)),
                FlashReady::Polling { polls: 0, refresh: Refresh::Idle },
            ),
            Event::Value((target.status)(1)),
            target.answers(),
            flash_first_trace(target),
            44,
        ),
        refreshes(flash_first_trace(target)) == (2nat, 1nat),
{
    let status = (target.status)(0);
    let control = (target.control)(0);
    let first = Seq::<Request>::empty().push(MdmAP::read_of(MKE_MDM_STATUS));
    let second = first.push(MdmAP::read_of(MKE_MDM_CONTROL));
    let third = second.push(Request::Report(Notice::Registers { status, control }));
    let fourth = third.push(Request::Report(Notice::Snapshot(MdmAP::decoded(status, control))));
    let fifth = fourth.push(Request::Report(Notice::WaitingFlashReady));
    lemma_refreshes_push(Seq::empty(), MdmAP::read_of(MKE_MDM_STATUS));
    lemma_refreshes_push(first, MdmAP::read_of(MKE_MDM_CONTROL));
    lemma_refreshes_push(second, Request::Report(Notice::Registers { status, control }));
    lemma_refreshes_push(third, Request::Report(Notice::Snapshot(MdmAP::decoded(status, control))));
    lemma_refreshes_push(fourth, Request::Report(Notice::WaitingFlashReady));
    lemma_refreshes_push(fifth, MdmAP::read_of(MKE_MDM_STATUS));
    reveal_with_fuel(run, 7);
}

/// Against a target whose flash is found ready by the poll that `n` polls
/// came before, with `n` under [`FLASH_POLL_LIMIT`], the wait for the flash
/// succeeds and reads the Status register and the Control register `n + 3`
/// times each: once before the polls, `n + 1` times in them, once after
/// them. The snapshot then holds what the last of these reads gave.
pub proof fn law_flash_ready_succeeds_after_polls(mdm_ap: MdmAP, target: Target, n: nat)
    requires
        n < FLASH_POLL_LIMIT,
        flash_ready_at(target, n),
    ensures
        ({
            &&& flash_ready_run(mdm_ap, target) matches Some(end)
            &&& end.result == Ok::<(), Fault>(())
            &&& end.state == (
                MdmAP::decoded((target.status)(n + 2), (target.control)(n + 2)),
                FlashReady::Idle,
            )
            &&& refreshes(end.trace) == (n + 3, n + 3)
        }),
{
    lemma_flash_begins(mdm_ap, target);
    lemma_flash_polls(
        MdmAP::decoded((target.status)(0), (target.control)(0)),
        target,
        flash_first_trace(target),
        0,
        n,
        44,
    );
}

/// Against a target whose flash is not ready in any of the
/// [`FLASH_POLL_LIMIT`] polls, the wait for the flash fails with
/// [`Fault::FlashNotReady`] and reads the Status register and the Control
/// register [`FLASH_POLL_LIMIT`]` + 2` times each: once before the polls,
/// once in each poll, once after them.
pub proof fn law_flash_ready_times_out(mdm_ap: MdmAP, target: Target)
    requires
        flash_never_ready(target),
    ensures
        ({
            &&& flash_ready_run(mdm_ap, target) matches Some(end)
            &&& end.result == Err::<(), Fault>(Fault::FlashNotReady)
            &&& end.state.1 == FlashReady::Idle
            &&& refreshes(end.trace) == ((FLASH_POLL_LIMIT + 2) as nat, (FLASH_POLL_LIMIT + 2) as nat)
        }),
{
    lemma_flash_begins(mdm_ap, target);
    lemma_flash_polls_exhausted(
        MdmAP::decoded((target.status)(0), (target.control)(0)),
        target,
        flash_first_trace(target),
        0,
        44,
    );
}

} // verus!
