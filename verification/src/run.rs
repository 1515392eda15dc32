//! Runs of the procedures of this crate: a procedure is stepped, each of its
//! requests is answered, until it ends. Here is what a run is, and how what
//! holds of every step is shown to hold of a whole run.

use vstd::prelude::*;
use crate::exchange::{Event, Fault, Request, Step};
use crate::mdm_ap::{FlashReady, MdmAP, ResetKeep};
use crate::registers::{MKE_MDM_AP_PORT, MKE_MDM_CONTROL, MKE_MDM_IDR_REG, MKE_MDM_STATUS};
use crate::unlock::{spec_debug_mode_on_an4835, Outcome, Unlock};

verus! {

/// A simulated target. No access to it fails. What a read of the Status or
/// of the Control register gives depends on how many reads of that register
/// were made before it, and so does what a read of target memory gives.
pub struct Target {
    pub status: spec_fn(nat) -> u32,
    pub control: spec_fn(nat) -> u32,
    pub idr: u32,
    pub memory: spec_fn(nat) -> u32,
}

/// How often `request` stands in `trace`.
pub open spec fn occurrences(trace: Seq<Request>, request: Request) -> nat
    decreases trace.len(),
{
    if trace.len() == 0 {
        0
    } else {
        occurrences(trace.drop_last(), request) + if trace.last() == request {
            1nat
        } else {
            0nat
        }
    }
}

/// How many words of target memory were read in `trace`.
pub open spec fn memory_reads(trace: Seq<Request>) -> nat
    decreases trace.len(),
{
    if trace.len() == 0 {
        0
    } else {
        memory_reads(trace.drop_last()) + if trace.last() is ReadWord {
            1nat
        } else {
            0nat
        }
    }
}

impl Target {
    /// The event by which the target answers `request` when the requests of
    /// `trace` were made before it.
    pub open spec fn answer(self, trace: Seq<Request>, request: Request) -> Event {
        match request {
            Request::ReadAp { port, offset } => if port != MKE_MDM_AP_PORT {
                Event::Failed
            } else if offset == MKE_MDM_STATUS {
                Event::Value((self.status)(occurrences(trace, request)))
            } else if offset == MKE_MDM_CONTROL {
                Event::Value((self.control)(occurrences(trace, request)))
            } else if offset == MKE_MDM_IDR_REG {
                Event::Value(self.idr)
            } else {
                Event::Failed
            },
            Request::ReadWord { .. } => Event::Value((self.memory)(memory_reads(trace))),
            _ => Event::Completed,
        }
    }

    /// The target as what answers the requests of a run.
    pub open spec fn answers(self) -> spec_fn(Seq<Request>, Request) -> Event {
        |trace: Seq<Request>, request: Request| self.answer(trace, request)
    }
}

/// How a run ended: the state and the result of the procedure, and the
/// requests that it made, in their order.
pub struct End<S, R> {
    pub state: S,
    pub result: R,
    pub trace: Seq<Request>,
}

/// Runs a procedure: `next` is its step, `state` and `event` are what the
/// next step is given, `trace` holds the requests made so far. Each request
/// is answered by `answer`, which is given the requests made before it. The
/// run ends when the procedure does. It is cut short, with `None`, if that
/// takes more than `fuel` requests.
pub open spec fn run<S, R>(
    next: spec_fn(S, Event) -> (S, Step<R>),
    state: S,
    event: Event,
    answer: spec_fn(Seq<Request>, Request) -> Event,
    trace: Seq<Request>,
    fuel: nat,
) -> Option<End<S, R>>
    decreases fuel,
{
    let (state, step) = next(state, event);
    match step {
        Step::Finish(result) => Some(End { state, result, trace }),
        Step::Do(request) => if fuel == 0 {
            None
        } else {
            run(next, state, answer(trace, request), answer, trace.push(request), (fuel - 1) as nat)
        },
    }
}

/// The step of asserting the system reset, on the snapshot and the progress
/// as one state.
pub open spec fn reset_keep_step() -> spec_fn((MdmAP, ResetKeep), Event) -> (
    (MdmAP, ResetKeep),
    Step<Result<(), Fault>>,
) {
    |state: (MdmAP, ResetKeep), event: Event|
        {
            let (mdm_ap, progress, step) = state.0.spec_mdm_ap_reset_keep(state.1, event);
            ((mdm_ap, progress), step)
        }
}

/// The step of waiting for the flash, on the snapshot and the progress as
/// one state.
pub open spec fn flash_ready_step() -> spec_fn((MdmAP, FlashReady), Event) -> (
    (MdmAP, FlashReady),
    Step<Result<(), Fault>>,
) {
    |state: (MdmAP, FlashReady), event: Event|
        {
            let (mdm_ap, progress, step) = state.0.spec_is_mdm_flash_ready(state.1, event);
            ((mdm_ap, progress), step)
        }
}

/// The step of the unlock procedure.
pub open spec fn unlock_step() -> spec_fn(Unlock, Event) -> (Unlock, Step<Outcome>) {
    |unlock: Unlock, event: Event| spec_debug_mode_on_an4835(unlock, event)
}

/// The event that a step is given when `pending` was asked last, after the
/// requests of `before`: the answer to it, or the start where nothing was
/// asked yet.
pub open spec fn event_after(
    answer: spec_fn(Seq<Request>, Request) -> Event,
    pending: Option<Request>,
    before: Seq<Request>,
) -> Event {
    match pending {
        Some(request) => answer(before, request),
        None => Event::Start,
    }
}

/// The requests made once `pending` was asked after those of `before`.
pub open spec fn trace_after(pending: Option<Request>, before: Seq<Request>) -> Seq<Request> {
    match pending {
        Some(request) => before.push(request),
        None => before,
    }
}

/// The step that a procedure makes from `state` when `pending` was asked
/// last, after the requests of `before`.
pub open spec fn stepped<S, R>(
    next: spec_fn(S, Event) -> (S, Step<R>),
    answer: spec_fn(Seq<Request>, Request) -> Event,
    state: S,
    pending: Option<Request>,
    before: Seq<Request>,
) -> (S, Step<R>) {
    next(state, event_after(answer, pending, before))
}

/// Every step from a state of which `holds` is true, together with the
/// request that is pending in it, asks only for what `allowed` accepts and
/// leads to such a state again, or ends with a result that `possible`
/// accepts.
pub open spec fn kept_by_steps<S, R>(
    next: spec_fn(S, Event) -> (S, Step<R>),
    answer: spec_fn(Seq<Request>, Request) -> Event,
    holds: spec_fn(S, Option<Request>) -> bool,
    allowed: spec_fn(Request) -> bool,
    possible: spec_fn(R) -> bool,
) -> bool {
    forall|state: S, pending: Option<Request>, before: Seq<Request>|
        holds(state, pending) ==> match (#[trigger] stepped(next, answer, state, pending, before)).1 {
            Step::Do(request) => allowed(request) && holds(
                stepped(next, answer, state, pending, before).0,
                Some(request),
            ),
            Step::Finish(result) => possible(result),
        }
}

/// What every step keeps to, a whole run keeps to: it asks only for what
/// `allowed` accepts, and if it ends, it ends with a result that `possible`
/// accepts.
pub proof fn lemma_run_keeps<S, R>(
    next: spec_fn(S, Event) -> (S, Step<R>),
    answer: spec_fn(Seq<Request>, Request) -> Event,
    holds: spec_fn(S, Option<Request>) -> bool,
    allowed: spec_fn(Request) -> bool,
    possible: spec_fn(R) -> bool,
    state: S,
    pending: Option<Request>,
    before: Seq<Request>,
    fuel: nat,
)
    requires
        kept_by_steps(next, answer, holds, allowed, possible),
        holds(state, pending),
        forall|i: int| 0 <= i < trace_after(pending, before).len() ==> allowed(#[trigger] trace_after(pending, before)[i]),
    ensures
        run(
            next,
            state,
            event_after(answer, pending, before),
            answer,
            trace_after(pending, before),
            fuel,
        ) matches Some(end) ==> {
            &&& possible(end.result)
            &&& forall|i: int| 0 <= i < end.trace.len() ==> allowed(#[trigger] end.trace[i])
        },
    decreases fuel,
{
    let trace = trace_after(pending, before);
    let (after, step) = stepped(next, answer, state, pending, before);
    match step {
        Step::Finish(result) => {},
        Step::Do(request) => {
            if fuel > 0 {
                assert forall|i: int| 0 <= i < trace.push(request).len() implies allowed(
                    #[trigger] trace.push(request)[i],
                ) by {}
                lemma_run_keeps(
                    next,
                    answer,
                    holds,
                    allowed,
                    possible,
                    after,
                    Some(request),
                    trace,
                    (fuel - 1) as nat,
                );
            }
        },
    }
}

/// Every step of `next` that asks for something leads to a state of which
/// `left` is less.
pub open spec fn decreases_by_steps<S, R>(
    next: spec_fn(S, Event) -> (S, Step<R>),
    left: spec_fn(S) -> nat,
) -> bool {
    forall|state: S, event: Event|
        (#[trigger] next(state, event)).1 is Do ==> left(next(state, event).0) < left(state)
}

/// A run ends if the fuel is no less than what every step decreases, and it
/// makes no more requests than that.
pub proof fn lemma_run_ends<S, R>(
    next: spec_fn(S, Event) -> (S, Step<R>),
    left: spec_fn(S) -> nat,
    state: S,
    event: Event,
    answer: spec_fn(Seq<Request>, Request) -> Event,
    trace: Seq<Request>,
    fuel: nat,
)
    requires
        decreases_by_steps(next, left),
        fuel >= left(state),
    ensures
        run(next, state, event, answer, trace, fuel) matches Some(end) && end.trace.len() <= trace.len()
            + left(state),
    decreases fuel,
{
    let (after, step) = next(state, event);
    match step {
        Step::Finish(_) => {},
        Step::Do(request) => {
            lemma_run_ends(
                next,
                left,
                after,
                answer(trace, request),
                answer,
                trace.push(request),
                (fuel - 1) as nat,
            );
        },
    }
}

} // verus!
