//! Register model and unlock procedure for the Miscellaneous Debug Module
//! Access Port (MDM-AP) of Kinetis-E microcontrollers.
//!
//! The crate never touches a debug probe. Each of its procedures is a
//! function from the state it is in and the event that answers its last
//! request to its next state and its next request, or to its result. The
//! caller owns the probe, performs each request and hands back how it went:
//!
//! ```text
//! let mut unlock = Unlock::new();
//! let mut event = Event::Start;
//! loop {
//!     match debug_mode_on_an4835(&mut unlock, event) {
//!         Step::Do(request) => event = perform(request),
//!         Step::Finish(outcome) => break outcome,
//!     }
//! }
//! ```
//!
//! - [`registers`]: the Status and Control registers and their decoded views.
//! - [`diff`]: the flags of a register as rows, and what differs between two.
//! - [`dhcsr`]: the word that halts the core.
//! - [`exchange`]: requests, events, notices and faults.
//! - [`mdm_ap`]: the session and its procedures.
//! - [`unlock`]: the unlock procedure.
//! - [`errors`]: the message of each fault.
//! - [`run`]: what a run of a procedure is.
//! - [`polls`], [`order`], [`bounds`], [`success`]: what is proved of the
//!   procedures and of their runs.

pub mod bounds;
pub mod dhcsr;
pub mod diff;
pub mod errors;
pub mod exchange;
pub mod mdm_ap;
pub mod order;
pub mod polls;
pub mod registers;
pub mod run;
pub mod success;
pub mod unlock;
