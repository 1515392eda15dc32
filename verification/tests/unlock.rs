use mke_mdm_ap::exchange::{Event, Fault, Notice, Request, Step};
use mke_mdm_ap::mdm_ap::MdmAP;
use mke_mdm_ap::registers::{MdmApControl, MdmApStatus};
use mke_mdm_ap::unlock::{
    debug_mode_on_an4835, Outcome, Phase, Unlock, DBG_REQ_REASON, HALT_SETTLE_MS,
    RESET_RELEASE_SETTLE_MS,
};

const READ_STATUS: Request = Request::ReadAp { port: 1, offset: 0x00 };
const READ_CONTROL: Request = Request::ReadAp { port: 1, offset: 0x04 };
const READ_IDR: Request = Request::ReadAp { port: 1, offset: 0xFC };
const READ_DHCSR: Request = Request::ReadWord { address: 0xE000_EDF0 };
const WRITE_HALT: Request = Request::WriteWord { address: 0xE000_EDF0, value: 0xA05F_0003 };

/// A target that answers from a script and keeps what it was asked. If
/// `live_control` is set, the Control register reads what was written last.
struct SimulatedTarget {
    status: Vec<u32>,
    control: u32,
    live_control: bool,
    idr: u32,
    memory: Vec<u32>,
    fail_at: Option<usize>,
    memory_open: bool,
    trace: Vec<Request>,
}

impl SimulatedTarget {
    fn new(status: Vec<u32>, control: u32) -> Self {
        SimulatedTarget {
            status,
            control,
            live_control: false,
            idr: 0x001C_0020,
            memory: vec![0x0000_0000, 0x0003_0003, 0x0003_0003],
            fail_at: None,
            memory_open: false,
            trace: Vec::new(),
        }
    }

    fn count(&self, request: Request) -> usize {
        self.trace.iter().filter(|made| **made == request).count()
    }

    fn control_writes(&self) -> Vec<u32> {
        self.trace
            .iter()
            .filter_map(|made| match made {
                Request::WriteAp { port: 1, offset: 0x04, value } => Some(*value),
                _ => None,
            })
            .collect()
    }

    fn notices(&self) -> Vec<Notice> {
        self.trace
            .iter()
            .filter_map(|made| match made {
                Request::Report(notice) => Some(*notice),
                _ => None,
            })
            .collect()
    }

    fn word(script: &[u32], reads_before: usize) -> u32 {
        if script.is_empty() {
            0
        } else if reads_before < script.len() {
            script[reads_before]
        } else {
            script[script.len() - 1]
        }
    }

    fn answer(&mut self, request: Request) -> Event {
        let index = self.trace.len();
        let reads_before = self.count(request);
        self.trace.push(request);
        if self.fail_at == Some(index) {
            if request == Request::CloseMemory {
                self.memory_open = false;
            }
            return Event::Failed;
        }
        match request {
            Request::ReadAp { port: 1, offset: 0x00 } => {
                assert!(!self.memory_open);
                Event::Value(Self::word(&self.status, reads_before))
            }
            Request::ReadAp { port: 1, offset: 0x04 } => {
                assert!(!self.memory_open);
                Event::Value(self.control)
            }
            Request::ReadAp { port: 1, offset: 0xFC } => Event::Value(self.idr),
            Request::ReadAp { .. } => Event::Failed,
            Request::WriteAp { port: 1, offset: 0x04, value } => {
                assert!(!self.memory_open);
                if self.live_control {
                    self.control = value;
                }
                Event::Completed
            }
            Request::WriteAp { .. } => Event::Failed,
            Request::OpenMemory { port } => {
                assert_eq!(port, 0);
                assert!(!self.memory_open);
                self.memory_open = true;
                Event::Completed
            }
            Request::CloseMemory => {
                assert!(self.memory_open);
                self.memory_open = false;
                Event::Completed
            }
            Request::ReadWord { .. } => {
                assert!(self.memory_open);
                Event::Value(Self::word(&self.memory, reads_before))
            }
            Request::WriteWord { .. } | Request::Flush => {
                assert!(self.memory_open);
                Event::Completed
            }
            _ => Event::Completed,
        }
    }
}

fn run(target: &mut SimulatedTarget) -> (Outcome, Unlock) {
    let mut unlock = Unlock::new();
    let mut event = Event::Start;
    loop {
        match debug_mode_on_an4835(&mut unlock, event) {
            Step::Do(request) => event = target.answer(request),
            Step::Finish(outcome) => {
                assert_eq!(unlock.phase, Phase::Idle);
                return (outcome, unlock);
            }
        }
    }
}

fn snapshot(status: u32, control: u32) -> MdmAP {
    MdmAP { status: MdmApStatus::parse_from_u32(status), control: MdmApControl::parse_from_u32(control) }
}

fn refresh_with_notice(status: u32, control: u32) -> Vec<Request> {
    vec![
        READ_STATUS,
        READ_CONTROL,
        Request::Report(Notice::Registers { status, control }),
        Request::Report(Notice::Snapshot(snapshot(status, control))),
    ]
}

#[test]
fn settle_constants() {
    assert_eq!(HALT_SETTLE_MS, 500);
    assert_eq!(RESET_RELEASE_SETTLE_MS, 50);
    assert_eq!(DBG_REQ_REASON, " DBG_REQ_BIT set ");
}

#[test]
fn new_procedure_is_at_rest() {
    let unlock = Unlock::new();
    assert_eq!(unlock.phase, Phase::Idle);
    assert_eq!(unlock.mdm_ap, snapshot(0, 0));
}

#[test]
fn secured_target_is_not_touched() {
    let mut target = SimulatedTarget::new(vec![0x0000_0006], 0x0000_0000);
    let (outcome, unlock) = run(&mut target);
    assert_eq!(outcome, Outcome::Secured);
    assert_eq!(unlock.mdm_ap, snapshot(0x6, 0));
    assert!(unlock.mdm_ap.status.security);
    assert_eq!(target.control_writes(), vec![0x8]);
    assert_eq!(target.count(Request::OpenMemory { port: 0 }), 0);
    assert_eq!(target.count(READ_DHCSR), 0);
    assert_eq!(target.count(WRITE_HALT), 0);
    assert_eq!(target.count(Request::Flush), 0);
    assert_eq!(target.count(Request::Report(Notice::Secured)), 1);
    assert_eq!(target.count(READ_STATUS), 6);
    assert_eq!(target.count(READ_CONTROL), 6);
    assert_eq!(target.count(READ_IDR), 1);
    let mut expected = vec![
        Request::Attach,
        Request::ResetTarget,
        Request::OpenArmInterface,
        Request::InitArmInterface,
        Request::Report(Notice::Banner),
        READ_STATUS,
        READ_CONTROL,
        Request::WriteAp { port: 1, offset: 0x04, value: 0x8 },
        Request::Sleep { millis: 1 },
        READ_STATUS,
        READ_CONTROL,
        Request::Report(Notice::ResetAsserted),
        READ_IDR,
        Request::Report(Notice::Idr { idr: 0x001C_0020, expected: true }),
    ];
    expected.extend(refresh_with_notice(0x6, 0));
    expected.push(Request::Report(Notice::WaitingFlashReady));
    expected.extend(vec![READ_STATUS, READ_CONTROL, Request::Report(Notice::FlashReady)]);
    expected.extend(refresh_with_notice(0x6, 0));
    expected.extend(vec![READ_STATUS, READ_CONTROL, Request::Report(Notice::Secured)]);
    assert_eq!(target.trace, expected);
}

#[test]
fn secured_target_that_becomes_secured_late() {
    let mut target = SimulatedTarget::new(vec![0x2, 0x2, 0x2, 0x2, 0x2, 0x6], 0);
    let (outcome, _) = run(&mut target);
    assert_eq!(outcome, Outcome::Secured);
    assert_eq!(target.control_writes(), vec![0x8]);
}

#[test]
fn end_to_end() {
    let mut target = SimulatedTarget::new(vec![0x0000_0002], 0x0000_0000);
    target.memory = vec![0x0000_0000, 0x0003_0003, 0x0103_0003];
    let (outcome, unlock) = run(&mut target);
    assert_eq!(outcome, Outcome::DebugModeOn);
    let status = unlock.mdm_ap.status;
    assert!(status.flash_ready);
    assert!(!status.mass_erase_ack);
    assert!(!status.security);
    assert!(!status.system_reset);
    assert!(!status.halt_state);
    assert!(!status.stop_state);
    assert!(!status.wait_state);
    let control = unlock.mdm_ap.control;
    assert!(!control.erase_in_progress);
    assert!(!control.debug_disable);
    assert!(!control.debug_request);
    assert!(!control.sys_reset_request);
    assert!(!control.core_hold);
    assert_eq!(target.control_writes(), vec![0x8, 0x4, 0x0]);
    assert_eq!(target.count(WRITE_HALT), 1);
    assert_eq!(target.count(READ_DHCSR), 3);
    let mut expected = vec![
        Request::Attach,
        Request::ResetTarget,
        Request::OpenArmInterface,
        Request::InitArmInterface,
        Request::Report(Notice::Banner),
        READ_STATUS,
        READ_CONTROL,
        Request::WriteAp { port: 1, offset: 0x04, value: 0x8 },
        Request::Sleep { millis: 1 },
        READ_STATUS,
        READ_CONTROL,
        Request::Report(Notice::ResetAsserted),
        READ_IDR,
        Request::Report(Notice::Idr { idr: 0x001C_0020, expected: true }),
    ];
    expected.extend(refresh_with_notice(0x2, 0));
    expected.push(Request::Report(Notice::WaitingFlashReady));
    expected.extend(vec![READ_STATUS, READ_CONTROL, Request::Report(Notice::FlashReady)]);
    expected.extend(refresh_with_notice(0x2, 0));
    expected.extend(vec![READ_STATUS, READ_CONTROL]);
    expected.push(Request::WriteAp { port: 1, offset: 0x04, value: 0x4 });
    expected.extend(vec![
        READ_STATUS,
        READ_CONTROL,
        Request::Report(Notice::Registers { status: 0x2, control: 0 }),
        Request::Report(Notice::Changes {
            reason: " DBG_REQ_BIT set ",
            before: snapshot(0x2, 0),
            after: snapshot(0x2, 0),
        }),
        Request::OpenMemory { port: 0 },
        READ_DHCSR,
        WRITE_HALT,
        Request::Flush,
        Request::Sleep { millis: 500 },
        READ_DHCSR,
        Request::Report(Notice::DhcsrWritten { was: 0x0000_0000, now: 0x0003_0003 }),
        Request::CloseMemory,
    ]);
    expected.extend(refresh_with_notice(0x2, 0));
    expected.push(Request::WriteAp { port: 1, offset: 0x04, value: 0x0 });
    expected.push(Request::Sleep { millis: 50 });
    expected.extend(refresh_with_notice(0x2, 0));
    expected.extend(vec![
        Request::OpenMemory { port: 0 },
        READ_DHCSR,
        Request::Report(Notice::DhcsrEnd { value: 0x0103_0003 }),
        Request::CloseMemory,
    ]);
    expected.extend(refresh_with_notice(0x2, 0));
    assert_eq!(target.trace, expected);
}

#[test]
fn end_to_end_with_a_control_register_that_keeps_what_is_written() {
    let mut target = SimulatedTarget::new(vec![0x0000_0002], 0x0000_0010);
    target.live_control = true;
    let (outcome, unlock) = run(&mut target);
    assert_eq!(outcome, Outcome::DebugModeOn);
    assert_eq!(target.control_writes(), vec![0x8, 0xC, 0x4]);
    assert_eq!(unlock.mdm_ap, snapshot(0x2, 0x4));
    assert!(unlock.mdm_ap.control.debug_request);
    assert!(!unlock.mdm_ap.control.sys_reset_request);
    let changes: Vec<Notice> = target
        .notices()
        .into_iter()
        .filter(|notice| matches!(notice, Notice::Changes { .. }))
        .collect();
    assert_eq!(
        changes,
        vec![Notice::Changes { reason: " DBG_REQ_BIT set ", before: snapshot(0x2, 0x8), after: snapshot(0x2, 0xC) }]
    );
}

#[test]
fn unexpected_idr_is_a_warning_only() {
    let mut target = SimulatedTarget::new(vec![0x0000_0002], 0);
    target.idr = 0x1234_5678;
    let (outcome, _) = run(&mut target);
    assert_eq!(outcome, Outcome::DebugModeOn);
    assert_eq!(target.count(Request::Report(Notice::Idr { idr: 0x1234_5678, expected: false })), 1);
}

#[test]
fn dhcsr_read_back_is_not_checked() {
    let mut target = SimulatedTarget::new(vec![0x0000_0002], 0);
    target.memory = vec![0xFFFF_FFFF, 0x0000_0000, 0x0000_0000];
    let (outcome, _) = run(&mut target);
    assert_eq!(outcome, Outcome::DebugModeOn);
    assert_eq!(target.count(Request::Report(Notice::DhcsrWritten { was: 0xFFFF_FFFF, now: 0 })), 1);
    assert_eq!(target.count(Request::Report(Notice::DhcsrEnd { value: 0 })), 1);
}

#[test]
fn reset_that_does_not_take_hold_ends_the_procedure() {
    let mut target = SimulatedTarget::new(vec![0x0000_000A], 0);
    let (outcome, _) = run(&mut target);
    assert_eq!(outcome, Outcome::Failed(Fault::ResetTimeout));
    assert_eq!(target.count(READ_STATUS), 21);
    assert_eq!(target.count(READ_IDR), 0);
    assert_eq!(target.control_writes(), vec![0x8]);
}

#[test]
fn flash_that_is_not_ready_ends_the_procedure() {
    let mut target = SimulatedTarget::new(vec![0x0000_0000], 0);
    let (outcome, _) = run(&mut target);
    assert_eq!(outcome, Outcome::Failed(Fault::FlashNotReady));
    assert_eq!(target.count(READ_STATUS), 1 + 1 + 22);
    assert_eq!(target.control_writes(), vec![0x8]);
    assert_eq!(target.count(Request::OpenMemory { port: 0 }), 0);
}

#[test]
fn each_request_that_fails_ends_the_procedure_with_its_fault() {
    let mut healthy = SimulatedTarget::new(vec![0x0000_0002], 0x10);
    healthy.live_control = true;
    let (outcome, _) = run(&mut healthy);
    assert_eq!(outcome, Outcome::DebugModeOn);
    let requests = healthy.trace.clone();
    let mut control: u32 = 0x10;
    let mut memory_reads = 0;
    let mut control_writes = 0;
    let mut failures = 0;
    for (index, request) in requests.iter().enumerate() {
        let expected = match request {
            Request::Attach => Some(Fault::Attach),
            Request::ResetTarget => Some(Fault::TargetReset),
            Request::OpenArmInterface => Some(Fault::OpenArmInterface),
            Request::InitArmInterface => Some(Fault::InitArmInterface),
            Request::ReadAp { .. } => Some(Fault::ReadRegister),
            Request::WriteAp { value, .. } => {
                control_writes += 1;
                let fault = match control_writes {
                    1 => Fault::WriteControlNew { value: 0x8, old_value: control },
                    2 => Fault::WriteControlBit { bit: 0x4, old_value: control },
                    _ => Fault::ClearResetBit { old_value: control },
                };
                control = *value;
                Some(fault)
            }
            Request::OpenMemory { .. } => Some(Fault::OpenMemory),
            Request::ReadWord { .. } => {
                memory_reads += 1;
                Some(if memory_reads == 2 { Fault::ReadDhcsrAfterWrite } else { Fault::ReadDhcsr })
            }
            Request::WriteWord { .. } => Some(Fault::WriteDhcsr),
            Request::Flush => Some(Fault::Flush),
            Request::CloseMemory | Request::Sleep { .. } | Request::Report(_) => None,
        };
        let mut target = SimulatedTarget::new(vec![0x0000_0002], 0x10);
        target.live_control = true;
        target.fail_at = Some(index);
        let (outcome, _) = run(&mut target);
        match expected {
            Some(fault) => {
                failures += 1;
                assert_eq!(outcome, Outcome::Failed(fault), "request {} {:?}", index, request);
                assert_eq!(target.trace.len(), index + 1);
                assert_eq!(target.trace[..], requests[..index + 1]);
            }
            None => {
                assert_eq!(outcome, Outcome::DebugModeOn, "request {} {:?}", index, request);
                assert_eq!(target.trace, requests);
            }
        }
    }
    assert_eq!(control_writes, 3);
    assert_eq!(memory_reads, 3);
    assert_eq!(failures, 35);
}

#[test]
fn first_steps() {
    let mut unlock = Unlock::new();
    assert_eq!(debug_mode_on_an4835(&mut unlock, Event::Start), Step::Do(Request::Attach));
    assert_eq!(unlock.phase, Phase::Attaching);
    assert_eq!(debug_mode_on_an4835(&mut unlock, Event::Completed), Step::Do(Request::ResetTarget));
    assert_eq!(unlock.phase, Phase::ResettingTarget);
    assert_eq!(debug_mode_on_an4835(&mut unlock, Event::Completed), Step::Do(Request::OpenArmInterface));
    assert_eq!(debug_mode_on_an4835(&mut unlock, Event::Completed), Step::Do(Request::InitArmInterface));
    assert_eq!(
        debug_mode_on_an4835(&mut unlock, Event::Completed),
        Step::Do(Request::Report(Notice::Banner))
    );
    assert_eq!(debug_mode_on_an4835(&mut unlock, Event::Completed), Step::Do(READ_STATUS));
}

#[test]
fn procedure_begins_again_after_the_end() {
    let mut unlock = Unlock::new();
    debug_mode_on_an4835(&mut unlock, Event::Start);
    assert_eq!(
        debug_mode_on_an4835(&mut unlock, Event::Failed),
        Step::Finish(Outcome::Failed(Fault::Attach))
    );
    assert_eq!(unlock.phase, Phase::Idle);
    assert_eq!(debug_mode_on_an4835(&mut unlock, Event::Start), Step::Do(Request::Attach));
}

#[test]
fn halt_is_written_between_two_reads() {
    let mut unlock = Unlock { mdm_ap: snapshot(0x2, 0xC), phase: Phase::OpeningMemory };
    assert_eq!(debug_mode_on_an4835(&mut unlock, Event::Completed), Step::Do(READ_DHCSR));
    assert_eq!(debug_mode_on_an4835(&mut unlock, Event::Value(0x0100_0000)), Step::Do(WRITE_HALT));
    assert_eq!(unlock.phase, Phase::WritingDhcsr { was: 0x0100_0000 });
    assert_eq!(debug_mode_on_an4835(&mut unlock, Event::Completed), Step::Do(Request::Flush));
    assert_eq!(
        debug_mode_on_an4835(&mut unlock, Event::Completed),
        Step::Do(Request::Sleep { millis: 500 })
    );
    assert_eq!(debug_mode_on_an4835(&mut unlock, Event::Completed), Step::Do(READ_DHCSR));
    assert_eq!(
        debug_mode_on_an4835(&mut unlock, Event::Value(0x0003_0003)),
        Step::Do(Request::Report(Notice::DhcsrWritten { was: 0x0100_0000, now: 0x0003_0003 }))
    );
    assert_eq!(debug_mode_on_an4835(&mut unlock, Event::Completed), Step::Do(Request::CloseMemory));
    assert_eq!(debug_mode_on_an4835(&mut unlock, Event::Completed), Step::Do(READ_STATUS));
    assert_eq!(unlock.mdm_ap, snapshot(0x2, 0xC));
}

#[test]
fn longest_run_makes_154_requests() {
    let mut status = vec![0x0000_0008u32; 20];
    status.extend(vec![0x0000_0000u32; 21]);
    status.push(0x0000_0002);
    let mut target = SimulatedTarget::new(status, 0);
    let (outcome, _) = run(&mut target);
    assert_eq!(outcome, Outcome::DebugModeOn);
    assert_eq!(target.count(READ_STATUS), 1 + 20 + 22 + 1 + 1 + 3);
    assert_eq!(target.trace.len(), 154);
}

#[test]
fn secured_target_is_not_touched_when_accesses_fail() {
    let mut healthy = SimulatedTarget::new(vec![0x0000_0006], 0);
    let (outcome, _) = run(&mut healthy);
    assert_eq!(outcome, Outcome::Secured);
    for index in 0..healthy.trace.len() {
        let mut target = SimulatedTarget::new(vec![0x0000_0006], 0);
        target.fail_at = Some(index);
        let (outcome, _) = run(&mut target);
        assert_ne!(outcome, Outcome::DebugModeOn);
        assert!(target.control_writes().iter().all(|value| *value == 0x8));
        assert_eq!(target.count(Request::OpenMemory { port: 0 }), 0);
        assert_eq!(target.count(WRITE_HALT), 0);
    }
}

#[test]
fn ready_target_reaches_debug_mode() {
    for status in [0x0000_0002u32, 0x0000_0003, 0x0007_0003, 0xFFFF_FFF3, 0x8000_0012] {
        for control in [0x0u32, 0x8, 0x1F, 0xFFFF_FFFF] {
            let mut target = SimulatedTarget::new(vec![status], control);
            target.idr = control ^ status;
            let (outcome, unlock) = run(&mut target);
            assert_eq!(outcome, Outcome::DebugModeOn);
            assert_eq!(unlock.mdm_ap, snapshot(status, control));
            assert_eq!(target.control_writes(), vec![0x8, control | 0x4, control & !0x8]);
            assert_eq!(target.count(WRITE_HALT), 1);
            assert_eq!(target.trace.len(), 59);
        }
    }
}
