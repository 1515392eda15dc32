use mke_mdm_ap::diff::{Field, FieldChange, FieldValue};
use mke_mdm_ap::exchange::{Access, Event, Fault, Notice, Request, Step};
use mke_mdm_ap::mdm_ap::{
    idr_is_expected, FlashReady, MdmAP, Refresh, RegisterRead, ResetKeep, FLASH_POLL_LIMIT,
    RESET_POLL_INTERVAL_MS, RESET_POLL_LIMIT,
};
use mke_mdm_ap::registers::{
    MdmApControl, MdmApStatus, MKE_MDM_CONTROL_DBG_REQ_BIT, MKE_MDM_CONTROL_SYS_RESET_BIT,
};

const READ_STATUS: Request = Request::ReadAp { port: 1, offset: 0x00 };
const READ_CONTROL: Request = Request::ReadAp { port: 1, offset: 0x04 };
const READ_IDR: Request = Request::ReadAp { port: 1, offset: 0xFC };

/// A register interface that answers from a script and keeps what it was asked.
struct SimulatedPort {
    status: Vec<u32>,
    control: Vec<u32>,
    idr: u32,
    fail_at: Option<usize>,
    trace: Vec<Request>,
}

impl SimulatedPort {
    fn new(status: Vec<u32>, control: Vec<u32>) -> Self {
        SimulatedPort { status, control, idr: 0x001C_0020, fail_at: None, trace: Vec::new() }
    }

    fn count(&self, request: Request) -> usize {
        self.trace.iter().filter(|made| **made == request).count()
    }

    fn writes(&self) -> Vec<u32> {
        self.trace
            .iter()
            .filter_map(|made| match made {
                Request::WriteAp { port: 1, offset: 0x04, value } => Some(*value),
                _ => None,
            })
            .collect()
    }

    fn sleeps(&self) -> Vec<u64> {
        self.trace
            .iter()
            .filter_map(|made| match made {
                Request::Sleep { millis } => Some(*millis),
                _ => None,
            })
            .collect()
    }

    fn notices(&self) -> Vec<Notice> {
        self.trace
            .iter()
            .filter_map(|made| match made {
                Request::Report(notice) => Some(*notice),
                _ => None,
            })
            .collect()
    }

    fn word(script: &[u32], reads_before: usize) -> u32 {
        if script.is_empty() {
            0
        } else if reads_before < script.len() {
            script[reads_before]
        } else {
            script[script.len() - 1]
        }
    }

    fn answer(&mut self, request: Request) -> Event {
        let index = self.trace.len();
        let reads_before = self.count(request);
        self.trace.push(request);
        if self.fail_at == Some(index) {
            return Event::Failed;
        }
        match request {
            Request::ReadAp { port: 1, offset: 0x00 } => Event::Value(Self::word(&self.status, reads_before)),
            Request::ReadAp { port: 1, offset: 0x04 } => Event::Value(Self::word(&self.control, reads_before)),
            Request::ReadAp { port: 1, offset: 0xFC } => Event::Value(self.idr),
            Request::ReadAp { .. } => Event::Failed,
            _ => Event::Completed,
        }
    }
}

fn run_reset_keep(mdm_ap: &mut MdmAP, port: &mut SimulatedPort) -> Result<(), Fault> {
    let mut progress = ResetKeep::Idle;
    let mut event = Event::Start;
    loop {
        match mdm_ap.mdm_ap_reset_keep(&mut progress, event) {
            Step::Do(request) => event = port.answer(request),
            Step::Finish(result) => {
                assert_eq!(progress, ResetKeep::Idle);
                return result;
            }
        }
    }
}

fn run_flash_ready(mdm_ap: &mut MdmAP, port: &mut SimulatedPort) -> Result<(), Fault> {
    let mut progress = FlashReady::Idle;
    let mut event = Event::Start;
    loop {
        match mdm_ap.is_mdm_flash_ready(&mut progress, event) {
            Step::Do(request) => event = port.answer(request),
            Step::Finish(result) => {
                assert_eq!(progress, FlashReady::Idle);
                return result;
            }
        }
    }
}

fn run_refresh(mdm_ap: &mut MdmAP, print: bool, port: &mut SimulatedPort) -> Result<MdmAP, Fault> {
    let mut progress = Refresh::Idle;
    let mut event = Event::Start;
    loop {
        match mdm_ap.refresh_mdm_ap(&mut progress, print, event) {
            Step::Do(request) => event = port.answer(request),
            Step::Finish(result) => {
                assert_eq!(progress, Refresh::Idle);
                return result;
            }
        }
    }
}

fn snapshot(status: u32, control: u32) -> MdmAP {
    MdmAP { status: MdmApStatus::parse_from_u32(status), control: MdmApControl::parse_from_u32(control) }
}

#[test]
fn default_snapshot_is_all_zero() {
    assert_eq!(MdmAP::default(), snapshot(0, 0));
}

#[test]
fn read_registers_without_notice() {
    let mut progress = RegisterRead::Idle;
    assert_eq!(MdmAP::read_mdm_ap_register(&mut progress, false, Event::Start), Step::Do(READ_STATUS));
    assert_eq!(progress, RegisterRead::Status);
    assert_eq!(
        MdmAP::read_mdm_ap_register(&mut progress, false, Event::Value(0x0000_0002)),
        Step::Do(READ_CONTROL)
    );
    assert_eq!(progress, RegisterRead::Control { status: 0x0000_0002 });
    assert_eq!(
        MdmAP::read_mdm_ap_register(&mut progress, false, Event::Value(0x0000_0008)),
        Step::Finish(Ok(snapshot(0x0000_0002, 0x0000_0008)))
    );
    assert_eq!(progress, RegisterRead::Idle);
}

#[test]
fn read_registers_with_notice() {
    let mut progress = RegisterRead::Idle;
    assert_eq!(MdmAP::read_mdm_ap_register(&mut progress, true, Event::Start), Step::Do(READ_STATUS));
    assert_eq!(MdmAP::read_mdm_ap_register(&mut progress, true, Event::Value(6)), Step::Do(READ_CONTROL));
    assert_eq!(
        MdmAP::read_mdm_ap_register(&mut progress, true, Event::Value(4)),
        Step::Do(Request::Report(Notice::Registers { status: 6, control: 4 }))
    );
    assert_eq!(progress, RegisterRead::Notice { status: 6, control: 4 });
    assert_eq!(
        MdmAP::read_mdm_ap_register(&mut progress, true, Event::Completed),
        Step::Finish(Ok(snapshot(6, 4)))
    );
    assert_eq!(progress, RegisterRead::Idle);
}

#[test]
fn read_registers_status_read_fails() {
    let mut progress = RegisterRead::Idle;
    MdmAP::read_mdm_ap_register(&mut progress, false, Event::Start);
    assert_eq!(
        MdmAP::read_mdm_ap_register(&mut progress, false, Event::Failed),
        Step::Finish(Err(Fault::ReadRegister))
    );
    assert_eq!(progress, RegisterRead::Idle);
}

#[test]
fn read_registers_control_read_fails() {
    let mut progress = RegisterRead::Idle;
    MdmAP::read_mdm_ap_register(&mut progress, true, Event::Start);
    MdmAP::read_mdm_ap_register(&mut progress, true, Event::Value(1));
    assert_eq!(
        MdmAP::read_mdm_ap_register(&mut progress, true, Event::Failed),
        Step::Finish(Err(Fault::ReadRegister))
    );
    assert_eq!(progress, RegisterRead::Idle);
}

#[test]
fn read_registers_answer_without_a_word_is_a_failed_read() {
    let mut progress = RegisterRead::Status;
    assert_eq!(
        MdmAP::read_mdm_ap_register(&mut progress, false, Event::Completed),
        Step::Finish(Err(Fault::ReadRegister))
    );
    let mut progress = RegisterRead::Control { status: 0 };
    assert_eq!(
        MdmAP::read_mdm_ap_register(&mut progress, false, Event::Start),
        Step::Finish(Err(Fault::ReadRegister))
    );
}

#[test]
fn read_registers_begins_again_after_the_end() {
    let mut progress = RegisterRead::Idle;
    MdmAP::read_mdm_ap_register(&mut progress, false, Event::Start);
    MdmAP::read_mdm_ap_register(&mut progress, false, Event::Value(1));
    MdmAP::read_mdm_ap_register(&mut progress, false, Event::Value(2));
    assert_eq!(MdmAP::read_mdm_ap_register(&mut progress, false, Event::Start), Step::Do(READ_STATUS));
}

#[test]
fn write_control_bit_ors_into_the_snapshot() {
    let mdm_ap = snapshot(0, 0b0000_1000);
    let mut access = Access::Idle;
    assert_eq!(
        mdm_ap.write_mdm_ap_control_bit(&mut access, MKE_MDM_CONTROL_DBG_REQ_BIT, Event::Start),
        Step::Do(Request::WriteAp { port: 1, offset: 0x04, value: 0b0000_1100 })
    );
    assert_eq!(access, Access::Pending);
    assert_eq!(
        mdm_ap.write_mdm_ap_control_bit(&mut access, MKE_MDM_CONTROL_DBG_REQ_BIT, Event::Completed),
        Step::Finish(Ok(()))
    );
    assert_eq!(access, Access::Idle);
    assert_eq!(mdm_ap, snapshot(0, 0b0000_1000));
}

#[test]
fn write_control_bit_fails() {
    let mdm_ap = snapshot(0, 0x10);
    let mut access = Access::Idle;
    mdm_ap.write_mdm_ap_control_bit(&mut access, 0x4, Event::Start);
    assert_eq!(
        mdm_ap.write_mdm_ap_control_bit(&mut access, 0x4, Event::Failed),
        Step::Finish(Err(Fault::WriteControlBit { bit: 0x4, old_value: 0x10 }))
    );
    assert_eq!(access, Access::Idle);
}

#[test]
fn write_control_answer_with_a_word_is_a_failed_write() {
    let mdm_ap = snapshot(0, 0);
    let mut access = Access::Pending;
    assert_eq!(
        mdm_ap.write_mdm_ap_control_new(&mut access, 0x8, Event::Value(3)),
        Step::Finish(Err(Fault::WriteControlNew { value: 0x8, old_value: 0 }))
    );
}

#[test]
fn write_control_clear_bit_masks_the_snapshot() {
    let mdm_ap = snapshot(0, 0b0001_1100);
    let mut access = Access::Idle;
    assert_eq!(
        mdm_ap.write_mdm_ap_control_clear_bit(&mut access, 0b0000_1100, Event::Start),
        Step::Do(Request::WriteAp { port: 1, offset: 0x04, value: 0b0001_0000 })
    );
    assert_eq!(
        mdm_ap.write_mdm_ap_control_clear_bit(&mut access, 0b0000_1100, Event::Completed),
        Step::Finish(Ok(()))
    );
}

#[test]
fn write_control_clear_bit_fails() {
    let mdm_ap = snapshot(0, 0xC);
    let mut access = Access::Idle;
    mdm_ap.write_mdm_ap_control_clear_bit(&mut access, 0x8, Event::Start);
    assert_eq!(
        mdm_ap.write_mdm_ap_control_clear_bit(&mut access, 0x8, Event::Failed),
        Step::Finish(Err(Fault::WriteControlBit { bit: 0x8, old_value: 0xC }))
    );
}

#[test]
fn write_control_new_overwrites() {
    let mdm_ap = snapshot(0, 0xFFFF_FFFF);
    let mut access = Access::Idle;
    assert_eq!(
        mdm_ap.write_mdm_ap_control_new(&mut access, 0x8, Event::Start),
        Step::Do(Request::WriteAp { port: 1, offset: 0x04, value: 0x8 })
    );
    assert_eq!(mdm_ap.write_mdm_ap_control_new(&mut access, 0x8, Event::Completed), Step::Finish(Ok(())));
}

#[test]
fn write_control_new_fails() {
    let mdm_ap = snapshot(0, 0x3);
    let mut access = Access::Idle;
    mdm_ap.write_mdm_ap_control_new(&mut access, 0x8, Event::Start);
    assert_eq!(
        mdm_ap.write_mdm_ap_control_new(&mut access, 0x8, Event::Failed),
        Step::Finish(Err(Fault::WriteControlNew { value: 0x8, old_value: 0x3 }))
    );
}

#[test]
fn set_then_clear_restores_the_control_word() {
    let before: u32 = 0b0001_0001;
    let mask: u32 = MKE_MDM_CONTROL_DBG_REQ_BIT;
    let mdm_ap = snapshot(0, before);
    let mut access = Access::Idle;
    let set = mdm_ap.write_mdm_ap_control_bit(&mut access, mask, Event::Start);
    assert_eq!(set, Step::Do(Request::WriteAp { port: 1, offset: 0x04, value: before | mask }));
    mdm_ap.write_mdm_ap_control_bit(&mut access, mask, Event::Completed);
    let clear = mdm_ap.write_mdm_ap_control_clear_bit(&mut access, mask, Event::Start);
    assert_eq!(clear, Step::Do(Request::WriteAp { port: 1, offset: 0x04, value: before }));
    let refreshed = snapshot(0, before | mask);
    let mut access = Access::Idle;
    let clear = refreshed.write_mdm_ap_control_clear_bit(&mut access, mask, Event::Start);
    assert_eq!(clear, Step::Do(Request::WriteAp { port: 1, offset: 0x04, value: before }));
}

#[test]
fn set_then_clear_of_a_bit_that_was_set_clears_it() {
    let mdm_ap = snapshot(0, 0x4);
    let mut access = Access::Idle;
    assert_eq!(
        mdm_ap.write_mdm_ap_control_bit(&mut access, 0x4, Event::Start),
        Step::Do(Request::WriteAp { port: 1, offset: 0x04, value: 0x4 })
    );
    let mut access = Access::Idle;
    assert_eq!(
        mdm_ap.write_mdm_ap_control_clear_bit(&mut access, 0x4, Event::Start),
        Step::Do(Request::WriteAp { port: 1, offset: 0x04, value: 0x0 })
    );
}

#[test]
fn clear_reset_bit_clears_bit_three() {
    let mdm_ap = snapshot(0, 0b0000_1100);
    let mut access = Access::Idle;
    assert_eq!(
        mdm_ap.mdm_ap_clear_reset_bit(&mut access, Event::Start),
        Step::Do(Request::WriteAp { port: 1, offset: 0x04, value: 0b0000_0100 })
    );
    assert_eq!(mdm_ap.mdm_ap_clear_reset_bit(&mut access, Event::Completed), Step::Finish(Ok(())));
    let mut access = Access::Pending;
    assert_eq!(
        mdm_ap.mdm_ap_clear_reset_bit(&mut access, Event::Failed),
        Step::Finish(Err(Fault::WriteControlBit { bit: MKE_MDM_CONTROL_SYS_RESET_BIT, old_value: 0b0000_1100 }))
    );
}

#[test]
fn read_idr_gives_the_word() {
    let mdm_ap = snapshot(0, 0);
    let mut access = Access::Idle;
    assert_eq!(mdm_ap.read_mdm_ap_idr(&mut access, Event::Start), Step::Do(READ_IDR));
    assert_eq!(
        mdm_ap.read_mdm_ap_idr(&mut access, Event::Value(0x001C_0020)),
        Step::Finish(Ok(0x001C_0020))
    );
    assert_eq!(access, Access::Idle);
}

#[test]
fn read_idr_fails() {
    let mdm_ap = snapshot(0, 0);
    let mut access = Access::Idle;
    mdm_ap.read_mdm_ap_idr(&mut access, Event::Start);
    assert_eq!(mdm_ap.read_mdm_ap_idr(&mut access, Event::Failed), Step::Finish(Err(Fault::ReadRegister)));
}

#[test]
fn idr_expected_value() {
    assert!(idr_is_expected(0x001C_0020));
    assert!(!idr_is_expected(0x001C_0021));
    assert!(!idr_is_expected(0));
}

#[test]
fn refresh_without_notice_replaces_the_snapshot() {
    let mut mdm_ap = snapshot(0, 0);
    let mut port = SimulatedPort::new(vec![0x0001_0002], vec![0x0000_0008]);
    let fresh = run_refresh(&mut mdm_ap, false, &mut port);
    assert_eq!(fresh, Ok(snapshot(0x0001_0002, 0x0000_0008)));
    assert_eq!(mdm_ap, snapshot(0x0001_0002, 0x0000_0008));
    assert_eq!(port.trace, vec![READ_STATUS, READ_CONTROL]);
}

#[test]
fn refresh_with_notice_shows_words_and_flags() {
    let mut mdm_ap = snapshot(0, 0);
    let mut port = SimulatedPort::new(vec![0x2], vec![0x8]);
    let fresh = run_refresh(&mut mdm_ap, true, &mut port);
    assert_eq!(fresh, Ok(snapshot(0x2, 0x8)));
    assert_eq!(mdm_ap, snapshot(0x2, 0x8));
    assert_eq!(
        port.trace,
        vec![
            READ_STATUS,
            READ_CONTROL,
            Request::Report(Notice::Registers { status: 0x2, control: 0x8 }),
            Request::Report(Notice::Snapshot(snapshot(0x2, 0x8))),
        ]
    );
}

#[test]
fn refresh_keeps_the_old_snapshot_until_the_notice_is_out() {
    let mut mdm_ap = snapshot(1, 1);
    let mut progress = Refresh::Idle;
    mdm_ap.refresh_mdm_ap(&mut progress, true, Event::Start);
    mdm_ap.refresh_mdm_ap(&mut progress, true, Event::Value(2));
    mdm_ap.refresh_mdm_ap(&mut progress, true, Event::Value(4));
    let step = mdm_ap.refresh_mdm_ap(&mut progress, true, Event::Completed);
    assert_eq!(step, Step::Do(Request::Report(Notice::Snapshot(snapshot(2, 4)))));
    assert_eq!(progress, Refresh::Notice { fresh: snapshot(2, 4) });
    assert_eq!(mdm_ap, snapshot(1, 1));
    let step = mdm_ap.refresh_mdm_ap(&mut progress, true, Event::Completed);
    assert_eq!(step, Step::Finish(Ok(snapshot(2, 4))));
    assert_eq!(mdm_ap, snapshot(2, 4));
}

#[test]
fn refresh_that_fails_leaves_the_snapshot() {
    let mut mdm_ap = snapshot(0x2, 0x8);
    let mut port = SimulatedPort::new(vec![0xF], vec![0xF]);
    port.fail_at = Some(1);
    assert_eq!(run_refresh(&mut mdm_ap, true, &mut port), Err(Fault::ReadRegister));
    assert_eq!(mdm_ap, snapshot(0x2, 0x8));
    assert_eq!(port.trace, vec![READ_STATUS, READ_CONTROL]);
}

#[test]
fn refresh_and_compare_shows_the_changes() {
    let mut mdm_ap = snapshot(0x2, 0x8);
    let mut port = SimulatedPort::new(vec![0x2], vec![0xC]);
    let mut progress = Refresh::Idle;
    let mut event = Event::Start;
    let fresh = loop {
        match mdm_ap.refresh_and_compare_mdm_ap(&mut progress, " DBG_REQ_BIT set ", event) {
            Step::Do(request) => event = port.answer(request),
            Step::Finish(result) => break result,
        }
    };
    assert_eq!(fresh, Ok(snapshot(0x2, 0xC)));
    assert_eq!(mdm_ap, snapshot(0x2, 0xC));
    assert_eq!(
        port.trace,
        vec![
            READ_STATUS,
            READ_CONTROL,
            Request::Report(Notice::Registers { status: 0x2, control: 0xC }),
            Request::Report(Notice::Changes {
                reason: " DBG_REQ_BIT set ",
                before: snapshot(0x2, 0x8),
                after: snapshot(0x2, 0xC),
            }),
        ]
    );
}

#[test]
fn refresh_and_compare_that_fails_leaves_the_snapshot() {
    let mut mdm_ap = snapshot(0x2, 0x8);
    let mut progress = Refresh::Idle;
    mdm_ap.refresh_and_compare_mdm_ap(&mut progress, "why", Event::Start);
    let step = mdm_ap.refresh_and_compare_mdm_ap(&mut progress, "why", Event::Failed);
    assert_eq!(step, Step::Finish(Err(Fault::ReadRegister)));
    assert_eq!(progress, Refresh::Idle);
    assert_eq!(mdm_ap, snapshot(0x2, 0x8));
}

#[test]
fn compare_snapshots() {
    let before = snapshot(0x0000_0008, 0x0000_0008);
    let after = snapshot(0x0001_0002, 0x0000_000C);
    let changes = before.compare(&after);
    assert_eq!(
        changes.status,
        vec![
            FieldChange { field: Field::FlashReady, before: false, after: true },
            FieldChange { field: Field::SystemReset, before: true, after: false },
            FieldChange { field: Field::HaltState, before: false, after: true },
        ]
    );
    assert_eq!(changes.control, vec![FieldChange { field: Field::DebugRequest, before: false, after: true }]);
    let same = before.compare(&before);
    assert!(same.status.is_empty());
    assert!(same.control.is_empty());
}

#[test]
fn print_lists_status_then_control() {
    let rows = snapshot(0x0000_0002, 0x0000_0010).print();
    assert_eq!(
        rows,
        vec![
            FieldValue { field: Field::MassEraseAck, value: false },
            FieldValue { field: Field::FlashReady, value: true },
            FieldValue { field: Field::Security, value: false },
            FieldValue { field: Field::SystemReset, value: false },
            FieldValue { field: Field::HaltState, value: false },
            FieldValue { field: Field::StopState, value: false },
            FieldValue { field: Field::WaitState, value: false },
            FieldValue { field: Field::EraseInProgress, value: false },
            FieldValue { field: Field::DebugDisable, value: false },
            FieldValue { field: Field::DebugRequest, value: false },
            FieldValue { field: Field::SysResetRequest, value: false },
            FieldValue { field: Field::CoreHold, value: true },
        ]
    );
}

#[test]
fn poll_constants() {
    assert_eq!(RESET_POLL_LIMIT, 20);
    assert_eq!(RESET_POLL_INTERVAL_MS, 1);
    assert_eq!(FLASH_POLL_LIMIT, 20);
}

#[test]
fn reset_keep_succeeds_after_n_polls() {
    for n in 0..20usize {
        let mut status = vec![0x0000_000Au32; n];
        status.push(0x0000_0002);
        status.push(0x0000_000A);
        let mut port = SimulatedPort::new(status, vec![0x8]);
        let mut mdm_ap = snapshot(0, 0x17);
        assert_eq!(run_reset_keep(&mut mdm_ap, &mut port), Ok(()));
        assert_eq!(port.count(READ_STATUS), n + 1);
        assert_eq!(port.count(READ_CONTROL), n + 1);
        assert_eq!(port.writes(), vec![MKE_MDM_CONTROL_SYS_RESET_BIT]);
        assert_eq!(port.sleeps(), vec![1u64; n + 1]);
        assert_eq!(port.notices(), vec![Notice::ResetAsserted]);
        assert_eq!(mdm_ap, snapshot(0x0000_0002, 0x8));
        assert_eq!(port.trace[0], Request::WriteAp { port: 1, offset: 0x04, value: 0x8 });
        assert_eq!(port.trace[1], Request::Sleep { millis: 1 });
        assert_eq!(port.trace[2], READ_STATUS);
        assert_eq!(port.trace[3], READ_CONTROL);
        assert_eq!(port.trace.len(), 1 + 3 * (n + 1) + 1);
    }
}

#[test]
fn reset_keep_times_out_after_twenty_polls() {
    let mut port = SimulatedPort::new(vec![0x0000_0008], vec![0x8]);
    let mut mdm_ap = snapshot(0, 0);
    assert_eq!(run_reset_keep(&mut mdm_ap, &mut port), Err(Fault::ResetTimeout));
    assert_eq!(port.count(READ_STATUS), 20);
    assert_eq!(port.count(READ_CONTROL), 20);
    assert_eq!(port.sleeps(), vec![1u64; 20]);
    assert_eq!(port.writes(), vec![0x8]);
    assert_eq!(port.notices(), vec![]);
    assert_eq!(port.trace.len(), 61);
    assert_eq!(mdm_ap, snapshot(0x8, 0x8));
}

#[test]
fn reset_keep_found_by_the_twenty_first_read_is_too_late() {
    let mut status = vec![0x8u32; 20];
    status.push(0x0);
    let mut port = SimulatedPort::new(status, vec![0x8]);
    let mut mdm_ap = snapshot(0, 0);
    assert_eq!(run_reset_keep(&mut mdm_ap, &mut port), Err(Fault::ResetTimeout));
    assert_eq!(port.count(READ_STATUS), 20);
}

#[test]
fn reset_keep_drops_the_other_control_bits() {
    let mut mdm_ap = snapshot(0, 0xFFFF_FFFF);
    let mut progress = ResetKeep::Idle;
    assert_eq!(
        mdm_ap.mdm_ap_reset_keep(&mut progress, Event::Start),
        Step::Do(Request::WriteAp { port: 1, offset: 0x04, value: 0x0000_0008 })
    );
    assert_eq!(progress, ResetKeep::Requesting(Access::Pending));
}

#[test]
fn reset_keep_write_fails() {
    let mut port = SimulatedPort::new(vec![0], vec![0]);
    port.fail_at = Some(0);
    let mut mdm_ap = snapshot(0x2, 0x14);
    assert_eq!(
        run_reset_keep(&mut mdm_ap, &mut port),
        Err(Fault::WriteControlNew { value: 0x8, old_value: 0x14 })
    );
    assert_eq!(port.trace.len(), 1);
    assert_eq!(mdm_ap, snapshot(0x2, 0x14));
}

#[test]
fn reset_keep_read_fails_in_a_poll() {
    let mut port = SimulatedPort::new(vec![0x8], vec![0x8]);
    port.fail_at = Some(1 + 3 * 4 + 2);
    let mut mdm_ap = snapshot(0, 0);
    assert_eq!(run_reset_keep(&mut mdm_ap, &mut port), Err(Fault::ReadRegister));
    assert_eq!(port.count(READ_STATUS), 5);
    assert_eq!(port.count(READ_CONTROL), 5);
    assert_eq!(mdm_ap, snapshot(0x8, 0x8));
}

#[test]
fn reset_keep_steps_of_one_poll() {
    let mut mdm_ap = snapshot(0, 0);
    let mut progress = ResetKeep::Waiting { polls: 19 };
    assert_eq!(mdm_ap.mdm_ap_reset_keep(&mut progress, Event::Completed), Step::Do(READ_STATUS));
    assert_eq!(mdm_ap.mdm_ap_reset_keep(&mut progress, Event::Value(0x8)), Step::Do(READ_CONTROL));
    assert_eq!(
        mdm_ap.mdm_ap_reset_keep(&mut progress, Event::Value(0x8)),
        Step::Finish(Err(Fault::ResetTimeout))
    );
    let mut progress = ResetKeep::Waiting { polls: 18 };
    mdm_ap.mdm_ap_reset_keep(&mut progress, Event::Completed);
    mdm_ap.mdm_ap_reset_keep(&mut progress, Event::Value(0x8));
    assert_eq!(
        mdm_ap.mdm_ap_reset_keep(&mut progress, Event::Value(0x8)),
        Step::Do(Request::Sleep { millis: 1 })
    );
    assert_eq!(progress, ResetKeep::Waiting { polls: 19 });
    let mut progress = ResetKeep::Waiting { polls: 255 };
    mdm_ap.mdm_ap_reset_keep(&mut progress, Event::Completed);
    mdm_ap.mdm_ap_reset_keep(&mut progress, Event::Value(0x8));
    assert_eq!(
        mdm_ap.mdm_ap_reset_keep(&mut progress, Event::Value(0x8)),
        Step::Finish(Err(Fault::ResetTimeout))
    );
}

#[test]
fn flash_ready_never_ready_fails_after_twenty_polls() {
    let mut port = SimulatedPort::new(vec![0x0000_0000], vec![0x8]);
    let mut mdm_ap = snapshot(0, 0);
    assert_eq!(run_flash_ready(&mut mdm_ap, &mut port), Err(Fault::FlashNotReady));
    assert_eq!(port.count(READ_STATUS), 22);
    assert_eq!(port.count(READ_CONTROL), 22);
    assert_eq!(port.sleeps(), vec![]);
    assert_eq!(port.writes(), vec![]);
    assert_eq!(
        port.notices(),
        vec![
            Notice::Registers { status: 0, control: 0x8 },
            Notice::Snapshot(snapshot(0, 0x8)),
            Notice::WaitingFlashReady,
            Notice::Registers { status: 0, control: 0x8 },
            Notice::Snapshot(snapshot(0, 0x8)),
        ]
    );
    assert_eq!(port.trace.len(), 44 + 5);
}

#[test]
fn flash_ready_succeeds_after_n_polls() {
    for n in 0..20usize {
        let mut status = vec![0x0000_0000u32; n + 1];
        status.push(0x0000_0002);
        let mut port = SimulatedPort::new(status, vec![0x8]);
        let mut mdm_ap = snapshot(0, 0);
        assert_eq!(run_flash_ready(&mut mdm_ap, &mut port), Ok(()));
        assert_eq!(port.count(READ_STATUS), n + 3);
        assert_eq!(port.count(READ_CONTROL), n + 3);
        assert_eq!(port.sleeps(), vec![]);
        assert_eq!(
            port.notices(),
            vec![
                Notice::Registers { status: 0, control: 0x8 },
                Notice::Snapshot(snapshot(0, 0x8)),
                Notice::WaitingFlashReady,
                Notice::FlashReady,
                Notice::Registers { status: 2, control: 0x8 },
                Notice::Snapshot(snapshot(2, 0x8)),
            ]
        );
        assert_eq!(mdm_ap, snapshot(2, 0x8));
    }
}

#[test]
fn flash_ready_in_the_first_refresh_only_does_not_count() {
    let mut status = vec![0x2u32];
    status.push(0x0);
    let mut port = SimulatedPort::new(status, vec![0]);
    let mut mdm_ap = snapshot(0, 0);
    assert_eq!(run_flash_ready(&mut mdm_ap, &mut port), Err(Fault::FlashNotReady));
    assert_eq!(port.count(READ_STATUS), 22);
}

#[test]
fn flash_ready_read_fails_in_the_last_refresh() {
    let mut port = SimulatedPort::new(vec![0x2], vec![0]);
    // 4 requests of the first refresh, the notice, 2 reads of the poll, the notice
    port.fail_at = Some(8);
    let mut mdm_ap = snapshot(0, 0);
    assert_eq!(run_flash_ready(&mut mdm_ap, &mut port), Err(Fault::ReadRegister));
    assert_eq!(port.count(READ_STATUS), 3);
    assert_eq!(port.count(READ_CONTROL), 2);
}

#[test]
fn flash_ready_read_fails_in_the_first_refresh() {
    let mut port = SimulatedPort::new(vec![0x2], vec![0]);
    port.fail_at = Some(0);
    let mut mdm_ap = snapshot(0x4, 0x8);
    assert_eq!(run_flash_ready(&mut mdm_ap, &mut port), Err(Fault::ReadRegister));
    assert_eq!(port.trace, vec![READ_STATUS]);
    assert_eq!(mdm_ap, snapshot(0x4, 0x8));
}

#[test]
fn reset_keep_longest_run_makes_62_requests() {
    let mut status = vec![0x8u32; 19];
    status.push(0x0);
    let mut port = SimulatedPort::new(status, vec![0x8]);
    let mut mdm_ap = snapshot(0, 0);
    assert_eq!(run_reset_keep(&mut mdm_ap, &mut port), Ok(()));
    assert_eq!(port.trace.len(), 62);
}

#[test]
fn flash_ready_longest_run_makes_50_requests() {
    let mut status = vec![0x0u32; 20];
    status.push(0x2);
    let mut port = SimulatedPort::new(status, vec![0x8]);
    let mut mdm_ap = snapshot(0, 0);
    assert_eq!(run_flash_ready(&mut mdm_ap, &mut port), Ok(()));
    assert_eq!(port.trace.len(), 50);
}
