//! Field-by-field listings of the decoded registers and the differences
//! between two of them. They are shown to the user and decide nothing.

use vstd::prelude::*;
use crate::registers::{MdmApControl, MdmApStatus};

verus! {

/// A flag of the Status or of the Control register.
#[derive(Debug, Clone, Copy, PartialEq, Eq, Structural)]
pub enum Field {
    MassEraseAck,
    FlashReady,
    Security,
    SystemReset,
    HaltState,
    StopState,
    WaitState,
    EraseInProgress,
    DebugDisable,
    DebugRequest,
    SysResetRequest,
    CoreHold,
}

impl Field {
    /// The name under which the flag is reported.
    pub open spec fn spec_name(self) -> Seq<char> {
        match self {
            Field::MassEraseAck => "mass_erase_ack"@,
            Field::FlashReady => "flash_ready"@,
            Field::Security => "security"@,
            Field::SystemReset => "system_reset"@,
            Field::HaltState => "halt_state"@,
            Field::StopState => "stop_state"@,
            Field::WaitState => "wait_state"@,
            Field::EraseInProgress => "erase_in_progress"@,
            Field::DebugDisable => "debug_disable"@,
            Field::DebugRequest => "debug_request"@,
            Field::SysResetRequest => "sys_reset_request"@,
            Field::CoreHold => "core_hold"@,
        }
    }

    /// The name under which the flag is reported.
    pub fn name(&self) -> (name: &'static str)
        ensures
            name@ == self.spec_name(),
    {
        match self {
            Field::MassEraseAck => "mass_erase_ack",
            Field::FlashReady => "flash_ready",
            Field::Security => "security",
            Field::SystemReset => "system_reset",
            Field::HaltState => "halt_state",
            Field::StopState => "stop_state",
            Field::WaitState => "wait_state",
            Field::EraseInProgress => "erase_in_progress",
            Field::DebugDisable => "debug_disable",
            Field::DebugRequest => "debug_request",
            Field::SysResetRequest => "sys_reset_request",
            Field::CoreHold => "core_hold",
        }
    }
}

/// One flag and what it holds.
#[derive(Debug, Clone, Copy, PartialEq, Eq, Structural)]
pub struct FieldValue {
    pub field: Field,
    pub value: bool,
}

/// One flag that differs between two snapshots.
#[derive(Debug, Clone, Copy, PartialEq, Eq, Structural)]
pub struct FieldChange {
    pub field: Field,
    pub before: bool,
    pub after: bool,
}

/// Row `i` of `before` set against row `i` of `after`.
pub open spec fn paired(before: Seq<FieldValue>, after: Seq<FieldValue>) -> Seq<FieldChange> {
    Seq::new(
        before.len(),
        |i: int| FieldChange { field: before[i].field, before: before[i].value, after: after[i].value },
    )
}

/// The rows whose value is not the same in `before` and in `after`, in the
/// order of the rows. Both listings are of the same register.
pub open spec fn differences(before: Seq<FieldValue>, after: Seq<FieldValue>) -> Seq<FieldChange> {
    paired(before, after).filter(|change: FieldChange| change.before != change.after)
}

/// Compares two listings of one register row by row.
fn differing(before: &Vec<FieldValue>, after: &Vec<FieldValue>) -> (changes: Vec<FieldChange>)
    requires
        before.len() == after.len(),
    ensures
        changes@ == differences(before@, after@),
{
    let ghost all = paired(before@, after@);
    let ghost differs = |change: FieldChange| change.before != change.after;
    let mut changes: Vec<FieldChange> = Vec::new();
    let mut i: usize = 0;
    assert(all.take(0).filter(differs) =~= Seq::<FieldChange>::empty()) by {
        reveal(Seq::filter);
    }
    while i < before.len()
        invariant
            i <= before.len(),
            before.len() == after.len(),
            all == paired(before@, after@),
            differs == |change: FieldChange| change.before != change.after,
            changes@ == all.take(i as int).filter(differs),
        decreases before.len() - i,
    {
        let change = FieldChange { field: before[i].field, before: before[i].value, after: after[i].value };
        proof {
            assert(all.take(i + 1).drop_last() =~= all.take(i as int));
            reveal(Seq::filter);
        }
        if before[i].value != after[i].value {
            changes.push(change);
        }
        i += 1;
    }
    assert(all.take(i as int) =~= all);
    changes
}

impl MdmApStatus {
    /// The seven flags, in the order in which they are reported.
    pub open spec fn spec_rows(&self) -> Seq<FieldValue> {
        seq![
            FieldValue { field: Field::MassEraseAck, value: self.mass_erase_ack },
            FieldValue { field: Field::FlashReady, value: self.flash_ready },
            FieldValue { field: Field::Security, value: self.security },
            FieldValue { field: Field::SystemReset, value: self.system_reset },
            FieldValue { field: Field::HaltState, value: self.halt_state },
            FieldValue { field: Field::StopState, value: self.stop_state },
            FieldValue { field: Field::WaitState, value: self.wait_state },
        ]
    }

    /// The seven flags, in the order in which they are reported.
    pub fn rows(&self) -> (rows: Vec<FieldValue>)
        ensures
            rows@ == self.spec_rows(),
    {
        let mut rows: Vec<FieldValue> = Vec::new();
        rows.push(FieldValue { field: Field::MassEraseAck, value: self.mass_erase_ack });
        rows.push(FieldValue { field: Field::FlashReady, value: self.flash_ready });
        rows.push(FieldValue { field: Field::Security, value: self.security });
        rows.push(FieldValue { field: Field::SystemReset, value: self.system_reset });
        rows.push(FieldValue { field: Field::HaltState, value: self.halt_state });
        rows.push(FieldValue { field: Field::StopState, value: self.stop_state });
        rows.push(FieldValue { field: Field::WaitState, value: self.wait_state });
        rows
    }

    /// The flags that `other` holds otherwise than `self`, each with the value
    /// before and after. The raw word is not compared.
    pub fn compare(&self, other: &MdmApStatus) -> (changes: Vec<FieldChange>)
        ensures
            changes@ == differences(self.spec_rows(), other.spec_rows()),
    {
        let before = self.rows();
        let after = other.rows();
        differing(&before, &after)
    }
}

impl MdmApControl {
    /// The five flags, in the order in which they are reported.
    pub open spec fn spec_rows(&self) -> Seq<FieldValue> {
        seq![
            FieldValue { field: Field::EraseInProgress, value: self.erase_in_progress },
            FieldValue { field: Field::DebugDisable, value: self.debug_disable },
            FieldValue { field: Field::DebugRequest, value: self.debug_request },
            FieldValue { field: Field::SysResetRequest, value: self.sys_reset_request },
            FieldValue { field: Field::CoreHold, value: self.core_hold },
        ]
    }

    /// The five flags, in the order in which they are reported.
    pub fn rows(&self) -> (rows: Vec<FieldValue>)
        ensures
            rows@ == self.spec_rows(),
    {
        let mut rows: Vec<FieldValue> = Vec::new();
        rows.push(FieldValue { field: Field::EraseInProgress, value: self.erase_in_progress });
        rows.push(FieldValue { field: Field::DebugDisable, value: self.debug_disable });
        rows.push(FieldValue { field: Field::DebugRequest, value: self.debug_request });
        rows.push(FieldValue { field: Field::SysResetRequest, value: self.sys_reset_request });
        rows.push(FieldValue { field: Field::CoreHold, value: self.core_hold });
        rows
    }

    /// The flags that `other` holds otherwise than `self`, each with the value
    /// before and after. The raw word is not compared.
    pub fn compare(&self, other: &MdmApControl) -> (changes: Vec<FieldChange>)
        ensures
            changes@ == differences(self.spec_rows(), other.spec_rows()),
    {
        let before = self.rows();
        let after = other.rows();
        differing(&before, &after)
    }
}

/// The differences are the rows that differ and no others: every entry
/// holds two values that are not the same, and every row whose value is not
/// the same in both listings has its entry.
pub proof fn law_differences_are_the_rows_that_differ(before: Seq<FieldValue>, after: Seq<FieldValue>)
    ensures
        forall|i: int|
            0 <= i < differences(before, after).len() ==> (#[trigger] differences(before, after)[i]).before
                != differences(before, after)[i].after,
        forall|i: int|
            0 <= i < before.len() && before[i].value != after[i].value ==> differences(
                before,
                after,
            ).contains(#[trigger] paired(before, after)[i]),
        differences(before, after).len() <= before.len(),
{
    let differs = |change: FieldChange| change.before != change.after;
    let all = paired(before, after);
    all.lemma_filter_len(differs);
    assert forall|i: int| 0 <= i < differences(before, after).len() implies (#[trigger] differences(
        before,
        after,
    )[i]).before != differences(before, after)[i].after by {
        all.lemma_filter_pred(differs, i);
    }
    assert forall|i: int|
        0 <= i < before.len() && before[i].value != after[i].value implies differences(
        before,
        after,
    ).contains(#[trigger] paired(before, after)[i]) by {
        all.lemma_filter_contains(differs, i);
    }
}

/// A listing set against itself shows no difference.
pub proof fn law_same_rows_do_not_differ(rows: Seq<FieldValue>)
    ensures
        differences(rows, rows) == Seq::<FieldChange>::empty(),
{
    let differs = |change: FieldChange| change.before != change.after;
    let all = paired(rows, rows);
    if all.filter(differs).len() > 0 {
        let first = all.filter(differs)[0];
        all.lemma_filter_pred(differs, 0);
        all.lemma_filter_contains_rev(differs, first);
    }
}

} // verus!
