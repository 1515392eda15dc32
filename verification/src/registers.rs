//! The 32-bit Status and Control registers of the MDM-AP and their decoded views.

use vstd::prelude::*;

verus! {

/// Access port of the default memory interface.
pub const MKE_DEFAULT_MEM_AP: u8 = 0;

/// Access port of the miscellaneous debug module (MDM).
pub const MKE_MDM_AP_PORT: u8 = 1;

/// Offset of the Status register within the MDM access port.
pub const MKE_MDM_STATUS: u8 = 0x00;

pub const MKE_MDM_STATUS_FLASH_MASS_ERASE_ACK_BIT: u32 = 0b0000_0001;

pub const MKE_MDM_STATUS_FLASH_READY_BIT: u32 = 0b0000_0010;

pub const MKE_MDM_STATUS_SYSTEM_SECURITY_BIT: u32 = 0b0000_0100;

pub const MKE_MDM_STATUS_SYSTEM_RESET_BIT: u32 = 0b0000_1000;

/// Offset of the Control register within the MDM access port.
pub const MKE_MDM_CONTROL: u8 = 0x04;

pub const MKE_MDM_CONTROL_FLASH_MASS_ERASE_BIT: u32 = 0b0000_0001;

pub const MKE_MDM_CONTROL_DBG_DIS_BIT: u32 = 0b0000_0010;

pub const MKE_MDM_CONTROL_DBG_REQ_BIT: u32 = 0b0000_0100;

pub const MKE_MDM_CONTROL_SYS_RESET_BIT: u32 = 0b0000_1000;

pub const MKE_MDM_CONTROL_CORE_HOLD_BIT: u32 = 0b0001_0000;

/// Offset of the identification register within the MDM access port.
pub const MKE_MDM_IDR_REG: u8 = 0xFC;

/// The value the identification register always reads on this family.
pub const IDR_REG_CHECK_VALUE: u32 = 0x001C_0020;

/// Whether bit `bit` of byte `byte` of `word` is set; byte 0 is the least
/// significant one.
pub open spec fn bit_of_byte(word: u32, byte: u32, bit: u32) -> bool {
    (word >> (8 * byte + bit) as u32) & 1 == 1
}

/// Decoded view of the Status register.
#[derive(Debug, Clone, Copy, PartialEq, Eq, Structural)]
pub struct MdmApStatus {
    /// Set once the flash control logic has started a mass erase.
    pub mass_erase_ack: bool,
    /// The flash is ready.
    pub flash_ready: bool,
    /// The device is secured.
    pub security: bool,
    /// `false` while the system is held in reset, `true` when it is not.
    pub system_reset: bool,
    /// The core is halted.
    pub halt_state: bool,
    /// The core is in stop mode.
    pub stop_state: bool,
    /// The core is in wait mode.
    pub wait_state: bool,
    /// The register as it was read.
    pub value: u32,
}

impl MdmApStatus {
    /// What a Status register holding `word` decodes to: byte 0 carries the
    /// first four flags in its bits 0 to 3, byte 2 carries the halt, stop and
    /// wait flags in its bits 0 to 2. All other bits are ignored.
    pub open spec fn decoded(word: u32) -> MdmApStatus {
        MdmApStatus {
            mass_erase_ack: bit_of_byte(word, 0, 0),
            flash_ready: bit_of_byte(word, 0, 1),
            security: bit_of_byte(word, 0, 2),
            system_reset: bit_of_byte(word, 0, 3),
            halt_state: bit_of_byte(word, 2, 0),
            stop_state: bit_of_byte(word, 2, 1),
            wait_state: bit_of_byte(word, 2, 2),
            value: word,
        }
    }

    /// Every flag equals its bit of `value`.
    pub open spec fn wf(&self) -> bool {
        *self == Self::decoded(self.value)
    }

    /// Decodes a Status register word. Total: every word decodes.
    pub fn parse_from_u32(status_lword: u32) -> (status: MdmApStatus)
        ensures
            status == Self::decoded(status_lword),
            status.wf(),
    {
        let low: u32 = status_lword & 0xFF;
        let high: u32 = (status_lword >> 16) & 0xFF;
        assert(low <= 0xFF && high <= 0xFF) by (bit_vector)
            requires
                low == status_lword & 0xFF,
                high == (status_lword >> 16) & 0xFF,
        ;
        let status_byte0: u8 = low as u8;
        let status_byte2: u8 = high as u8;
        assert({
            &&& status_byte0 & 0b0000_0001 != 0 <==> bit_of_byte(status_lword, 0, 0)
            &&& status_byte0 & 0b0000_0010 != 0 <==> bit_of_byte(status_lword, 0, 1)
            &&& status_byte0 & 0b0000_0100 != 0 <==> bit_of_byte(status_lword, 0, 2)
            &&& status_byte0 & 0b0000_1000 != 0 <==> bit_of_byte(status_lword, 0, 3)
            &&& status_byte2 & 0b0000_0001 != 0 <==> bit_of_byte(status_lword, 2, 0)
            &&& status_byte2 & 0b0000_0010 != 0 <==> bit_of_byte(status_lword, 2, 1)
            &&& status_byte2 & 0b0000_0100 != 0 <==> bit_of_byte(status_lword, 2, 2)
        }) by (bit_vector)
            requires
                status_byte0 == (status_lword & 0xFF) as u8,
                status_byte2 == ((status_lword >> 16) & 0xFF) as u8,
        ;
        MdmApStatus {
            mass_erase_ack: status_byte0 & 0b0000_0001 != 0,
            flash_ready: status_byte0 & 0b0000_0010 != 0,
            security: status_byte0 & 0b0000_0100 != 0,
            system_reset: status_byte0 & 0b0000_1000 != 0,
            halt_state: status_byte2 & 0b0000_0001 != 0,
            stop_state: status_byte2 & 0b0000_0010 != 0,
            wait_state: status_byte2 & 0b0000_0100 != 0,
            value: status_lword,
        }
    }
}

impl Default for MdmApStatus {
    /// The view of a register that reads zero.
    fn default() -> (status: MdmApStatus)
        ensures
            status == MdmApStatus::decoded(0),
    {
        MdmApStatus::parse_from_u32(0)
    }
}

/// Decoded view of the Control register.
#[derive(Debug, Clone, Copy, PartialEq, Eq, Structural)]
pub struct MdmApControl {
    /// Set to start a mass erase; the hardware clears it when the erase is done.
    pub erase_in_progress: bool,
    /// Forces the debug logic off.
    pub debug_disable: bool,
    /// Forces debug on.
    pub debug_request: bool,
    /// Holds the system in reset.
    pub sys_reset_request: bool,
    /// Keeps the core from starting when the system leaves reset.
    pub core_hold: bool,
    /// The register as it was read.
    pub value: u32,
}

impl MdmApControl {
    /// What a Control register holding `word` decodes to: byte 0 carries the
    /// five flags in its bits 0 to 4. All other bits are ignored.
    pub open spec fn decoded(word: u32) -> MdmApControl {
        MdmApControl {
            erase_in_progress: bit_of_byte(word, 0, 0),
            debug_disable: bit_of_byte(word, 0, 1),
            debug_request: bit_of_byte(word, 0, 2),
            sys_reset_request: bit_of_byte(word, 0, 3),
            core_hold: bit_of_byte(word, 0, 4),
            value: word,
        }
    }

    /// Every flag equals its bit of `value`.
    pub open spec fn wf(&self) -> bool {
        *self == Self::decoded(self.value)
    }

    /// Decodes a Control register word. Total: every word decodes.
    pub fn parse_from_u32(control_lword: u32) -> (control: MdmApControl)
        ensures
            control == Self::decoded(control_lword),
            control.wf(),
    {
        let low: u32 = control_lword & 0xFF;
        assert(low <= 0xFF) by (bit_vector)
            requires
                low == control_lword & 0xFF,
        ;
        let control_byte0: u8 = low as u8;
        assert({
            &&& control_byte0 & 0b0000_0001 != 0 <==> bit_of_byte(control_lword, 0, 0)
            &&& control_byte0 & 0b0000_0010 != 0 <==> bit_of_byte(control_lword, 0, 1)
            &&& control_byte0 & 0b0000_0100 != 0 <==> bit_of_byte(control_lword, 0, 2)
            &&& control_byte0 & 0b0000_1000 != 0 <==> bit_of_byte(control_lword, 0, 3)
            &&& control_byte0 & 0b0001_0000 != 0 <==> bit_of_byte(control_lword, 0, 4)
        }) by (bit_vector)
            requires
                control_byte0 == (control_lword & 0xFF) as u8,
        ;
        MdmApControl {
            erase_in_progress: control_byte0 & 0b0000_0001 != 0,
            debug_disable: control_byte0 & 0b0000_0010 != 0,
            debug_request: control_byte0 & 0b0000_0100 != 0,
            sys_reset_request: control_byte0 & 0b0000_1000 != 0,
            core_hold: control_byte0 & 0b0001_0000 != 0,
            value: control_lword,
        }
    }
}

impl Default for MdmApControl {
    /// The view of a register that reads zero.
    fn default() -> (control: MdmApControl)
        ensures
            control == MdmApControl::decoded(0),
    {
        MdmApControl::parse_from_u32(0)
    }
}

/// Each flag of a decoded Status register is the bit that the constant of
/// its name masks.
pub proof fn law_status_flags_follow_masks(word: u32)
    ensures
        MdmApStatus::decoded(word).mass_erase_ack == (word & MKE_MDM_STATUS_FLASH_MASS_ERASE_ACK_BIT
            != 0),
        MdmApStatus::decoded(word).flash_ready == (word & MKE_MDM_STATUS_FLASH_READY_BIT != 0),
        MdmApStatus::decoded(word).security == (word & MKE_MDM_STATUS_SYSTEM_SECURITY_BIT != 0),
        MdmApStatus::decoded(word).system_reset == (word & MKE_MDM_STATUS_SYSTEM_RESET_BIT != 0),
        MdmApStatus::decoded(word).halt_state == (word & 0x0001_0000 != 0),
        MdmApStatus::decoded(word).stop_state == (word & 0x0002_0000 != 0),
        MdmApStatus::decoded(word).wait_state == (word & 0x0004_0000 != 0),
        MdmApStatus::decoded(word).value == word,
{
    assert({
        &&& bit_of_byte(word, 0, 0) == (word & 0b0000_0001 != 0)
        &&& bit_of_byte(word, 0, 1) == (word & 0b0000_0010 != 0)
        &&& bit_of_byte(word, 0, 2) == (word & 0b0000_0100 != 0)
        &&& bit_of_byte(word, 0, 3) == (word & 0b0000_1000 != 0)
        &&& bit_of_byte(word, 2, 0) == (word & 0x0001_0000 != 0)
        &&& bit_of_byte(word, 2, 1) == (word & 0x0002_0000 != 0)
        &&& bit_of_byte(word, 2, 2) == (word & 0x0004_0000 != 0)
    }) by (bit_vector);
}

/// Each flag of a decoded Control register is the bit that the constant of
/// its name masks.
pub proof fn law_control_flags_follow_masks(word: u32)
    ensures
        MdmApControl::decoded(word).erase_in_progress == (word & MKE_MDM_CONTROL_FLASH_MASS_ERASE_BIT
            != 0),
        MdmApControl::decoded(word).debug_disable == (word & MKE_MDM_CONTROL_DBG_DIS_BIT != 0),
        MdmApControl::decoded(word).debug_request == (word & MKE_MDM_CONTROL_DBG_REQ_BIT != 0),
        MdmApControl::decoded(word).sys_reset_request == (word & MKE_MDM_CONTROL_SYS_RESET_BIT != 0),
        MdmApControl::decoded(word).core_hold == (word & MKE_MDM_CONTROL_CORE_HOLD_BIT != 0),
        MdmApControl::decoded(word).value == word,
{
    assert({
        &&& bit_of_byte(word, 0, 0) == (word & 0b0000_0001 != 0)
        &&& bit_of_byte(word, 0, 1) == (word & 0b0000_0010 != 0)
        &&& bit_of_byte(word, 0, 2) == (word & 0b0000_0100 != 0)
        &&& bit_of_byte(word, 0, 3) == (word & 0b0000_1000 != 0)
        &&& bit_of_byte(word, 0, 4) == (word & 0b0001_0000 != 0)
    }) by (bit_vector);
}

/// A Control word made by or-ing `mask` into `base` decodes to flags that
/// are set exactly where the bit is set in `base` or in `mask`.
pub proof fn law_control_decodes_base_or_mask(base: u32, mask: u32)
    ensures
        MdmApControl::decoded(base | mask).erase_in_progress == (base
            & MKE_MDM_CONTROL_FLASH_MASS_ERASE_BIT != 0 || mask & MKE_MDM_CONTROL_FLASH_MASS_ERASE_BIT
            != 0),
        MdmApControl::decoded(base | mask).debug_disable == (base & MKE_MDM_CONTROL_DBG_DIS_BIT != 0
            || mask & MKE_MDM_CONTROL_DBG_DIS_BIT != 0),
        MdmApControl::decoded(base | mask).debug_request == (base & MKE_MDM_CONTROL_DBG_REQ_BIT != 0
            || mask & MKE_MDM_CONTROL_DBG_REQ_BIT != 0),
        MdmApControl::decoded(base | mask).sys_reset_request == (base & MKE_MDM_CONTROL_SYS_RESET_BIT
            != 0 || mask & MKE_MDM_CONTROL_SYS_RESET_BIT != 0),
        MdmApControl::decoded(base | mask).core_hold == (base & MKE_MDM_CONTROL_CORE_HOLD_BIT != 0
            || mask & MKE_MDM_CONTROL_CORE_HOLD_BIT != 0),
        MdmApControl::decoded(base | mask).value == base | mask,
{
    law_control_flags_follow_masks(base | mask);
    assert({
        &&& ((base | mask) & 0b0000_0001 != 0) == (base & 0b0000_0001 != 0 || mask & 0b0000_0001 != 0)
        &&& ((base | mask) & 0b0000_0010 != 0) == (base & 0b0000_0010 != 0 || mask & 0b0000_0010 != 0)
        &&& ((base | mask) & 0b0000_0100 != 0) == (base & 0b0000_0100 != 0 || mask & 0b0000_0100 != 0)
        &&& ((base | mask) & 0b0000_1000 != 0) == (base & 0b0000_1000 != 0 || mask & 0b0000_1000 != 0)
        &&& ((base | mask) & 0b0001_0000 != 0) == (base & 0b0001_0000 != 0 || mask & 0b0001_0000 != 0)
    }) by (bit_vector);
}

} // verus!
