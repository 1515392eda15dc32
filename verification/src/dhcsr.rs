//! The Debug Halting Control and Status Register (DHCSR) of the core, as far
//! as the unlock procedure writes it.

use vstd::prelude::*;

verus! {

/// Address of the register in the target's memory.
pub const DHCSR_ADDRESS: u64 = 0xE000_EDF0;

/// The key that the upper half of a written word must hold, or the write is
/// ignored.
pub const DHCSR_DEBUG_KEY: u32 = 0xA05F;

/// Bit of the halting-debug enable, `C_DEBUGEN`.
pub const DHCSR_C_DEBUGEN_BIT: u32 = 0b01;

/// Bit of the halt request, `C_HALT`.
pub const DHCSR_C_HALT_BIT: u32 = 0b10;

/// `word` with the bits of `mask` set if `on`, and cleared if not.
pub open spec fn with_bits(word: u32, mask: u32, on: bool) -> u32 {
    if on {
        word | mask
    } else {
        word & !mask
    }
}

/// `word` with the debug key in its upper half and its lower half as it is.
pub open spec fn with_key(word: u32) -> u32 {
    (word & 0x0000_FFFF) | (DHCSR_DEBUG_KEY << 16)
}

/// A word of the register.
#[derive(Debug, Clone, Copy, PartialEq, Eq, Structural)]
pub struct Dhcsr(pub u32);

impl Dhcsr {
    /// Sets or clears the halt request.
    pub fn set_c_halt(&mut self, halt: bool)
        ensures
            final(self).0 == with_bits(old(self).0, DHCSR_C_HALT_BIT, halt),
    {
        if halt {
            self.0 = self.0 | DHCSR_C_HALT_BIT;
        } else {
            self.0 = self.0 & !DHCSR_C_HALT_BIT;
        }
    }

    /// Sets or clears the halting-debug enable.
    pub fn set_c_debugen(&mut self, enable: bool)
        ensures
            final(self).0 == with_bits(old(self).0, DHCSR_C_DEBUGEN_BIT, enable),
    {
        if enable {
            self.0 = self.0 | DHCSR_C_DEBUGEN_BIT;
        } else {
            self.0 = self.0 & !DHCSR_C_DEBUGEN_BIT;
        }
    }

    /// Puts the debug key into the upper half, so that the core takes the
    /// word when it is written.
    pub fn enable_write(&mut self)
        ensures
            final(self).0 == with_key(old(self).0),
    {
        let lower: u32 = self.0 & 0x0000_FFFF;
        let key: u32 = DHCSR_DEBUG_KEY << 16;
        self.0 = lower | key;
    }

    /// The word that halts the core.
    pub open spec fn spec_halt_request() -> u32 {
        0xA05F_0003
    }

    /// The word that halts the core: halt request and halting-debug enable
    /// set, the debug key in the upper half, every other bit clear.
    #[verifier::when_used_as_spec(spec_halt_request)]
    pub fn halt_request() -> (word: u32)
        ensures
            word == Self::spec_halt_request(),
            word == with_key(
                with_bits(with_bits(0, DHCSR_C_HALT_BIT, true), DHCSR_C_DEBUGEN_BIT, true),
            ),
    {
        let mut dhcsr = Dhcsr(0);
        dhcsr.set_c_halt(true);
        dhcsr.set_c_debugen(true);
        dhcsr.enable_write();
        assert(with_key(with_bits(with_bits(0, DHCSR_C_HALT_BIT, true), DHCSR_C_DEBUGEN_BIT, true))
            == 0xA05F_0003u32) by (bit_vector);
        dhcsr.0
    }
}

} // verus!
