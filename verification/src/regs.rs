//! The register file: every peripheral register the core touches, modeled
//! as plain 32-bit words, together with the spec vocabulary for reading
//! single bits and 4-bit fields out of them.
//!
//! Real hardware exposes these words at fixed addresses; the core's logic
//! only ever depends on their values, so the model keeps the values and the
//! platform keeps the addresses. Write-only registers with special
//! semantics (the set-reset register, the write-1-to-clear pending
//! register) are modeled by the effect their write has on the readable
//! state.

use vstd::prelude::*;

verus! {

/// True when bit `i` of `r` is set.
pub open spec fn bit_set(r: u32, i: u32) -> bool {
    r & (1u32 << i) != 0
}

/// The 4-bit field of `r` at nibble position `k` (bits `4k .. 4k+4`).
pub open spec fn field4(r: u32, k: u32) -> u32 {
    (r >> ((4 * k) as u32)) & 0xF
}

/// One port's I/O registers: the two mode-configuration halves, the
/// input-data register and the output-data register. The set-reset
/// register is write-only; see [`GpioRegs::bsrr_write`].
pub struct GpioRegs {
    pub crl: u32,
    pub crh: u32,
    pub idr: u32,
    pub odr: u32,
}

impl GpioRegs {
    /// A write to the set-reset register: bit `n` of the value sets output
    /// bit `n`, bit `n + 16` clears it, atomically and without a read step.
    /// When both halves name the same bit, the set half wins.
    pub fn bsrr_write(&mut self, v: u32)
        ensures
            final(self).odr == (old(self).odr & !(v >> 16)) | (v & 0xFFFF),
            final(self).crl == old(self).crl,
            final(self).crh == old(self).crh,
            final(self).idr == old(self).idr,
    {
        self.odr = (self.odr & !(v >> 16)) | (v & 0xFFFF);
    }
}

/// The external-interrupt controller registers: mask, rising- and
/// falling-edge trigger enables, software trigger, and the pending
/// register (write-1-to-clear; see [`ExtiRegs::pr_write`]).
pub struct ExtiRegs {
    pub imr: u32,
    pub rtsr: u32,
    pub ftsr: u32,
    pub swier: u32,
    pub pr: u32,
}

impl ExtiRegs {
    /// A pure write to the pending register. The hardware clears every
    /// pending bit at which the written value holds a 1 and leaves all
    /// other bits alone; no read-modify-write is involved.
    pub fn pr_write(&mut self, v: u32)
        ensures
            final(self).pr == old(self).pr & !v,
            final(self).imr == old(self).imr,
            final(self).rtsr == old(self).rtsr,
            final(self).ftsr == old(self).ftsr,
            final(self).swier == old(self).swier,
    {
        self.pr = self.pr & !v;
    }
}

/// The line-selector registers: sixteen 4-bit slots, four per register,
/// each choosing which port drives the numbered external-interrupt line.
pub struct AfioRegs {
    pub exticr1: u32,
    pub exticr2: u32,
    pub exticr3: u32,
    pub exticr4: u32,
}

/// The 4-bit selector slot for interrupt line `i` (0..16).
pub open spec fn exti_line_sel(a: AfioRegs, i: u32) -> u32 {
    if i < 4 {
        field4(a.exticr1, i)
    } else if i < 8 {
        field4(a.exticr2, (i - 4) as u32)
    } else if i < 12 {
        field4(a.exticr3, (i - 8) as u32)
    } else {
        field4(a.exticr4, (i - 12) as u32)
    }
}

/// The clock controller's registers: the control register (oscillator and
/// multiplier enables and ready flags), the configuration register
/// (prescaler selectors, multiplier factor and system-clock source), and
/// the peripheral-enable register that holds the port enable bits.
pub struct RccRegs {
    pub cr: u32,
    pub cfgr: u32,
    pub apb2enr: u32,
}

/// The memory controller's access-control register; its low three bits
/// hold the wait-state class.
pub struct FlashRegs {
    pub acr: u32,
}

} // verus!
