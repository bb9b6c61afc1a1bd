//! The clock-tree synthesizer: oscillator sequencing, multiplier setup,
//! bus-clock derivation, ceiling validation and wait-state tuning.
//!
//! A configuration is accumulated by a builder and handed to [`RccConfig::tune`],
//! which sequences the hardware through the control and configuration
//! registers and either returns the realized frequencies or reports
//! exactly which step failed. Every derived frequency and every written
//! register field is pinned down by the spec functions in this module.

use vstd::prelude::*;

use crate::regs::FlashRegs;
use crate::regs::RccRegs;

verus! {

/// The internal oscillator's fixed frequency.
pub const HSI: u32 = 8_000_000;

/// The absolute system-clock ceiling.
pub const SYSCLK_MAX: u32 = 72_000_000;

/// The bus-A (low-speed peripheral bus) clock ceiling.
pub const PCLK1_MAX: u32 = 36_000_000;

/// The auxiliary (converter) clock ceiling.
pub const ADCCLK_MAX: u32 = 14_000_000;

/// How many reads each ready poll is allowed before giving up. The
/// oscillator poll is bounded by design; the multiplier poll is bounded by
/// the same count here so that a multiplier that never locks surfaces as a
/// timeout instead of hanging the caller.
pub const READY_RETRIES: u16 = 1000;

/// Oscillator-enable bit of the control register.
pub const CR_HSEON: u32 = 0x0001_0000;

/// Oscillator-ready flag of the control register.
pub const CR_HSERDY: u32 = 0x0002_0000;

/// Oscillator-bypass bit of the control register.
pub const CR_HSEBYP: u32 = 0x0004_0000;

/// Multiplier-enable bit of the control register.
pub const CR_PLLON: u32 = 0x0100_0000;

/// Multiplier-ready flag of the control register.
pub const CR_PLLRDY: u32 = 0x0200_0000;

/// System-clock source selector field (bits 0-1) of the configuration
/// register.
pub const CFGR_SW: u32 = 0x0000_0003;

/// Bus-A prescaler selector field (bits 8-10).
pub const CFGR_PPRE1: u32 = 0x0000_0700;

/// Bus-B prescaler selector field (bits 11-13).
pub const CFGR_PPRE2: u32 = 0x0000_3800;

/// Auxiliary-clock prescaler selector field (bits 14-15).
pub const CFGR_ADCPRE: u32 = 0x0000_C000;

/// Multiplier input-source-select bit (bit 16).
pub const CFGR_PLLSRC: u32 = 0x0001_0000;

/// Multiplier factor field (bits 18-21).
pub const CFGR_PLLMUL: u32 = 0x003C_0000;

/// The memory wait-state class field (bits 0-2) of the access-control
/// register.
pub const ACR_LATENCY: u32 = 0x0000_0007;

/// True when the external oscillator reports ready.
pub open spec fn hse_ready(cr: u32) -> bool {
    cr & CR_HSERDY != 0
}

/// True when the frequency multiplier reports ready.
pub open spec fn pll_ready(cr: u32) -> bool {
    cr & CR_PLLRDY != 0
}

/// Which clock domain a ceiling violation names.
#[derive(Clone, Copy, PartialEq, Eq, Structural, Debug)]
pub enum ClockDomain {
    Sys,
    BusA,
    Aux,
}

/// Why synthesis failed: a ready poll ran out of retries, or a derived
/// frequency would exceed its hardware ceiling (the violation carries the
/// requested frequency and the ceiling it broke).
#[derive(Clone, Copy, PartialEq, Eq, Structural, Debug)]
pub enum RccError {
    Timeout,
    ConstraintViolation { domain: ClockDomain, freq: u64, ceiling: u32 },
}

/// Gives access to the configuration builders.
pub trait RccExt {
    /// A fresh clock configuration: no external oscillator, no
    /// multiplier, and every prescaler unset, meaning no division.
    fn rcc_config() -> (c: RccConfig)
        ensures
            c.hse_freq() == 0,
            c.pll_mul() == 0,
            c.apb1_div() == 1,
            c.apb2_div() == 1,
            c.adc_div() == 1,
            !c.bypass(),
    ;

    /// A fresh real-time-clock configuration.
    fn rtc_config() -> RtcConfig;

    /// A fresh clock-output configuration.
    fn mco_config() -> McoConfig;
}

/// Placeholder for the clock-output configuration surface.
pub struct McoConfig;

/// Placeholder for the real-time-clock configuration surface.
pub struct RtcConfig;

/// The declarative clock configuration a builder accumulates: external
/// oscillator frequency (zero when absent) with its bypass flag, the
/// multiplier factor (zero when absent), and the three prescaler
/// divisors. The builder stores intent only; no register is touched
/// before `tune`.
pub struct RccConfig {
    hse: u32,
    pll: u8,
    apb1_pre: u8,
    apb2_pre: u8,
    adc_pre: u8,
    hse_byp: bool,
}

impl RccExt for RccRegs {
    fn rcc_config() -> (c: RccConfig) {
        RccConfig { hse: 0, pll: 0, apb1_pre: 1, apb2_pre: 1, adc_pre: 1, hse_byp: false }
    }

    fn rtc_config() -> RtcConfig {
        RtcConfig
    }

    fn mco_config() -> McoConfig {
        McoConfig
    }
}

impl RccConfig {
    /// The configured external oscillator frequency; zero when absent.
    pub closed spec fn hse_freq(&self) -> u32 {
        self.hse
    }

    /// The configured multiplier factor; zero when absent.
    pub closed spec fn pll_mul(&self) -> u8 {
        self.pll
    }

    /// The configured bus-A prescaler divisor.
    pub closed spec fn apb1_div(&self) -> u8 {
        self.apb1_pre
    }

    /// The configured bus-B prescaler divisor.
    pub closed spec fn apb2_div(&self) -> u8 {
        self.apb2_pre
    }

    /// The configured auxiliary-clock divisor.
    pub closed spec fn adc_div(&self) -> u8 {
        self.adc_pre
    }

    /// Whether the external oscillator is taken as a clean digital clock,
    /// skipping the internal amplifier.
    pub closed spec fn bypass(&self) -> bool {
        self.hse_byp
    }

    /// Selects an external oscillator in bypass mode at the given
    /// frequency.
    pub fn hse_byp_use(self, clock: u32) -> (c: Self)
        ensures
            c.hse_freq() == clock,
            c.bypass(),
            c.pll_mul() == self.pll_mul(),
            c.apb1_div() == self.apb1_div(),
            c.apb2_div() == self.apb2_div(),
            c.adc_div() == self.adc_div(),
    {
        RccConfig {
            hse: clock,
            pll: self.pll,
            apb1_pre: self.apb1_pre,
            apb2_pre: self.apb2_pre,
            adc_pre: self.adc_pre,
            hse_byp: true,
        }
    }

    /// Selects an external oscillator at the given frequency.
    pub fn hse_use(self, hse_clock: u32) -> (c: Self)
        ensures
            c.hse_freq() == hse_clock,
            c.bypass() == self.bypass(),
            c.pll_mul() == self.pll_mul(),
            c.apb1_div() == self.apb1_div(),
            c.apb2_div() == self.apb2_div(),
            c.adc_div() == self.adc_div(),
    {
        RccConfig {
            hse: hse_clock,
            pll: self.pll,
            apb1_pre: self.apb1_pre,
            apb2_pre: self.apb2_pre,
            adc_pre: self.adc_pre,
            hse_byp: self.hse_byp,
        }
    }

    /// Requests the frequency multiplier with the given factor.
    pub fn pll(self, pll_mul: u8) -> (c: Self)
        ensures
            c.pll_mul() == pll_mul,
            c.hse_freq() == self.hse_freq(),
            c.bypass() == self.bypass(),
            c.apb1_div() == self.apb1_div(),
            c.apb2_div() == self.apb2_div(),
            c.adc_div() == self.adc_div(),
    {
        RccConfig {
            hse: self.hse,
            pll: pll_mul,
            apb1_pre: self.apb1_pre,
            apb2_pre: self.apb2_pre,
            adc_pre: self.adc_pre,
            hse_byp: self.hse_byp,
        }
    }

    /// Selects the bus-A prescaler divisor.
    pub fn apb1(self, div: u8) -> (c: Self)
        ensures
            c.apb1_div() == div,
            c.hse_freq() == self.hse_freq(),
            c.bypass() == self.bypass(),
            c.pll_mul() == self.pll_mul(),
            c.apb2_div() == self.apb2_div(),
            c.adc_div() == self.adc_div(),
    {
        RccConfig {
            hse: self.hse,
            pll: self.pll,
            apb1_pre: div,
            apb2_pre: self.apb2_pre,
            adc_pre: self.adc_pre,
            hse_byp: self.hse_byp,
        }
    }

    /// Selects the bus-B prescaler divisor.
    pub fn apb2(self, div: u8) -> (c: Self)
        ensures
            c.apb2_div() == div,
            c.hse_freq() == self.hse_freq(),
            c.bypass() == self.bypass(),
            c.pll_mul() == self.pll_mul(),
            c.apb1_div() == self.apb1_div(),
            c.adc_div() == self.adc_div(),
    {
        RccConfig {
            hse: self.hse,
            pll: self.pll,
            apb1_pre: self.apb1_pre,
            apb2_pre: div,
            adc_pre: self.adc_pre,
            hse_byp: self.hse_byp,
        }
    }

    /// Selects the auxiliary-clock divisor.
    pub fn adc(self, div: u8) -> (c: Self)
        ensures
            c.adc_div() == div,
            c.hse_freq() == self.hse_freq(),
            c.bypass() == self.bypass(),
            c.pll_mul() == self.pll_mul(),
            c.apb1_div() == self.apb1_div(),
            c.apb2_div() == self.apb2_div(),
    {
        RccConfig {
            hse: self.hse,
            pll: self.pll,
            apb1_pre: self.apb1_pre,
            apb2_pre: self.apb2_pre,
            adc_pre: div,
            hse_byp: self.hse_byp,
        }
    }
}

/// The realized frequencies a successful synthesis returns: system clock,
/// both bus clocks and the auxiliary clock, internally consistent and
/// below every ceiling, fixed for the remainder of program life.
pub struct Clock {
    pub sysclk: u32,
    pub pclk1: u32,
    pub pclk2: u32,
    pub adcclk: u32,
}

/// The multiplier's input frequency: the external oscillator when one is
/// given, otherwise the internal oscillator — halved when it feeds the
/// multiplier, raw otherwise.
pub open spec fn spec_source_freq(c: RccConfig) -> int {
    if c.hse_freq() != 0 {
        c.hse_freq() as int
    } else if c.pll_mul() == 0 {
        HSI as int
    } else {
        HSI as int / 2
    }
}

/// The system frequency the configuration asks for: the source frequency,
/// multiplied when a multiplier is requested.
pub open spec fn spec_sys_freq(c: RccConfig) -> int {
    if c.pll_mul() != 0 {
        c.pll_mul() as int * spec_source_freq(c)
    } else {
        spec_source_freq(c)
    }
}

/// The effective bus prescaler divisor: the recognized divisors are 2, 4,
/// 8 and 16; anything else means no division.
pub open spec fn spec_apb_div(d: u8) -> int {
    if d == 2 {
        2
    } else if d == 4 {
        4
    } else if d == 8 {
        8
    } else if d == 16 {
        16
    } else {
        1
    }
}

/// The 3-bit bus prescaler selector for a divisor.
pub open spec fn spec_apb_bits(d: u8) -> u32 {
    if d == 2 {
        0b100
    } else if d == 4 {
        0b101
    } else if d == 8 {
        0b110
    } else if d == 16 {
        0b111
    } else {
        0b000
    }
}

/// The effective auxiliary divisor: the recognized divisors are 2, 4, 6
/// and 8; anything else falls back to dividing by 6 — deliberately not to
/// "no division" as the bus prescalers do.
pub open spec fn spec_adc_div(d: u8) -> int {
    if d == 2 {
        2
    } else if d == 4 {
        4
    } else if d == 6 {
        6
    } else if d == 8 {
        8
    } else {
        6
    }
}

/// The 2-bit auxiliary prescaler selector for a divisor.
pub open spec fn spec_adc_bits(d: u8) -> u32 {
    if d == 2 {
        0b00
    } else if d == 4 {
        0b01
    } else if d == 6 {
        0b10
    } else if d == 8 {
        0b11
    } else {
        0b10
    }
}

/// The bus-A clock: system frequency over the bus-A divisor.
pub open spec fn spec_busa_freq(c: RccConfig) -> int {
    spec_sys_freq(c) / spec_apb_div(c.apb1_div())
}

/// The bus-B clock: system frequency over the bus-B divisor.
pub open spec fn spec_busb_freq(c: RccConfig) -> int {
    spec_sys_freq(c) / spec_apb_div(c.apb2_div())
}

/// The auxiliary clock: bus-B clock over the auxiliary divisor.
pub open spec fn spec_aux_freq(c: RccConfig) -> int {
    spec_busb_freq(c) / spec_adc_div(c.adc_div())
}

/// The wait-state class a system frequency requires, by the three
/// frequency bands.
pub open spec fn spec_latency(sys: int) -> u32 {
    if sys <= 24_000_000 {
        0b000
    } else if sys <= 48_000_000 {
        0b001
    } else {
        0b010
    }
}

/// The system-clock source selector: the multiplied clock when a
/// multiplier ran, else the external oscillator when one ran, else the
/// internal oscillator.
pub open spec fn spec_sw_bits(c: RccConfig) -> u32 {
    if c.pll_mul() != 0 {
        0b10
    } else if c.hse_freq() != 0 {
        0b01
    } else {
        0b00
    }
}

/// The multiplier-factor field encoding: the factor less two, in four
/// bits.
pub open spec fn spec_pllmul_field(m: u8) -> u32 {
    (((m - 2) as u8) as u32) & 0xF
}

/// The control register after the oscillator-startup step: bypass marked
/// when asked, then the oscillator enabled — only when an external
/// oscillator is configured.
pub open spec fn spec_cr_hse(c: RccConfig, cr: u32) -> u32 {
    if c.hse_freq() != 0 {
        if c.bypass() {
            (cr | CR_HSEBYP) | CR_HSEON
        } else {
            cr | CR_HSEON
        }
    } else {
        cr
    }
}

/// The control register after the multiplier step: the multiplier enabled
/// on top of the oscillator step's state, when one is requested.
pub open spec fn spec_cr_pll(c: RccConfig, cr: u32) -> u32 {
    if c.pll_mul() != 0 {
        spec_cr_hse(c, cr) | CR_PLLON
    } else {
        spec_cr_hse(c, cr)
    }
}

/// The configuration register after the multiplier step: factor field and
/// input-source bit programmed, when a multiplier is requested.
pub open spec fn spec_cfgr_pll(c: RccConfig, f: u32) -> u32 {
    if c.pll_mul() != 0 {
        ((f & !(CFGR_PLLMUL | CFGR_PLLSRC)) | (spec_pllmul_field(c.pll_mul()) << 18)) | (
        if c.hse_freq() != 0 {
            CFGR_PLLSRC
        } else {
            0
        })
    } else {
        f
    }
}

/// The configuration register after the final routing write: auxiliary
/// and bus prescaler selectors and the system-clock source selector, all
/// programmed in one register access.
pub open spec fn spec_cfgr_route(c: RccConfig, f: u32) -> u32 {
    ((((f & !(((CFGR_ADCPRE | CFGR_PPRE1) | CFGR_PPRE2) | CFGR_SW)) | (spec_adc_bits(c.adc_div())
        << 14)) | (spec_apb_bits(c.apb2_div()) << 11)) | (spec_apb_bits(c.apb1_div()) << 8))
        | spec_sw_bits(c)
}

/// True when the oscillator-startup step fails: an external oscillator is
/// configured but its ready flag never rises.
pub open spec fn hse_times_out(c: RccConfig, cr0: u32) -> bool {
    c.hse_freq() != 0 && !hse_ready(cr0)
}

/// True when the requested system frequency breaks the system ceiling.
pub open spec fn sys_exceeds(c: RccConfig) -> bool {
    c.pll_mul() != 0 && spec_sys_freq(c) > SYSCLK_MAX
}

/// True when the multiplier step fails: a multiplier is requested but its
/// ready flag never rises.
pub open spec fn pll_times_out(c: RccConfig, cr0: u32) -> bool {
    c.pll_mul() != 0 && !pll_ready(cr0)
}

/// When synthesis succeeds, given the configuration and the control
/// register's initial state: every requested step completes and every
/// derived frequency respects its ceiling. Bus-B has no ceiling of its
/// own.
pub open spec fn spec_tune_ok(c: RccConfig, cr0: u32) -> bool {
    &&& !hse_times_out(c, cr0)
    &&& !sys_exceeds(c)
    &&& !pll_times_out(c, cr0)
    &&& spec_busa_freq(c) <= PCLK1_MAX
    &&& spec_aux_freq(c) <= ADCCLK_MAX
}

/// The error a failing synthesis reports: the first failing step wins.
pub open spec fn spec_tune_err(c: RccConfig, cr0: u32) -> RccError {
    if hse_times_out(c, cr0) {
        RccError::Timeout
    } else if sys_exceeds(c) {
        RccError::ConstraintViolation {
            domain: ClockDomain::Sys,
            freq: spec_sys_freq(c) as u64,
            ceiling: SYSCLK_MAX,
        }
    } else if pll_times_out(c, cr0) {
        RccError::Timeout
    } else if spec_busa_freq(c) > PCLK1_MAX {
        RccError::ConstraintViolation {
            domain: ClockDomain::BusA,
            freq: spec_busa_freq(c) as u64,
            ceiling: PCLK1_MAX,
        }
    } else {
        RccError::ConstraintViolation {
            domain: ClockDomain::Aux,
            freq: spec_aux_freq(c) as u64,
            ceiling: ADCCLK_MAX,
        }
    }
}

/// The control register a failing synthesis leaves behind: a timed-out
/// oscillator or multiplier is disabled again; a ceiling violation leaves
/// the enables of the steps that already ran.
pub open spec fn spec_fail_cr(c: RccConfig, cr0: u32) -> u32 {
    if hse_times_out(c, cr0) {
        spec_cr_hse(c, cr0) & !CR_HSEON
    } else if sys_exceeds(c) {
        spec_cr_hse(c, cr0)
    } else if pll_times_out(c, cr0) {
        spec_cr_pll(c, cr0) & !CR_PLLON
    } else {
        spec_cr_pll(c, cr0)
    }
}

/// The configuration register a failing synthesis leaves behind: still
/// untouched unless the multiplier step already programmed its fields.
pub open spec fn spec_fail_cfgr(c: RccConfig, cr0: u32, f0: u32) -> u32 {
    if hse_times_out(c, cr0) || sys_exceeds(c) {
        f0
    } else {
        spec_cfgr_pll(c, f0)
    }
}

/// Unrecognized bus prescaler divisors fall back to no division, while an
/// unrecognized auxiliary divisor falls back to dividing by 6: the two
/// fallbacks are deliberately asymmetric.
pub proof fn lemma_prescaler_fallback(d: u8)
    ensures
        (d != 2 && d != 4 && d != 8 && d != 16) ==> spec_apb_div(d) == 1,
        (d != 2 && d != 4 && d != 6 && d != 8) ==> spec_adc_div(d) == 6,
{
}

proof fn lemma_cr_flag_independence(cr: u32)
    by (bit_vector)
    ensures
        ((cr | CR_HSEBYP) | CR_HSEON) & CR_HSERDY == cr & CR_HSERDY,
        (cr | CR_HSEON) & CR_HSERDY == cr & CR_HSERDY,
        ((cr | CR_HSEBYP) | CR_HSEON) & CR_PLLRDY == cr & CR_PLLRDY,
        (cr | CR_HSEON) & CR_PLLRDY == cr & CR_PLLRDY,
        (cr | CR_PLLON) & CR_PLLRDY == cr & CR_PLLRDY,
{
}

/// Polls one flag of the control register, giving up after the bounded
/// retry count.
fn wait_flag(rcc: &RccRegs, mask: u32) -> (ok: bool)
    ensures
        ok == (rcc.cr & mask != 0),
{
    let mut n: u16 = 0;
    loop
        invariant
            n < READY_RETRIES,
        decreases READY_RETRIES - n,
    {
        if rcc.cr & mask != 0 {
            return true;
        }
        n = n + 1;
        if n == READY_RETRIES {
            return false;
        }
    }
}

fn apb_div_of(d: u8) -> (r: u32)
    ensures
        r as int == spec_apb_div(d),
        r >= 1,
{
    match d {
        2 => 2,
        4 => 4,
        8 => 8,
        16 => 16,
        _ => 1,
    }
}

fn apb_bits_of(d: u8) -> (r: u32)
    ensures
        r == spec_apb_bits(d),
        r < 8,
{
    match d {
        2 => 0b100,
        4 => 0b101,
        8 => 0b110,
        16 => 0b111,
        _ => 0b000,
    }
}

fn adc_div_of(d: u8) -> (r: u32)
    ensures
        r as int == spec_adc_div(d),
        r >= 1,
{
    match d {
        2 => 2,
        4 => 4,
        6 => 6,
        8 => 8,
        _ => 6,
    }
}

fn adc_bits_of(d: u8) -> (r: u32)
    ensures
        r == spec_adc_bits(d),
        r < 4,
{
    match d {
        2 => 0b00,
        4 => 0b01,
        6 => 0b10,
        8 => 0b11,
        _ => 0b10,
    }
}

impl RccConfig {
    /// Consumes the configuration and sequences the clock tree: starts
    /// the external oscillator under a bounded ready poll, programs and
    /// starts the multiplier after validating the system ceiling, derives
    /// and validates the bus and auxiliary clocks, programs the memory
    /// wait-state class for the target frequency, and only then routes
    /// the prescaler selectors and the system-clock source in one
    /// register access. Returns the realized frequencies, or reports the
    /// first step that failed; the contract states exactly which inputs
    /// succeed and what every touched register holds afterwards.
    ///
    /// A multiplier factor of one is not encodable in the factor field
    /// and is excluded.
    pub fn tune(self, rcc: &mut RccRegs, flash: &mut FlashRegs) -> (r: Result<Clock, RccError>)
        requires
            self.pll_mul() != 1,
        ensures
            final(rcc).apb2enr == old(rcc).apb2enr,
            (r is Ok) == spec_tune_ok(self, old(rcc).cr),
            (match r {
                Ok(clk) => {
                    &&& clk.sysclk as int == spec_sys_freq(self)
                    &&& clk.pclk1 as int == spec_busa_freq(self)
                    &&& clk.pclk2 as int == spec_busb_freq(self)
                    &&& clk.adcclk as int == spec_aux_freq(self)
                    &&& final(rcc).cr == spec_cr_pll(self, old(rcc).cr)
                    &&& final(rcc).cfgr == spec_cfgr_route(self, spec_cfgr_pll(self, old(rcc).cfgr))
                    &&& final(flash).acr == ((old(flash).acr & !ACR_LATENCY) | spec_latency(
                        spec_sys_freq(self),
                    ))
                },
                Err(e) => {
                    &&& e == spec_tune_err(self, old(rcc).cr)
                    &&& final(rcc).cr == spec_fail_cr(self, old(rcc).cr)
                    &&& final(rcc).cfgr == spec_fail_cfgr(self, old(rcc).cr, old(rcc).cfgr)
                    &&& final(flash).acr == old(flash).acr
                },
            }),
    {
        let ghost cr0 = rcc.cr;
        let sh: u32;
        if self.hse != 0 {
            if self.hse_byp {
                rcc.cr = rcc.cr | CR_HSEBYP;
            }
            rcc.cr = rcc.cr | CR_HSEON;
            proof {
                lemma_cr_flag_independence(cr0);
            }
            let ok = wait_flag(rcc, CR_HSERDY);
            if !ok {
                rcc.cr = rcc.cr & !CR_HSEON;
                return Err(RccError::Timeout);
            }
            sh = self.hse;
        } else {
            if self.pll == 0 {
                sh = HSI;
            } else {
                sh = HSI / 2;
            }
        }

        let sysclk: u32;
        if self.pll != 0 {
            let p64: u64 = self.pll as u64;
            let s64: u64 = sh as u64;
            proof {
                assert(p64 * s64 <= 255 * 0xFFFF_FFFF) by (nonlinear_arith)
                    requires
                        p64 <= 255,
                        s64 <= 0xFFFF_FFFF,
                ;
            }
            let cand: u64 = p64 * s64;
            if cand > (SYSCLK_MAX as u64) {
                return Err(
                    RccError::ConstraintViolation {
                        domain: ClockDomain::Sys,
                        freq: cand,
                        ceiling: SYSCLK_MAX,
                    },
                );
            }
            let mulf: u32 = ((self.pll - 2) as u32) & 0xF;
            let srcb: u32 = if self.hse != 0 {
                CFGR_PLLSRC
            } else {
                0
            };
            rcc.cfgr = ((rcc.cfgr & !(CFGR_PLLMUL | CFGR_PLLSRC)) | (mulf << 18)) | srcb;
            let ghost cr1 = rcc.cr;
            rcc.cr = rcc.cr | CR_PLLON;
            proof {
                lemma_cr_flag_independence(cr0);
                lemma_cr_flag_independence(cr1);
            }
            let ok = wait_flag(rcc, CR_PLLRDY);
            if !ok {
                rcc.cr = rcc.cr & !CR_PLLON;
                return Err(RccError::Timeout);
            }
            sysclk = cand as u32;
        } else {
            sysclk = sh;
        }

        let pclk1: u32 = sysclk / apb_div_of(self.apb1_pre);
        if pclk1 > PCLK1_MAX {
            return Err(
                RccError::ConstraintViolation {
                    domain: ClockDomain::BusA,
                    freq: pclk1 as u64,
                    ceiling: PCLK1_MAX,
                },
            );
        }

        let pclk2: u32 = sysclk / apb_div_of(self.apb2_pre);

        let adcclk: u32 = pclk2 / adc_div_of(self.adc_pre);
        if adcclk > ADCCLK_MAX {
            return Err(
                RccError::ConstraintViolation {
                    domain: ClockDomain::Aux,
                    freq: adcclk as u64,
                    ceiling: ADCCLK_MAX,
                },
            );
        }

        let lat: u32 = if sysclk <= 24_000_000 {
            0b000
        } else if sysclk <= 48_000_000 {
            0b001
        } else {
            0b010
        };
        flash.acr = (flash.acr & !ACR_LATENCY) | lat;

        let adcb: u32 = adc_bits_of(self.adc_pre);
        let p2b: u32 = apb_bits_of(self.apb2_pre);
        let p1b: u32 = apb_bits_of(self.apb1_pre);
        let swb: u32 = if self.pll != 0 {
            0b10
        } else if self.hse != 0 {
            0b01
        } else {
            0b00
        };
        rcc.cfgr = ((((rcc.cfgr & !(((CFGR_ADCPRE | CFGR_PPRE1) | CFGR_PPRE2) | CFGR_SW)) | (adcb
            << 14)) | (p2b << 11)) | (p1b << 8)) | swb;

        Ok(Clock { sysclk, pclk1, pclk2, adcclk })
    }
}

} // verus!
