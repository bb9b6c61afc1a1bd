//! The per-pin configuration state machine and external-interrupt routing.
//!
//! A pin value carries its mode in its type: transitions consume the value
//! in the source mode and produce one in the destination mode, so an
//! operation that is only meaningful in one mode cannot be called in any
//! other. Every transition's contract pins down the exact 4-bit field it
//! writes into the shared mode-configuration register and states that all
//! other pins' fields survive untouched.

use vstd::prelude::*;

use crate::regs::AfioRegs;
use crate::regs::ExtiRegs;
use crate::regs::GpioRegs;
use crate::regs::RccRegs;
use crate::regs::bit_set;
use crate::regs::exti_line_sel;
use crate::regs::field4;

verus! {

/// The slew-rate class an output or alternate-function pin drives at.
#[derive(Clone, Copy)]
pub enum GpioSpeed {
    Mhz2,
    Mhz10,
    Mhz50,
}

/// The two speed bits of the mode-configuration field.
pub open spec fn spec_speed_bits(s: GpioSpeed) -> u32 {
    match s {
        GpioSpeed::Mhz2 => 0b10,
        GpioSpeed::Mhz10 => 0b01,
        GpioSpeed::Mhz50 => 0b11,
    }
}

fn speed_bits(s: GpioSpeed) -> (r: u32)
    ensures
        r == spec_speed_bits(s),
        r < 4,
{
    match s {
        GpioSpeed::Mhz2 => 0b10,
        GpioSpeed::Mhz10 => 0b01,
        GpioSpeed::Mhz50 => 0b11,
    }
}

/// Which signal edges raise an external interrupt.
#[allow(non_camel_case_types)]
#[derive(Clone, Copy)]
pub enum Edge {
    RISING,
    FALLING,
    RISINGFALLING,
}

/// True when the edge policy enables the rising-edge trigger.
pub open spec fn rising_enabled(e: Edge) -> bool {
    match e {
        Edge::RISING => true,
        Edge::FALLING => false,
        Edge::RISINGFALLING => true,
    }
}

/// True when the edge policy enables the falling-edge trigger.
pub open spec fn falling_enabled(e: Edge) -> bool {
    match e {
        Edge::RISING => false,
        Edge::FALLING => true,
        Edge::RISINGFALLING => true,
    }
}

/// Marker for a pin configured as a digital input.
pub struct Input;

/// Marker for a pin configured as a plain output.
pub struct Output;

/// Marker for a pin handed to an alternate peripheral function.
pub struct Alternate;

/// Marker for a pin in analog mode.
pub struct Analog;

/// Marker for an unconfigured pin, as a freshly enabled port hands it out.
pub struct Reset;

/// One of the I/O ports; each groups sixteen pins behind one enable bit.
#[derive(Clone, Copy, PartialEq, Eq, Structural, Debug)]
pub enum Port {
    A,
    B,
    C,
}

/// The port's bit in the peripheral-enable register.
pub open spec fn spec_enable_bit(p: Port) -> u32 {
    match p {
        Port::A => 2,
        Port::B => 3,
        Port::C => 4,
    }
}

/// The 4-bit selector value that routes this port onto an interrupt line.
pub open spec fn spec_port_selector(p: Port) -> u32 {
    match p {
        Port::A => 0,
        Port::B => 1,
        Port::C => 3,
    }
}

fn port_selector(p: Port) -> (r: u32)
    ensures
        r == spec_port_selector(p),
        r < 16,
{
    match p {
        Port::A => 0,
        Port::B => 1,
        Port::C => 3,
    }
}

/// One physical I/O line, with its assumed mode carried in the type.
pub struct Pin<MODE> {
    port: Port,
    pin: u8,
    mode: MODE,
}

impl<MODE> Pin<MODE> {
    /// The pin's index within its port.
    pub closed spec fn index(&self) -> u32 {
        self.pin as u32
    }

    /// The port the pin belongs to.
    pub closed spec fn port_id(&self) -> Port {
        self.port
    }

    /// A pin is well formed when its index addresses one of the sixteen
    /// lines of its port.
    pub open spec fn wf(&self) -> bool {
        self.index() < 16
    }
}

/// The 4-bit mode-configuration field of pin `i`: pins 0-7 live in the low
/// register, pins 8-15 in the high one, at bit offset `(4 * i) % 32`.
pub open spec fn mode_field(g: GpioRegs, i: u32) -> u32 {
    if i < 8 {
        field4(g.crl, i)
    } else {
        field4(g.crh, (i - 8) as u32)
    }
}

impl Port {
    /// Enables the port's clock (idempotently: the enable bit is or-ed in)
    /// and hands out its sixteen pins, all in reset mode.
    pub fn enable(self, rcc: &mut RccRegs) -> (pins: Vec<Pin<Reset>>)
        ensures
            final(rcc).apb2enr == old(rcc).apb2enr | (1u32 << spec_enable_bit(self)),
            final(rcc).cr == old(rcc).cr,
            final(rcc).cfgr == old(rcc).cfgr,
            pins@.len() == 16,
            forall|i: int|
                0 <= i < 16 ==> (#[trigger] pins@[i]).index() == i && pins@[i].port_id() == self,
    {
        let bit: u32 = match self {
            Port::A => 2,
            Port::B => 3,
            Port::C => 4,
        };
        rcc.apb2enr = rcc.apb2enr | (1u32 << bit);
        let mut pins: Vec<Pin<Reset>> = Vec::new();
        let mut i: u8 = 0;
        while i < 16
            invariant
                i <= 16,
                pins@.len() == i as int,
                forall|j: int|
                    0 <= j < i as int ==> (#[trigger] pins@[j]).index() == j && pins@[j].port_id()
                        == self,
            decreases 16 - i as int,
        {
            pins.push(Pin { port: self, pin: i, mode: Reset });
            i = i + 1;
        }
        pins
    }
}

/// Enabling a port twice leaves the enable register exactly where one
/// enable left it: the operation is idempotent.
pub proof fn lemma_port_enable_idempotent(r: u32, b: u32)
    by (bit_vector)
    ensures
        (r | (1u32 << b)) | (1u32 << b) == r | (1u32 << b),
{
}

proof fn lemma_field4_update(r: u32, k: u32, v: u32)
    by (bit_vector)
    requires
        k < 8,
        v < 16,
    ensures
        field4((r & !(0xFu32 << ((4 * k) as u32))) | (v << ((4 * k) as u32)), k) == v,
        forall|j: u32|
            j < 8 && j != k ==> field4(
                (r & !(0xFu32 << ((4 * k) as u32))) | (v << ((4 * k) as u32)),
                j,
            ) == field4(r, j),
{
}

/// Clears the 4-bit mode field of pin `i` and ors the new value in, as one
/// read-modify-write on the register half the pin lives in.
fn set_mode_field(gpio: &mut GpioRegs, i: u8, bits: u32)
    requires
        i < 16,
        bits < 16,
    ensures
        mode_field(*final(gpio), i as u32) == bits,
        forall|j: u32|
            j < 16 && j != i as u32 ==> mode_field(*final(gpio), j) == mode_field(
                *old(gpio),
                j,
            ),
        final(gpio).idr == old(gpio).idr,
        final(gpio).odr == old(gpio).odr,
{
    if i < 8 {
        let off: u32 = 4 * (i as u32);
        let r = gpio.crl;
        gpio.crl = (r & !(0xFu32 << off)) | (bits << off);
        proof {
            lemma_field4_update(r, i as u32, bits);
        }
    } else {
        let k: u32 = (i as u32) - 8;
        let off: u32 = 4 * k;
        let r = gpio.crh;
        gpio.crh = (r & !(0xFu32 << off)) | (bits << off);
        proof {
            lemma_field4_update(r, k, bits);
        }
    }
}

proof fn lemma_drive_field_small(s: u32)
    by (bit_vector)
    requires
        s < 4,
    ensures
        ((0b00u32 << 2) | s) < 16,
        ((0b01u32 << 2) | s) < 16,
        ((0b10u32 << 2) | s) < 16,
        ((0b11u32 << 2) | s) < 16,
{
}

proof fn lemma_bsrr_set(r: u32, i: u32)
    by (bit_vector)
    requires
        i < 16,
    ensures
        (r & !((1u32 << i) >> 16)) | ((1u32 << i) & 0xFFFF) == r | (1u32 << i),
{
}

proof fn lemma_bsrr_clear(r: u32, i: u32, s: u32)
    by (bit_vector)
    requires
        i < 16,
        s == i + 16,
    ensures
        (r & !((1u32 << s) >> 16)) | ((1u32 << s) & 0xFFFF) == r & !(1u32 << i),
{
}

impl Pin<Reset> {
    /// Configures the pin as a push-pull output at the chosen slew rate.
    /// The written field is the output drive bits `0b00` above the two
    /// speed bits; every other pin's field survives.
    pub fn push_pull(self, speed: GpioSpeed, gpio: &mut GpioRegs) -> (p: Pin<Output>)
        requires
            self.wf(),
        ensures
            p.index() == self.index(),
            p.port_id() == self.port_id(),
            mode_field(*final(gpio), self.index()) == (0b00u32 << 2) | spec_speed_bits(speed),
            forall|j: u32|
                j < 16 && j != self.index() ==> mode_field(*final(gpio), j) == mode_field(
                    *old(gpio),
                    j,
                ),
            final(gpio).idr == old(gpio).idr,
            final(gpio).odr == old(gpio).odr,
    {
        let s: u32 = speed_bits(speed);
        proof {
            lemma_drive_field_small(s);
        }
        let bits: u32 = (0b00u32 << 2) | s;
        set_mode_field(gpio, self.pin, bits);
        Pin { port: self.port, pin: self.pin, mode: Output }
    }

    /// Configures the pin as an open-drain output at the chosen slew rate
    /// (drive bits `0b01` above the speed bits).
    pub fn open_drain(self, speed: GpioSpeed, gpio: &mut GpioRegs) -> (p: Pin<Output>)
        requires
            self.wf(),
        ensures
            p.index() == self.index(),
            p.port_id() == self.port_id(),
            mode_field(*final(gpio), self.index()) == (0b01u32 << 2) | spec_speed_bits(speed),
            forall|j: u32|
                j < 16 && j != self.index() ==> mode_field(*final(gpio), j) == mode_field(
                    *old(gpio),
                    j,
                ),
            final(gpio).idr == old(gpio).idr,
            final(gpio).odr == old(gpio).odr,
    {
        let s: u32 = speed_bits(speed);
        proof {
            lemma_drive_field_small(s);
        }
        let bits: u32 = (0b01u32 << 2) | s;
        set_mode_field(gpio, self.pin, bits);
        Pin { port: self.port, pin: self.pin, mode: Output }
    }

    /// Hands the pin to its alternate function with push-pull drive
    /// (drive bits `0b10` above the speed bits).
    pub fn alternate_push_pull(self, speed: GpioSpeed, gpio: &mut GpioRegs) -> (p: Pin<Alternate>)
        requires
            self.wf(),
        ensures
            p.index() == self.index(),
            p.port_id() == self.port_id(),
            mode_field(*final(gpio), self.index()) == (0b10u32 << 2) | spec_speed_bits(speed),
            forall|j: u32|
                j < 16 && j != self.index() ==> mode_field(*final(gpio), j) == mode_field(
                    *old(gpio),
                    j,
                ),
            final(gpio).idr == old(gpio).idr,
            final(gpio).odr == old(gpio).odr,
    {
        let s: u32 = speed_bits(speed);
        proof {
            lemma_drive_field_small(s);
        }
        let bits: u32 = (0b10u32 << 2) | s;
        set_mode_field(gpio, self.pin, bits);
        Pin { port: self.port, pin: self.pin, mode: Alternate }
    }

    /// Hands the pin to its alternate function with open-drain drive
    /// (drive bits `0b11` above the speed bits).
    pub fn alternate_open_drain(self, speed: GpioSpeed, gpio: &mut GpioRegs) -> (p: Pin<Alternate>)
        requires
            self.wf(),
        ensures
            p.index() == self.index(),
            p.port_id() == self.port_id(),
            mode_field(*final(gpio), self.index()) == (0b11u32 << 2) | spec_speed_bits(speed),
            forall|j: u32|
                j < 16 && j != self.index() ==> mode_field(*final(gpio), j) == mode_field(
                    *old(gpio),
                    j,
                ),
            final(gpio).idr == old(gpio).idr,
            final(gpio).odr == old(gpio).odr,
    {
        let s: u32 = speed_bits(speed);
        proof {
            lemma_drive_field_small(s);
        }
        let bits: u32 = (0b11u32 << 2) | s;
        set_mode_field(gpio, self.pin, bits);
        Pin { port: self.port, pin: self.pin, mode: Alternate }
    }

    /// Configures the pin as an input with the internal pull-up: the pull
    /// direction is seeded first through the atomic set-reset register,
    /// then the mode field becomes the pulled-input encoding `0b1000`.
    pub fn pull_up(self, gpio: &mut GpioRegs) -> (p: Pin<Input>)
        requires
            self.wf(),
        ensures
            p.index() == self.index(),
            p.port_id() == self.port_id(),
            mode_field(*final(gpio), self.index()) == 0b1000u32,
            forall|j: u32|
                j < 16 && j != self.index() ==> mode_field(*final(gpio), j) == mode_field(
                    *old(gpio),
                    j,
                ),
            final(gpio).idr == old(gpio).idr,
            final(gpio).odr == old(gpio).odr | (1u32 << self.index()),
    {
        let ghost odr0 = gpio.odr;
        gpio.bsrr_write(1u32 << (self.pin as u32));
        proof {
            lemma_bsrr_set(odr0, self.index());
        }
        set_mode_field(gpio, self.pin, 0b1000u32);
        Pin { port: self.port, pin: self.pin, mode: Input }
    }

    /// Configures the pin as an input with the internal pull-down: the
    /// pull direction is seeded through the set-reset register's clear
    /// half, then the mode field becomes the pulled-input encoding.
    pub fn pull_down(self, gpio: &mut GpioRegs) -> (p: Pin<Input>)
        requires
            self.wf(),
        ensures
            p.index() == self.index(),
            p.port_id() == self.port_id(),
            mode_field(*final(gpio), self.index()) == 0b1000u32,
            forall|j: u32|
                j < 16 && j != self.index() ==> mode_field(*final(gpio), j) == mode_field(
                    *old(gpio),
                    j,
                ),
            final(gpio).idr == old(gpio).idr,
            final(gpio).odr == old(gpio).odr & !(1u32 << self.index()),
    {
        let ghost odr0 = gpio.odr;
        gpio.bsrr_write(1u32 << (16 + (self.pin as u32)));
        proof {
            lemma_bsrr_clear(odr0, self.index(), (16 + self.index()) as u32);
        }
        set_mode_field(gpio, self.pin, 0b1000u32);
        Pin { port: self.port, pin: self.pin, mode: Input }
    }

    /// Configures the pin as a floating input (field `0b0100`), touching
    /// no pull direction.
    pub fn floating(self, gpio: &mut GpioRegs) -> (p: Pin<Input>)
        requires
            self.wf(),
        ensures
            p.index() == self.index(),
            p.port_id() == self.port_id(),
            mode_field(*final(gpio), self.index()) == 0b0100u32,
            forall|j: u32|
                j < 16 && j != self.index() ==> mode_field(*final(gpio), j) == mode_field(
                    *old(gpio),
                    j,
                ),
            final(gpio).idr == old(gpio).idr,
            final(gpio).odr == old(gpio).odr,
    {
        set_mode_field(gpio, self.pin, 0b0100u32);
        Pin { port: self.port, pin: self.pin, mode: Input }
    }

    /// Configures the pin for analog use: the all-zero field.
    pub fn analog(self, gpio: &mut GpioRegs) -> (p: Pin<Analog>)
        requires
            self.wf(),
        ensures
            p.index() == self.index(),
            p.port_id() == self.port_id(),
            mode_field(*final(gpio), self.index()) == 0b0000u32,
            forall|j: u32|
                j < 16 && j != self.index() ==> mode_field(*final(gpio), j) == mode_field(
                    *old(gpio),
                    j,
                ),
            final(gpio).idr == old(gpio).idr,
            final(gpio).odr == old(gpio).odr,
    {
        set_mode_field(gpio, self.pin, 0b0000u32);
        Pin { port: self.port, pin: self.pin, mode: Analog }
    }
}

impl Pin<Alternate> {
    /// Releases the pin back to reset mode; a pure type transition that
    /// touches no register.
    pub fn reset(self) -> (p: Pin<Reset>)
        ensures
            p.index() == self.index(),
            p.port_id() == self.port_id(),
    {
        Pin { port: self.port, pin: self.pin, mode: Reset }
    }
}

impl Pin<Analog> {
    /// Releases the pin back to reset mode; a pure type transition that
    /// touches no register.
    pub fn reset(self) -> (p: Pin<Reset>)
        ensures
            p.index() == self.index(),
            p.port_id() == self.port_id(),
    {
        Pin { port: self.port, pin: self.pin, mode: Reset }
    }
}

/// True when the input-data register reads high at line `i`.
pub open spec fn input_high(g: GpioRegs, i: u32) -> bool {
    bit_set(g.idr, i)
}

/// True when the input-data register reads low at line `i`.
pub open spec fn input_low(g: GpioRegs, i: u32) -> bool {
    g.idr & (1u32 << i) == 0
}

/// True when the output-data register holds a high level at line `i`.
pub open spec fn output_high(g: GpioRegs, i: u32) -> bool {
    bit_set(g.odr, i)
}

/// For one snapshot of the input-data register, a pin reads high exactly
/// when it does not read low.
pub proof fn lemma_high_is_not_low(g: GpioRegs, i: u32)
    ensures
        input_high(g, i) == !input_low(g, i),
{
}

/// The operations of a pin configured as an input. Register state is
/// passed explicitly: `gpio` is the register block of the pin's port.
pub trait InputPin: Sized {
    /// What the release back to reset mode produces.
    type Res;

    /// The pin's index within its port.
    spec fn idx(&self) -> u32;

    /// What holds of the value that `reset` returns.
    spec fn reset_ens(&self, r: &Self::Res) -> bool;

    /// Reads the pin's bit of the input-data register; true when low.
    fn is_low(&self, gpio: &GpioRegs) -> (r: bool)
        requires
            self.idx() < 16,
        ensures
            r == input_low(*gpio, self.idx()),
    ;

    /// Reads the pin's bit of the input-data register; true when high.
    fn is_high(&self, gpio: &GpioRegs) -> (r: bool)
        requires
            self.idx() < 16,
        ensures
            r == input_high(*gpio, self.idx()),
    ;

    /// Re-seeds the pull direction upward through the atomic set-reset
    /// register, leaving the mode field and every other line alone.
    fn change_pull_up(&self, gpio: &mut GpioRegs)
        requires
            self.idx() < 16,
        ensures
            final(gpio).odr == old(gpio).odr | (1u32 << self.idx()),
            final(gpio).crl == old(gpio).crl,
            final(gpio).crh == old(gpio).crh,
            final(gpio).idr == old(gpio).idr,
    ;

    /// Re-seeds the pull direction downward through the atomic set-reset
    /// register, leaving the mode field and every other line alone.
    fn change_pull_down(&self, gpio: &mut GpioRegs)
        requires
            self.idx() < 16,
        ensures
            final(gpio).odr == old(gpio).odr & !(1u32 << self.idx()),
            final(gpio).crl == old(gpio).crl,
            final(gpio).crh == old(gpio).crh,
            final(gpio).idr == old(gpio).idr,
    ;

    /// Releases the pin back to reset mode without touching a register.
    fn reset(self) -> (r: Self::Res)
        ensures
            self.reset_ens(&r),
    ;
}

impl InputPin for Pin<Input> {
    type Res = Pin<Reset>;

    open spec fn idx(&self) -> u32 {
        self.index()
    }

    open spec fn reset_ens(&self, r: &Pin<Reset>) -> bool {
        r.index() == self.index() && r.port_id() == self.port_id()
    }

    fn is_low(&self, gpio: &GpioRegs) -> (r: bool) {
        gpio.idr & (1u32 << (self.pin as u32)) == 0
    }

    fn is_high(&self, gpio: &GpioRegs) -> (r: bool) {
        !(gpio.idr & (1u32 << (self.pin as u32)) == 0)
    }

    fn change_pull_up(&self, gpio: &mut GpioRegs) {
        let ghost odr0 = gpio.odr;
        gpio.bsrr_write(1u32 << (self.pin as u32));
        proof {
            lemma_bsrr_set(odr0, self.index());
        }
    }

    fn change_pull_down(&self, gpio: &mut GpioRegs) {
        let ghost odr0 = gpio.odr;
        gpio.bsrr_write(1u32 << (16 + (self.pin as u32)));
        proof {
            lemma_bsrr_clear(odr0, self.index(), (16 + self.index()) as u32);
        }
    }

    fn reset(self) -> (r: Pin<Reset>) {
        Pin { port: self.port, pin: self.pin, mode: Reset }
    }
}

proof fn lemma_toggle_cases(r: u32, i: u32)
    by (bit_vector)
    requires
        i < 16,
    ensures
        r & (1u32 << i) == 0 ==> r | (1u32 << i) == r ^ (1u32 << i),
        r & (1u32 << i) != 0 ==> r & !(1u32 << i) == r ^ (1u32 << i),
{
}

/// Toggling a line twice, with no other write in between, lands the
/// output-data register exactly where it started.
pub proof fn lemma_toggle_twice(odr: u32, i: u32)
    by (bit_vector)
    ensures
        (odr ^ (1u32 << i)) ^ (1u32 << i) == odr,
{
}

/// The operations of a pin configured as an output.
pub trait OutputPin: Sized {
    /// What the release back to reset mode produces.
    type Res;

    /// The pin's index within its port.
    spec fn idx(&self) -> u32;

    /// What holds of the value that `reset` returns.
    spec fn reset_ens(&self, r: &Self::Res) -> bool;

    /// Drives the line high through the atomic set-reset register.
    fn set_high(&self, gpio: &mut GpioRegs)
        requires
            self.idx() < 16,
        ensures
            final(gpio).odr == old(gpio).odr | (1u32 << self.idx()),
            final(gpio).crl == old(gpio).crl,
            final(gpio).crh == old(gpio).crh,
            final(gpio).idr == old(gpio).idr,
    ;

    /// Drives the line low through the atomic set-reset register.
    fn set_low(&self, gpio: &mut GpioRegs)
        requires
            self.idx() < 16,
        ensures
            final(gpio).odr == old(gpio).odr & !(1u32 << self.idx()),
            final(gpio).crl == old(gpio).crl,
            final(gpio).crh == old(gpio).crh,
            final(gpio).idr == old(gpio).idr,
    ;

    /// Reads the driven level back from the output-data register; true
    /// when high.
    fn is_set_high(&self, gpio: &GpioRegs) -> (r: bool)
        requires
            self.idx() < 16,
        ensures
            r == output_high(*gpio, self.idx()),
    ;

    /// Reads the driven level back from the output-data register; true
    /// when low.
    fn is_set_low(&self, gpio: &GpioRegs) -> (r: bool)
        requires
            self.idx() < 16,
        ensures
            r == !output_high(*gpio, self.idx()),
    ;

    /// Reads the current output state and writes the opposite level: the
    /// pin's output bit is inverted and nothing else moves. The read and
    /// the write are two register accesses, so the operation is not atomic
    /// against a concurrent writer of the same line.
    fn toggle(&self, gpio: &mut GpioRegs)
        requires
            self.idx() < 16,
        ensures
            final(gpio).odr == old(gpio).odr ^ (1u32 << self.idx()),
            final(gpio).crl == old(gpio).crl,
            final(gpio).crh == old(gpio).crh,
            final(gpio).idr == old(gpio).idr,
    ;

    /// Releases the pin back to reset mode without touching a register.
    fn reset(self) -> (r: Self::Res)
        ensures
            self.reset_ens(&r),
    ;
}

impl OutputPin for Pin<Output> {
    type Res = Pin<Reset>;

    open spec fn idx(&self) -> u32 {
        self.index()
    }

    open spec fn reset_ens(&self, r: &Pin<Reset>) -> bool {
        r.index() == self.index() && r.port_id() == self.port_id()
    }

    fn set_high(&self, gpio: &mut GpioRegs) {
        let ghost odr0 = gpio.odr;
        gpio.bsrr_write(1u32 << (self.pin as u32));
        proof {
            lemma_bsrr_set(odr0, self.index());
        }
    }

    fn set_low(&self, gpio: &mut GpioRegs) {
        let ghost odr0 = gpio.odr;
        gpio.bsrr_write(1u32 << (16 + (self.pin as u32)));
        proof {
            lemma_bsrr_clear(odr0, self.index(), (16 + self.index()) as u32);
        }
    }

    fn is_set_high(&self, gpio: &GpioRegs) -> (r: bool) {
        !(gpio.odr & (1u32 << (self.pin as u32)) == 0)
    }

    fn is_set_low(&self, gpio: &GpioRegs) -> (r: bool) {
        gpio.odr & (1u32 << (self.pin as u32)) == 0
    }

    fn toggle(&self, gpio: &mut GpioRegs) {
        let ghost odr0 = gpio.odr;
        proof {
            lemma_toggle_cases(odr0, self.index());
        }
        if self.is_set_low(gpio) {
            self.set_high(gpio);
        } else {
            self.set_low(gpio);
        }
    }

    fn reset(self) -> (r: Pin<Reset>) {
        Pin { port: self.port, pin: self.pin, mode: Reset }
    }
}

/// True when `v` has exactly one bit set.
pub open spec fn single_bit(v: u32) -> bool {
    exists|i: u32| i < 32 && v == (1u32 << i)
}

/// Clearing a pending bit issues a one-bit write value, and under the
/// write-1-to-clear rule that value clears exactly the addressed bit:
/// every other pending bit of the register keeps its level.
pub proof fn lemma_clear_pending_exact(pr: u32, i: u32)
    requires
        i < 16,
    ensures
        single_bit(1u32 << i),
        !bit_set(pr & !(1u32 << i), i),
        forall|j: u32|
            j < 32 && j != i ==> bit_set(pr & !(1u32 << i), j) == bit_set(pr, j),
{
    assert(i < 32 && (1u32 << i) == (1u32 << i));
    assert(pr & !(1u32 << i) & (1u32 << i) == 0 && forall|j: u32|
        j < 32 && j != i ==> ((pr & !(1u32 << i)) & (1u32 << j) != 0) == (pr & (1u32 << j)
            != 0)) by (bit_vector)
        requires
            i < 16,
    ;
}

/// The external-interrupt capability of a pin in input mode.
pub trait ExtiPin: InputPin {
    /// The selector value that names the pin's port in a line slot.
    spec fn port_sel(&self) -> u32;

    /// Routes the pin's port onto interrupt line `idx`: the 4-bit slot of
    /// that line receives the port selector (superseding whatever port
    /// held the slot, last write wins), and the edge-trigger enables for
    /// the line are set to the requested polarity.
    fn interrupt_init(&self, edge: Edge, afio: &mut AfioRegs, exti: &mut ExtiRegs)
        requires
            self.idx() < 16,
        ensures
            exti_line_sel(*final(afio), self.idx()) == self.port_sel(),
            forall|j: u32|
                j < 16 && j != self.idx() ==> exti_line_sel(*final(afio), j) == exti_line_sel(
                    *old(afio),
                    j,
                ),
            final(exti).rtsr == (if rising_enabled(edge) {
                old(exti).rtsr | (1u32 << self.idx())
            } else {
                old(exti).rtsr & !(1u32 << self.idx())
            }),
            final(exti).ftsr == (if falling_enabled(edge) {
                old(exti).ftsr | (1u32 << self.idx())
            } else {
                old(exti).ftsr & !(1u32 << self.idx())
            }),
            final(exti).imr == old(exti).imr,
            final(exti).swier == old(exti).swier,
            final(exti).pr == old(exti).pr,
    ;

    /// Unmasks the pin's interrupt line.
    fn interrupt_enable(&self, exti: &mut ExtiRegs)
        requires
            self.idx() < 16,
        ensures
            final(exti).imr == old(exti).imr | (1u32 << self.idx()),
            final(exti).rtsr == old(exti).rtsr,
            final(exti).ftsr == old(exti).ftsr,
            final(exti).swier == old(exti).swier,
            final(exti).pr == old(exti).pr,
    ;

    /// Masks the pin's interrupt line.
    fn interrupt_disable(&self, exti: &mut ExtiRegs)
        requires
            self.idx() < 16,
        ensures
            final(exti).imr == old(exti).imr & !(1u32 << self.idx()),
            final(exti).rtsr == old(exti).rtsr,
            final(exti).ftsr == old(exti).ftsr,
            final(exti).swier == old(exti).swier,
            final(exti).pr == old(exti).pr,
    ;

    /// Reads the pin's bit of the pending register.
    fn interrupt_check(&self, exti: &ExtiRegs) -> (r: bool)
        requires
            self.idx() < 16,
        ensures
            r == bit_set(exti.pr, self.idx()),
    ;

    /// Clears the pin's pending bit with a pure write of the one-bit
    /// value, never a read-modify-write: the hardware clears on a written
    /// 1, so a read-modify-write would wipe every pending line at once.
    fn interrupt_clear_pending_bit(&self, exti: &mut ExtiRegs)
        requires
            self.idx() < 16,
        ensures
            final(exti).pr == old(exti).pr & !(1u32 << self.idx()),
            final(exti).imr == old(exti).imr,
            final(exti).rtsr == old(exti).rtsr,
            final(exti).ftsr == old(exti).ftsr,
            final(exti).swier == old(exti).swier,
    ;

    /// Forces a pending event on the pin's line through the
    /// software-interrupt-event register, without a real edge.
    fn interrupt_generate(&self, exti: &mut ExtiRegs)
        requires
            self.idx() < 16,
        ensures
            final(exti).swier == old(exti).swier | (1u32 << self.idx()),
            final(exti).imr == old(exti).imr,
            final(exti).rtsr == old(exti).rtsr,
            final(exti).ftsr == old(exti).ftsr,
            final(exti).pr == old(exti).pr,
    ;
}

impl ExtiPin for Pin<Input> {
    open spec fn port_sel(&self) -> u32 {
        spec_port_selector(self.port_id())
    }

    fn interrupt_init(&self, edge: Edge, afio: &mut AfioRegs, exti: &mut ExtiRegs) {
        let sel: u32 = port_selector(self.port);
        if self.pin < 4 {
            let k: u32 = self.pin as u32;
            let off: u32 = 4 * k;
            let r = afio.exticr1;
            afio.exticr1 = (r & !(0xFu32 << off)) | (sel << off);
            proof {
                lemma_field4_update(r, k, sel);
            }
        } else if self.pin < 8 {
            let k: u32 = (self.pin as u32) - 4;
            let off: u32 = 4 * k;
            let r = afio.exticr2;
            afio.exticr2 = (r & !(0xFu32 << off)) | (sel << off);
            proof {
                lemma_field4_update(r, k, sel);
            }
        } else if self.pin < 12 {
            let k: u32 = (self.pin as u32) - 8;
            let off: u32 = 4 * k;
            let r = afio.exticr3;
            afio.exticr3 = (r & !(0xFu32 << off)) | (sel << off);
            proof {
                lemma_field4_update(r, k, sel);
            }
        } else {
            let k: u32 = (self.pin as u32) - 12;
            let off: u32 = 4 * k;
            let r = afio.exticr4;
            afio.exticr4 = (r & !(0xFu32 << off)) | (sel << off);
            proof {
                lemma_field4_update(r, k, sel);
            }
        }
        let m: u32 = 1u32 << (self.pin as u32);
        match edge {
            Edge::RISING => {
                exti.rtsr = exti.rtsr | m;
                exti.ftsr = exti.ftsr & !m;
            },
            Edge::FALLING => {
                exti.rtsr = exti.rtsr & !m;
                exti.ftsr = exti.ftsr | m;
            },
            Edge::RISINGFALLING => {
                exti.rtsr = exti.rtsr | m;
                exti.ftsr = exti.ftsr | m;
            },
        }
    }

    fn interrupt_enable(&self, exti: &mut ExtiRegs) {
        exti.imr = exti.imr | (1u32 << (self.pin as u32));
    }

    fn interrupt_disable(&self, exti: &mut ExtiRegs) {
        exti.imr = exti.imr & !(1u32 << (self.pin as u32));
    }

    fn interrupt_check(&self, exti: &ExtiRegs) -> (r: bool) {
        exti.pr & (1u32 << (self.pin as u32)) != 0
    }

    fn interrupt_clear_pending_bit(&self, exti: &mut ExtiRegs) {
        exti.pr_write(1u32 << (self.pin as u32));
    }

    fn interrupt_generate(&self, exti: &mut ExtiRegs) {
        exti.swier = exti.swier | (1u32 << (self.pin as u32));
    }
}

} // verus!
