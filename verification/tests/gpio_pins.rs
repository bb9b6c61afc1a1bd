use hal_core::gpio::GpioSpeed;
use hal_core::gpio::InputPin;
use hal_core::gpio::OutputPin;
use hal_core::gpio::Port;
use hal_core::regs::GpioRegs;
use hal_core::regs::RccRegs;

fn fresh_rcc() -> RccRegs {
    RccRegs { cr: 0, cfgr: 0, apb2enr: 0 }
}

#[test]
fn port_enable_sets_its_bit() {
    let mut rcc = fresh_rcc();
    let pins = Port::A.enable(&mut rcc);
    assert_eq!(rcc.apb2enr, 1 << 2);
    assert_eq!(pins.len(), 16);
    let mut rcc = fresh_rcc();
    Port::B.enable(&mut rcc);
    assert_eq!(rcc.apb2enr, 1 << 3);
    let mut rcc = fresh_rcc();
    Port::C.enable(&mut rcc);
    assert_eq!(rcc.apb2enr, 1 << 4);
}

#[test]
fn port_enable_is_idempotent() {
    let mut rcc = fresh_rcc();
    Port::A.enable(&mut rcc);
    let once = rcc.apb2enr;
    Port::A.enable(&mut rcc);
    assert_eq!(rcc.apb2enr, once);
}

#[test]
fn push_pull_writes_field_and_keeps_neighbors() {
    let mut rcc = fresh_rcc();
    let mut pins = Port::A.enable(&mut rcc);
    let p3 = pins.remove(3);
    let mut gpio = GpioRegs { crl: 0xFFFF_FFFF, crh: 0x1234_5678, idr: 0, odr: 0 };
    let _out = p3.push_pull(GpioSpeed::Mhz50, &mut gpio);
    // field 3 becomes 0b0011 (push-pull drive above the 50 MHz class)
    assert_eq!(gpio.crl, 0xFFFF_3FFF);
    assert_eq!(gpio.crh, 0x1234_5678);
}

#[test]
fn open_drain_writes_field_in_high_register() {
    let mut rcc = fresh_rcc();
    let mut pins = Port::B.enable(&mut rcc);
    let p10 = pins.remove(10);
    let mut gpio = GpioRegs { crl: 0xDEAD_BEEF, crh: 0xFFFF_FFFF, idr: 0, odr: 0 };
    let _out = p10.open_drain(GpioSpeed::Mhz2, &mut gpio);
    // pin 10 lives at offset 8 of the high register; 0b0110 is open-drain
    // drive above the 2 MHz class
    assert_eq!(gpio.crh, 0xFFFF_F6FF);
    assert_eq!(gpio.crl, 0xDEAD_BEEF);
}

#[test]
fn alternate_modes_write_their_fields() {
    let mut rcc = fresh_rcc();
    let mut pins = Port::A.enable(&mut rcc);
    let p1 = pins.remove(1);
    let p0 = pins.remove(0);
    let mut gpio = GpioRegs { crl: 0, crh: 0, idr: 0, odr: 0 };
    let _a = p0.alternate_push_pull(GpioSpeed::Mhz10, &mut gpio);
    assert_eq!(gpio.crl, 0b1001);
    let _b = p1.alternate_open_drain(GpioSpeed::Mhz50, &mut gpio);
    assert_eq!(gpio.crl, 0b1111_1001);
}

#[test]
fn pull_up_seeds_output_bit_and_writes_field() {
    let mut rcc = fresh_rcc();
    let mut pins = Port::A.enable(&mut rcc);
    let p4 = pins.remove(4);
    let mut gpio = GpioRegs { crl: 0xFFFF_FFFF, crh: 0, idr: 0, odr: 0 };
    let _in = p4.pull_up(&mut gpio);
    // pulled input field is 0b1000; the pull direction is seeded high
    assert_eq!(gpio.crl, 0xFFF8_FFFF);
    assert_eq!(gpio.odr, 1 << 4);
}

#[test]
fn pull_down_clears_output_bit_and_writes_field() {
    let mut rcc = fresh_rcc();
    let mut pins = Port::A.enable(&mut rcc);
    let p4 = pins.remove(4);
    let mut gpio = GpioRegs { crl: 0, crh: 0, idr: 0, odr: 0xFFFF_FFFF };
    let _in = p4.pull_down(&mut gpio);
    assert_eq!(gpio.crl, 0b1000 << 16);
    assert_eq!(gpio.odr, 0xFFFF_FFFF & !(1 << 4));
}

#[test]
fn floating_and_analog_write_their_fields() {
    let mut rcc = fresh_rcc();
    let mut pins = Port::A.enable(&mut rcc);
    let p8 = pins.remove(8);
    let p7 = pins.remove(7);
    let mut gpio = GpioRegs { crl: 0xFFFF_FFFF, crh: 0xFFFF_FFFF, idr: 0, odr: 0 };
    let _in = p7.floating(&mut gpio);
    assert_eq!(gpio.crl, 0x4FFF_FFFF);
    let _an = p8.analog(&mut gpio);
    assert_eq!(gpio.crh, 0xFFFF_FFF0);
}

#[test]
fn every_pin_writes_its_own_field_slot() {
    let mut rcc = fresh_rcc();
    let pins = Port::A.enable(&mut rcc);
    for (i, p) in pins.into_iter().enumerate() {
        let mut gpio = GpioRegs { crl: 0x8765_4321, crh: 0x0FED_CBA9, idr: 0, odr: 0 };
        let _out = p.push_pull(GpioSpeed::Mhz10, &mut gpio);
        // push-pull at the 10 MHz class encodes 0b0001
        if i < 8 {
            let off = 4 * i;
            assert_eq!(gpio.crl, (0x8765_4321 & !(0xF << off)) | (1 << off));
            assert_eq!(gpio.crh, 0x0FED_CBA9);
        } else {
            let off = 4 * (i - 8);
            assert_eq!(gpio.crh, (0x0FED_CBA9 & !(0xF << off)) | (1 << off));
            assert_eq!(gpio.crl, 0x8765_4321);
        }
    }
}

#[test]
fn is_high_is_negation_of_is_low() {
    let mut rcc = fresh_rcc();
    let mut pins = Port::A.enable(&mut rcc);
    let p3 = pins.remove(3);
    let mut gpio = GpioRegs { crl: 0, crh: 0, idr: 0, odr: 0 };
    let p3 = p3.floating(&mut gpio);
    for idr in [0u32, 1 << 3, 0xFFFF_FFFF, 0xFFFF_FFFF & !(1 << 3), 0xAAAA_AAAA] {
        gpio.idr = idr;
        assert_eq!(p3.is_high(&gpio), !p3.is_low(&gpio));
        assert_eq!(p3.is_high(&gpio), idr & (1 << 3) != 0);
    }
}

#[test]
fn set_high_and_set_low_touch_one_bit() {
    let mut rcc = fresh_rcc();
    let mut pins = Port::A.enable(&mut rcc);
    let p5 = pins.remove(5);
    let mut gpio = GpioRegs { crl: 0, crh: 0, idr: 0, odr: 0xAAAA_AAAA };
    let p5 = p5.push_pull(GpioSpeed::Mhz2, &mut gpio);
    p5.set_high(&mut gpio);
    assert_eq!(gpio.odr, 0xAAAA_AAAA | (1 << 5));
    assert!(p5.is_set_high(&gpio));
    assert!(!p5.is_set_low(&gpio));
    p5.set_low(&mut gpio);
    assert_eq!(gpio.odr, 0xAAAA_AAAA & !(1 << 5));
    assert!(p5.is_set_low(&gpio));
}

#[test]
fn toggle_twice_restores_output_state() {
    let mut rcc = fresh_rcc();
    let mut pins = Port::A.enable(&mut rcc);
    let p6 = pins.remove(6);
    let mut gpio = GpioRegs { crl: 0, crh: 0, idr: 0, odr: 0x5555_5555 };
    let p6 = p6.push_pull(GpioSpeed::Mhz10, &mut gpio);
    let before = gpio.odr;
    p6.toggle(&mut gpio);
    assert_eq!(gpio.odr, before ^ (1 << 6));
    p6.toggle(&mut gpio);
    assert_eq!(gpio.odr, before);
}

#[test]
fn change_pull_direction_without_mode_change() {
    let mut rcc = fresh_rcc();
    let mut pins = Port::A.enable(&mut rcc);
    let p2 = pins.remove(2);
    let mut gpio = GpioRegs { crl: 0, crh: 0, idr: 0, odr: 0 };
    let p2 = p2.pull_down(&mut gpio);
    let crl_after_init = gpio.crl;
    p2.change_pull_up(&mut gpio);
    assert_eq!(gpio.odr, 1 << 2);
    assert_eq!(gpio.crl, crl_after_init);
    p2.change_pull_down(&mut gpio);
    assert_eq!(gpio.odr, 0);
    assert_eq!(gpio.crl, crl_after_init);
}

#[test]
fn reset_returns_pin_to_reset_mode() {
    let mut rcc = fresh_rcc();
    let mut pins = Port::A.enable(&mut rcc);
    let p9 = pins.remove(9);
    let mut gpio = GpioRegs { crl: 0, crh: 0, idr: 0, odr: 0 };
    let out = p9.push_pull(GpioSpeed::Mhz2, &mut gpio);
    let back = out.reset();
    // the released pin still addresses line 9: a new transition writes the
    // same field slot
    gpio.crh = 0;
    let _in = back.floating(&mut gpio);
    assert_eq!(gpio.crh, 0b0100 << 4);
}
