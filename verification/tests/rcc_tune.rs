use hal_core::rcc::ClockDomain;
use hal_core::rcc::RccError;
use hal_core::rcc::RccExt;
use hal_core::rcc::CR_HSEBYP;
use hal_core::rcc::CR_HSEON;
use hal_core::rcc::CR_HSERDY;
use hal_core::rcc::CR_PLLON;
use hal_core::rcc::CR_PLLRDY;
use hal_core::regs::FlashRegs;
use hal_core::regs::RccRegs;

fn regs(cr: u32) -> (RccRegs, FlashRegs) {
    (RccRegs { cr, cfgr: 0, apb2enr: 0 }, FlashRegs { acr: 0 })
}

#[test]
fn internal_oscillator_defaults() {
    let (mut rcc, mut flash) = regs(0);
    let clk = RccRegs::rcc_config().tune(&mut rcc, &mut flash).unwrap();
    assert_eq!(clk.sysclk, 8_000_000);
    assert_eq!(clk.pclk1, 8_000_000);
    assert_eq!(clk.pclk2, 8_000_000);
    // the auxiliary divisor is unset, which is unrecognized and falls
    // back to dividing by 6
    assert_eq!(clk.adcclk, 1_333_333);
    // no oscillator or multiplier was touched; the source selector stays
    // on the internal oscillator and the auxiliary selector encodes 6
    assert_eq!(rcc.cr, 0);
    assert_eq!(rcc.cfgr, 0b10 << 14);
    assert_eq!(flash.acr, 0b000);
}

#[test]
fn external_oscillator_with_multiplier_hits_ceiling_exactly() {
    let (mut rcc, mut flash) = regs(CR_HSERDY | CR_PLLRDY);
    let cfg = RccRegs::rcc_config().hse_use(8_000_000).pll(9).apb1(2);
    let clk = cfg.tune(&mut rcc, &mut flash).unwrap();
    assert_eq!(clk.sysclk, 72_000_000);
    assert_eq!(clk.pclk1, 36_000_000);
    assert_eq!(clk.pclk2, 72_000_000);
    assert_eq!(clk.adcclk, 12_000_000);
    assert_eq!(rcc.cr, CR_HSERDY | CR_PLLRDY | CR_HSEON | CR_PLLON);
    // factor field 9-2, external input source, bus-A selector for 2,
    // auxiliary selector for 6, source selector on the multiplier
    assert_eq!(rcc.cfgr, (7 << 18) | (1 << 16) | (0b10 << 14) | (0b100 << 8) | 0b10);
    assert_eq!(flash.acr, 0b010);
}

#[test]
fn multiplier_past_ceiling_fails_before_programming() {
    let (mut rcc, mut flash) = regs(CR_HSERDY | CR_PLLRDY);
    rcc.cfgr = 0x1234;
    flash.acr = 0b111;
    let cfg = RccRegs::rcc_config().hse_use(8_000_000).pll(10).apb1(2);
    let err = match cfg.tune(&mut rcc, &mut flash) {
        Ok(_) => panic!("a multiplied clock above the ceiling must fail"),
        Err(e) => e,
    };
    assert_eq!(
        err,
        RccError::ConstraintViolation {
            domain: ClockDomain::Sys,
            freq: 80_000_000,
            ceiling: 72_000_000,
        }
    );
    // the configuration register and wait states are untouched; only the
    // oscillator was brought up
    assert_eq!(rcc.cfgr, 0x1234);
    assert_eq!(flash.acr, 0b111);
    assert_eq!(rcc.cr, CR_HSERDY | CR_PLLRDY | CR_HSEON);
}

#[test]
fn bus_a_prescaler_two_at_its_ceiling() {
    let (mut rcc, mut flash) = regs(CR_HSERDY | CR_PLLRDY);
    let cfg = RccRegs::rcc_config().hse_use(8_000_000).pll(9).apb1(2);
    let clk = cfg.tune(&mut rcc, &mut flash).unwrap();
    assert_eq!(clk.pclk1, 36_000_000);
}

#[test]
fn bus_a_unset_prescaler_fails_its_ceiling() {
    let (mut rcc, mut flash) = regs(CR_HSERDY | CR_PLLRDY);
    let cfg = RccRegs::rcc_config().hse_use(8_000_000).pll(9);
    let err = match cfg.tune(&mut rcc, &mut flash) {
        Ok(_) => panic!("bus A above its ceiling must fail"),
        Err(e) => e,
    };
    assert_eq!(
        err,
        RccError::ConstraintViolation {
            domain: ClockDomain::BusA,
            freq: 72_000_000,
            ceiling: 36_000_000,
        }
    );
}

#[test]
fn unrecognized_bus_divisor_means_no_division() {
    let (mut rcc, mut flash) = regs(CR_HSERDY | CR_PLLRDY);
    let cfg = RccRegs::rcc_config().hse_use(8_000_000).pll(9).apb1(2).apb2(5);
    let clk = cfg.tune(&mut rcc, &mut flash).unwrap();
    // divisor 5 is unrecognized on a bus prescaler: no division
    assert_eq!(clk.pclk2, 72_000_000);
}

#[test]
fn unrecognized_auxiliary_divisor_falls_back_to_six() {
    let (mut rcc, mut flash) = regs(CR_HSERDY | CR_PLLRDY);
    let cfg = RccRegs::rcc_config().hse_use(8_000_000).pll(9).apb1(2).adc(5);
    let clk = cfg.tune(&mut rcc, &mut flash).unwrap();
    // the same unrecognized divisor on the auxiliary clock divides by 6,
    // not by 1: the fallback is asymmetric to the bus prescalers'
    assert_eq!(clk.adcclk, 12_000_000);
    assert_ne!(clk.adcclk, clk.pclk2);
}

#[test]
fn recognized_auxiliary_divisors() {
    for (div, expect) in [(2u8, 4_000_000u32), (4, 2_000_000), (6, 1_333_333), (8, 1_000_000)] {
        let (mut rcc, mut flash) = regs(0);
        let cfg = RccRegs::rcc_config().adc(div);
        let clk = cfg.tune(&mut rcc, &mut flash).unwrap();
        assert_eq!(clk.adcclk, expect);
    }
}

#[test]
fn auxiliary_clock_past_ceiling_fails() {
    let (mut rcc, mut flash) = regs(CR_HSERDY | CR_PLLRDY);
    let cfg = RccRegs::rcc_config().hse_use(8_000_000).pll(9).apb1(2).adc(4);
    let err = match cfg.tune(&mut rcc, &mut flash) {
        Ok(_) => panic!("auxiliary clock above its ceiling must fail"),
        Err(e) => e,
    };
    assert_eq!(
        err,
        RccError::ConstraintViolation {
            domain: ClockDomain::Aux,
            freq: 18_000_000,
            ceiling: 14_000_000,
        }
    );
}

#[test]
fn oscillator_timeout_disables_it_again() {
    let (mut rcc, mut flash) = regs(0);
    let cfg = RccRegs::rcc_config().hse_use(8_000_000);
    let err = match cfg.tune(&mut rcc, &mut flash) {
        Ok(_) => panic!("an oscillator that never reports ready must fail"),
        Err(e) => e,
    };
    assert_eq!(err, RccError::Timeout);
    assert_eq!(rcc.cr, 0);
    assert_eq!(rcc.cfgr, 0);
}

#[test]
fn oscillator_timeout_keeps_bypass_mark() {
    let (mut rcc, mut flash) = regs(0);
    let cfg = RccRegs::rcc_config().hse_byp_use(8_000_000);
    let err = match cfg.tune(&mut rcc, &mut flash) {
        Ok(_) => panic!("an oscillator that never reports ready must fail"),
        Err(e) => e,
    };
    assert_eq!(err, RccError::Timeout);
    assert_eq!(rcc.cr, CR_HSEBYP);
}

#[test]
fn multiplier_timeout_reports_and_disables() {
    let (mut rcc, mut flash) = regs(CR_HSERDY);
    let cfg = RccRegs::rcc_config().hse_use(8_000_000).pll(9).apb1(2);
    let err = match cfg.tune(&mut rcc, &mut flash) {
        Ok(_) => panic!("a multiplier that never reports ready must fail"),
        Err(e) => e,
    };
    assert_eq!(err, RccError::Timeout);
    // the multiplier enable is withdrawn; its factor field stays
    // programmed, as the bypass mark does on an oscillator timeout
    assert_eq!(rcc.cr, CR_HSERDY | CR_HSEON);
    assert_eq!(rcc.cfgr, (7 << 18) | (1 << 16));
}

#[test]
fn bypassed_oscillator_runs_when_ready() {
    let (mut rcc, mut flash) = regs(CR_HSERDY);
    let cfg = RccRegs::rcc_config().hse_byp_use(12_000_000);
    let clk = cfg.tune(&mut rcc, &mut flash).unwrap();
    assert_eq!(clk.sysclk, 12_000_000);
    assert_eq!(rcc.cr, CR_HSERDY | CR_HSEBYP | CR_HSEON);
    // source selector: the external oscillator directly
    assert_eq!(rcc.cfgr, (0b10 << 14) | 0b01);
}

#[test]
fn internal_oscillator_feeds_multiplier_halved() {
    let (mut rcc, mut flash) = regs(CR_PLLRDY);
    let cfg = RccRegs::rcc_config().pll(9);
    let clk = cfg.tune(&mut rcc, &mut flash).unwrap();
    // without an external source the multiplier input is the internal
    // oscillator halved: 9 x 4 MHz
    assert_eq!(clk.sysclk, 36_000_000);
    assert_eq!(rcc.cr, CR_PLLRDY | CR_PLLON);
    // factor field 9-2 with the internal input source
    assert_eq!(rcc.cfgr, (7 << 18) | (0b10 << 14) | 0b10);
    assert_eq!(flash.acr, 0b001);
}

#[test]
fn wait_states_follow_frequency_bands() {
    let (mut rcc, mut flash) = regs(0);
    RccRegs::rcc_config().tune(&mut rcc, &mut flash).unwrap();
    assert_eq!(flash.acr, 0b000);

    let (mut rcc, mut flash) = regs(CR_HSERDY | CR_PLLRDY);
    let cfg = RccRegs::rcc_config().hse_use(8_000_000).pll(5).apb1(2);
    let clk = cfg.tune(&mut rcc, &mut flash).unwrap();
    assert_eq!(clk.sysclk, 40_000_000);
    assert_eq!(flash.acr, 0b001);

    let (mut rcc, mut flash) = regs(CR_HSERDY | CR_PLLRDY);
    let cfg = RccRegs::rcc_config().hse_use(8_000_000).pll(9).apb1(2);
    cfg.tune(&mut rcc, &mut flash).unwrap();
    assert_eq!(flash.acr, 0b010);
}

#[test]
fn wait_state_write_keeps_other_latency_bits() {
    let (mut rcc, mut flash) = regs(CR_HSERDY | CR_PLLRDY);
    flash.acr = 0xFFFF_FFF8;
    let cfg = RccRegs::rcc_config().hse_use(8_000_000).pll(9).apb1(2);
    cfg.tune(&mut rcc, &mut flash).unwrap();
    assert_eq!(flash.acr, 0xFFFF_FFF8 | 0b010);
}

#[test]
fn routing_write_keeps_unrelated_config_bits() {
    let (mut rcc, mut flash) = regs(0);
    rcc.cfgr = 0xFFFF_0000 & !((1 << 16) | (0xF << 18));
    let before = rcc.cfgr;
    RccRegs::rcc_config().tune(&mut rcc, &mut flash).unwrap();
    assert_eq!(rcc.cfgr, before | (0b10 << 14));
}

#[test]
fn prescaler_divisors_divide_exactly() {
    for (div, expect) in [
        (2u8, 36_000_000u32),
        (4, 18_000_000),
        (8, 9_000_000),
        (16, 4_500_000),
    ] {
        let (mut rcc, mut flash) = regs(CR_HSERDY | CR_PLLRDY);
        let cfg = RccRegs::rcc_config().hse_use(8_000_000).pll(9).apb1(2).apb2(div);
        let clk = cfg.tune(&mut rcc, &mut flash).unwrap();
        assert_eq!(clk.pclk2, expect);
    }
}
