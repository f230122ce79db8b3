use opt300x::config::{
    CRF, CT, FH, FL, L, ME, OVF, POL, REG_CONFIG, REG_DEVICE_ID, REG_HIGH_LIMIT, REG_LOW_LIMIT,
    REG_MANUFACTURER_ID,
};
use opt300x::scripted::{Performed, Reply, ScriptedBus};
use opt300x::{
    ic, mode, ComparisonMode, Error, FaultCount, IntegrationTime, InterruptPinPolarity, LuxRange,
    Opt300x, SlaveAddr, Status,
};

const DEV_ADDR: u8 = 0b100_0100;
const CFG_DEFAULT: u16 = 0xC810;

fn new_opt3001(replies: Vec<Reply>) -> Opt300x<ScriptedBus, ic::Opt3001, mode::OneShot> {
    Opt300x::new_opt3001(ScriptedBus::new(replies), SlaveAddr::default())
}

fn write(register: u8, value: u16) -> Performed {
    Performed::Write {
        device: DEV_ADDR,
        bytes: vec![register, (value >> 8) as u8, (value & 0xFF) as u8],
    }
}

fn read(register: u8, value: u16) -> Performed {
    Performed::WriteRead {
        device: DEV_ADDR,
        command: vec![register],
        response: vec![(value >> 8) as u8, (value & 0xFF) as u8],
    }
}

fn destroy<IC, MODE>(sensor: Opt300x<ScriptedBus, IC, MODE>, expected: &[Performed]) {
    let bus = sensor.destroy();
    assert!(bus.exhausted());
    assert_eq!(bus.performed().as_slice(), expected);
}

#[test]
fn faultc1() {
    let mut sensor = new_opt3001(vec![Reply::Accept]);
    sensor.set_fault_count(FaultCount::One).unwrap();
    destroy(sensor, &[write(REG_CONFIG, CFG_DEFAULT)]);
}

#[test]
fn faultc2() {
    let mut sensor = new_opt3001(vec![Reply::Accept]);
    sensor.set_fault_count(FaultCount::Two).unwrap();
    destroy(sensor, &[write(REG_CONFIG, CFG_DEFAULT | 1)]);
}

#[test]
fn faultc4() {
    let mut sensor = new_opt3001(vec![Reply::Accept]);
    sensor.set_fault_count(FaultCount::Four).unwrap();
    destroy(sensor, &[write(REG_CONFIG, CFG_DEFAULT | 2)]);
}

#[test]
fn faultc8() {
    let mut sensor = new_opt3001(vec![Reply::Accept]);
    sensor.set_fault_count(FaultCount::Eight).unwrap();
    destroy(sensor, &[write(REG_CONFIG, CFG_DEFAULT | 3)]);
}

#[test]
fn int_pin_polarity_low() {
    let mut sensor = new_opt3001(vec![Reply::Accept]);
    sensor
        .set_interrupt_pin_polarity(InterruptPinPolarity::Low)
        .unwrap();
    destroy(sensor, &[write(REG_CONFIG, CFG_DEFAULT)]);
}

#[test]
fn int_pin_polarity_high() {
    let mut sensor = new_opt3001(vec![Reply::Accept]);
    sensor
        .set_interrupt_pin_polarity(InterruptPinPolarity::High)
        .unwrap();
    destroy(sensor, &[write(REG_CONFIG, CFG_DEFAULT | POL)]);
}

#[test]
fn comp_mode_latched_window() {
    let mut sensor = new_opt3001(vec![Reply::Accept]);
    sensor
        .set_comparison_mode(ComparisonMode::LatchedWindow)
        .unwrap();
    destroy(sensor, &[write(REG_CONFIG, CFG_DEFAULT)]);
}

#[test]
fn comp_mode_transparent() {
    let mut sensor = new_opt3001(vec![Reply::Accept]);
    sensor
        .set_comparison_mode(ComparisonMode::TransparentHysteresis)
        .unwrap();
    destroy(sensor, &[write(REG_CONFIG, CFG_DEFAULT & !L)]);
}

#[test]
fn too_high_lux_range() {
    let mut sensor = new_opt3001(vec![]);
    match sensor.set_lux_range(LuxRange::Manual(0b1100)) {
        Err(Error::InvalidInputData) => (),
        _ => panic!("InvalidInputData error not returned."),
    }
    destroy(sensor, &[]);
}

#[test]
fn set_lux_range_auto() {
    let mut sensor = new_opt3001(vec![Reply::Accept]);
    sensor.set_lux_range(LuxRange::Auto).unwrap();
    destroy(sensor, &[write(REG_CONFIG, CFG_DEFAULT)]);
}

#[test]
fn set_lux_range_manual_0() {
    let mut sensor = new_opt3001(vec![Reply::Accept]);
    sensor.set_lux_range(LuxRange::Manual(0)).unwrap();
    destroy(sensor, &[write(REG_CONFIG, CFG_DEFAULT & 0x0FFF)]);
}

#[test]
fn set_lux_range_manual_max() {
    let mut sensor = new_opt3001(vec![Reply::Accept]);
    sensor.set_lux_range(LuxRange::Manual(0b1011)).unwrap();
    destroy(
        sensor,
        &[write(REG_CONFIG, CFG_DEFAULT & 0x0FFF | 0b1011 << 12)],
    );
}

#[test]
fn set_integration_time_100() {
    let mut sensor = new_opt3001(vec![Reply::Accept]);
    sensor.set_integration_time(IntegrationTime::Ms100).unwrap();
    destroy(sensor, &[write(REG_CONFIG, CFG_DEFAULT & !CT)]);
}

#[test]
fn set_integration_time_800() {
    let mut sensor = new_opt3001(vec![Reply::Accept]);
    sensor.set_integration_time(IntegrationTime::Ms800).unwrap();
    destroy(sensor, &[write(REG_CONFIG, CFG_DEFAULT | CT)]);
}

#[test]
fn enable_exponent_masking() {
    let mut sensor = new_opt3001(vec![Reply::Accept]);
    sensor.enable_exponent_masking().unwrap();
    destroy(sensor, &[write(REG_CONFIG, CFG_DEFAULT | ME)]);
}

#[test]
fn disable_exponent_masking() {
    let mut sensor = new_opt3001(vec![Reply::Accept]);
    sensor.disable_exponent_masking().unwrap();
    destroy(sensor, &[write(REG_CONFIG, CFG_DEFAULT & !ME)]);
}

#[test]
fn low_limit_exp_too_big() {
    let mut sensor = new_opt3001(vec![]);
    match sensor.set_low_limit_raw(0b1100, 0) {
        Err(Error::InvalidInputData) => (),
        _ => panic!("Should have returned error"),
    }
    destroy(sensor, &[]);
}

#[test]
fn low_limit_mant_too_big() {
    let mut sensor = new_opt3001(vec![]);
    match sensor.set_low_limit_raw(0, 0x1000) {
        Err(Error::InvalidInputData) => (),
        _ => panic!("Should have returned error"),
    }
    destroy(sensor, &[]);
}

#[test]
fn set_low_limit() {
    let mut sensor = new_opt3001(vec![Reply::Accept]);
    sensor.set_low_limit_raw(0xB, 0xFFF).unwrap();
    destroy(sensor, &[write(REG_LOW_LIMIT, 0xBFFF_u16)]);
}

#[test]
fn high_limit_exp_too_big() {
    let mut sensor = new_opt3001(vec![]);
    match sensor.set_high_limit_raw(0b1100, 0) {
        Err(Error::InvalidInputData) => (),
        _ => panic!("Should have returned error"),
    }
    destroy(sensor, &[]);
}

#[test]
fn high_limit_mant_too_big() {
    let mut sensor = new_opt3001(vec![]);
    match sensor.set_high_limit_raw(0, 0x1000) {
        Err(Error::InvalidInputData) => (),
        _ => panic!("Should have returned error"),
    }
    destroy(sensor, &[]);
}

#[test]
fn set_high_limit() {
    let mut sensor = new_opt3001(vec![Reply::Accept]);
    sensor.set_high_limit_raw(0xB, 0xFFF).unwrap();
    destroy(sensor, &[write(REG_HIGH_LIMIT, 0xBFFF_u16)]);
}

#[test]
fn enable_end_of_conv() {
    let mut sensor = new_opt3001(vec![Reply::Accept]);
    sensor.enable_end_of_conversion_mode().unwrap();
    destroy(sensor, &[write(REG_LOW_LIMIT, 0b11 << 14)]);
}

#[test]
fn disable_end_of_conv() {
    let mut sensor = new_opt3001(vec![Reply::Accept]);
    sensor.disable_end_of_conversion_mode().unwrap();
    destroy(sensor, &[write(REG_LOW_LIMIT, 0)]);
}

#[test]
fn can_read_dev_id() {
    let mut sensor = new_opt3001(vec![Reply::Data(0xAB, 0xCD)]);
    let id = sensor.get_device_id().unwrap();
    assert_eq!(0xABCD, id);
    destroy(sensor, &[read(REG_DEVICE_ID, 0xABCD)]);
}

#[test]
fn can_read_manuf_id() {
    let mut sensor = new_opt3001(vec![Reply::Data(0xAB, 0xCD)]);
    let id = sensor.get_manufacturer_id().unwrap();
    assert_eq!(0xABCD, id);
    destroy(sensor, &[read(REG_MANUFACTURER_ID, 0xABCD)]);
}

fn check_status(config_value: u16, expected: Status) {
    let mut sensor = new_opt3001(vec![Reply::Data(
        (config_value >> 8) as u8,
        (config_value & 0xFF) as u8,
    )]);
    let status = sensor.read_status().unwrap();
    assert_eq!(expected, status);
    destroy(sensor, &[read(REG_CONFIG, config_value)]);
}

#[test]
fn status_all_false() {
    check_status(
        0,
        Status {
            has_overflown: false,
            conversion_ready: false,
            was_too_high: false,
            was_too_low: false,
        },
    );
}

#[test]
fn status_overflow() {
    check_status(
        OVF,
        Status {
            has_overflown: true,
            conversion_ready: false,
            was_too_high: false,
            was_too_low: false,
        },
    );
}

#[test]
fn status_conversion_ready() {
    check_status(
        CRF,
        Status {
            has_overflown: false,
            conversion_ready: true,
            was_too_high: false,
            was_too_low: false,
        },
    );
}

#[test]
fn status_too_high() {
    check_status(
        FH,
        Status {
            has_overflown: false,
            conversion_ready: false,
            was_too_high: true,
            was_too_low: false,
        },
    );
}

#[test]
fn status_too_low() {
    check_status(
        FL,
        Status {
            has_overflown: false,
            conversion_ready: false,
            was_too_high: false,
            was_too_low: true,
        },
    );
}

#[test]
fn status_all_true() {
    check_status(
        OVF | CRF | FH | FL,
        Status {
            has_overflown: true,
            conversion_ready: true,
            was_too_high: true,
            was_too_low: true,
        },
    );
}

#[test]
fn write_error_is_propagated() {
    let mut sensor = new_opt3001(vec![Reply::Fail(9)]);
    match sensor.set_fault_count(FaultCount::Eight) {
        Err(Error::I2C(code)) => assert_eq!(code, 9),
        _ => panic!("bus error not propagated"),
    }
    destroy(sensor, &[]);
}

#[test]
fn read_error_is_propagated() {
    let mut sensor = new_opt3001(vec![Reply::Fail(5)]);
    match sensor.read_status() {
        Err(Error::I2C(code)) => assert_eq!(code, 5),
        _ => panic!("bus error not propagated"),
    }
    destroy(sensor, &[]);
}
