use opt300x::config::{CRF, FH, MODE0, MODE1, OVF, REG_CONFIG, REG_LOW_LIMIT, REG_RESULT};
use opt300x::convert::raw_to_centilux;
use opt300x::scripted::{Performed, Reply, ScriptedBus};
use opt300x::{ic, mode, FaultCount, ModeChangeError, Opt300x, PollError, SlaveAddr, Status};

const DEV_ADDR: u8 = 0b100_0100;
const CFG_DEFAULT: u16 = 0xC810;

fn new_opt3001(replies: Vec<Reply>) -> Opt300x<ScriptedBus, ic::Opt3001, mode::OneShot> {
    Opt300x::new_opt3001(ScriptedBus::new(replies), SlaveAddr::default())
}

fn write(register: u8, value: u16) -> Performed {
    Performed::Write {
        device: DEV_ADDR,
        bytes: vec![register, (value >> 8) as u8, (value & 0xFF) as u8],
    }
}

fn read(register: u8, value: u16) -> Performed {
    Performed::WriteRead {
        device: DEV_ADDR,
        command: vec![register],
        response: vec![(value >> 8) as u8, (value & 0xFF) as u8],
    }
}

fn destroy<IC, MODE>(sensor: Opt300x<ScriptedBus, IC, MODE>, expected: &[Performed]) {
    let bus = sensor.destroy();
    assert!(bus.exhausted());
    assert_eq!(bus.performed().as_slice(), expected);
}

#[test]
fn create_and_destroy_opt3001() {
    let sensor = new_opt3001(vec![]);
    destroy(sensor, &[]);
}

#[test]
fn create_and_destroy_opt3007() {
    let sensor = Opt300x::new_opt3007(ScriptedBus::new(vec![]));
    destroy(sensor, &[]);
}

#[test]
fn can_change_mode() {
    let sensor = new_opt3001(vec![Reply::Accept, Reply::Accept, Reply::Accept]);
    let sensor = sensor.into_continuous().ok().unwrap();
    let sensor = sensor.into_one_shot().ok().unwrap();
    let sensor = sensor.into_continuous().ok().unwrap();
    destroy(
        sensor,
        &[
            write(REG_CONFIG, CFG_DEFAULT | MODE0 | MODE1),
            write(REG_CONFIG, CFG_DEFAULT),
            write(REG_CONFIG, CFG_DEFAULT | MODE0 | MODE1),
        ],
    );
}

#[test]
fn failed_mode_change_keeps_configuration() {
    let sensor = new_opt3001(vec![Reply::Fail(7), Reply::Accept]);
    let mut sensor = match sensor.into_continuous() {
        Ok(_) => panic!("mode change should have failed"),
        Err(ModeChangeError::I2C(code, device)) => {
            assert_eq!(code, 7);
            device
        }
    };
    // The cached configuration must still be the power-on default, so the
    // next successful setter writes exactly the default value back.
    sensor.set_fault_count(FaultCount::One).unwrap();
    destroy(sensor, &[write(REG_CONFIG, CFG_DEFAULT)]);
}

fn check_read_raw(value: u16, expected: (u8, u16)) {
    let sensor = new_opt3001(vec![
        Reply::Accept,
        Reply::Data((value >> 8) as u8, (value & 0xFF) as u8),
    ]);
    let mut sensor = sensor.into_continuous().ok().unwrap();
    let result = sensor.read_raw().unwrap();
    assert_eq!(expected, result);
    destroy(
        sensor,
        &[
            write(REG_CONFIG, CFG_DEFAULT | MODE0 | MODE1),
            read(REG_RESULT, value),
        ],
    );
}

#[test]
fn raw_0_01() {
    check_read_raw(0x01, (0, 0x01));
}

#[test]
fn raw_40() {
    check_read_raw(0xFFF, (0, 0xFFF));
}

#[test]
fn raw_88() {
    check_read_raw(0x3456, (0x3, 0x456));
}

#[test]
fn raw_2818() {
    check_read_raw(0x789A, (0x7, 0x89A));
}

#[test]
fn raw_5242_1() {
    check_read_raw(0x8800, (0x8, 0x800));
}

#[test]
fn raw_5242_2() {
    check_read_raw(0x9400, (0x9, 0x400));
}

#[test]
fn raw_5242_3() {
    check_read_raw(0xA200, (0xA, 0x200));
}

#[test]
fn raw_5242_4() {
    check_read_raw(0xB100, (0xB, 0x100));
}

#[test]
fn raw_20() {
    check_read_raw(0xB001, (0xB, 0x01));
}

#[test]
fn raw_83k() {
    check_read_raw(0xBFFF, (0xB, 0xFFF));
}

#[test]
fn centilux_is_exact() {
    // lux = 0.01 * mantissa * 2^exponent, so centilux = mantissa * 2^exponent.
    assert_eq!(raw_to_centilux(0, 0x01), 1); // 0.01 lux
    assert_eq!(raw_to_centilux(0x3, 0x456), 8880); // 88.80 lux
    assert_eq!(raw_to_centilux(0x7, 0x89A), 281856); // 2818.56 lux
    assert_eq!(raw_to_centilux(0xB, 0xFFF), 8386560); // 83865.60 lux
    assert_eq!(raw_to_centilux(0x8, 0x800), 524288); // 5242.88 lux
    assert_eq!(raw_to_centilux(0xB, 0x100), 524288); // 5242.88 lux
}

#[test]
fn centilux_scales_to_lux() {
    let lux = raw_to_centilux(0xB, 0xFFF) as f32 / 100.0;
    assert!(lux > 83_865.6 - 0.5);
    assert!(lux < 83_865.6 + 0.5);
}

#[test]
fn read_measurement() {
    let value: u16 = 0x789A;
    let sensor = new_opt3001(vec![
        Reply::Accept,
        Reply::Data((CFG_DEFAULT >> 8) as u8, CFG_DEFAULT as u8),
        Reply::Data(
            ((CFG_DEFAULT | OVF) >> 8) as u8,
            (CFG_DEFAULT | CRF | FH) as u8,
        ),
        Reply::Data((value >> 8) as u8, (value & 0xFF) as u8),
    ]);
    let mut sensor = sensor;
    let measurement = loop {
        match sensor.read_raw() {
            Ok(m) => break m,
            Err(PollError::WouldBlock) => continue,
            Err(PollError::Other(e)) => panic!("unexpected bus error {:?}", e),
        }
    };

    assert_eq!(measurement.result, (0x7, 0x89A));
    let lux = raw_to_centilux(measurement.result.0, measurement.result.1) as f32 / 100.0;
    assert!(lux > 2818.56 - 0.5);
    assert!(lux < 2818.56 + 0.5);
    assert_eq!(
        Status {
            has_overflown: true,
            conversion_ready: true,
            was_too_high: true,
            was_too_low: false,
        },
        measurement.status
    );
    destroy(
        sensor,
        &[
            write(REG_CONFIG, CFG_DEFAULT | MODE0),
            read(REG_CONFIG, CFG_DEFAULT),
            read(REG_CONFIG, (CFG_DEFAULT | OVF) & 0xFF00 | (CFG_DEFAULT | CRF | FH) & 0x00FF),
            read(REG_RESULT, value),
        ],
    );
}

#[test]
fn first_poll_only_triggers() {
    let mut sensor = new_opt3001(vec![Reply::Accept]);
    match sensor.read_raw() {
        Err(PollError::WouldBlock) => (),
        _ => panic!("first poll must report would-block"),
    }
    destroy(sensor, &[write(REG_CONFIG, CFG_DEFAULT | MODE0)]);
}

#[test]
fn configured_low_limit_is_restored_after_disabling_end_of_conv() {
    let low_limit: u16 = 0b1010_1010_1010_1010;
    let mut sensor = new_opt3001(vec![Reply::Accept, Reply::Accept, Reply::Accept]);
    sensor
        .set_low_limit_raw((low_limit >> 12) as u8, low_limit & 0xFFF)
        .unwrap();
    sensor.enable_end_of_conversion_mode().unwrap();
    sensor.disable_end_of_conversion_mode().unwrap();
    destroy(
        sensor,
        &[
            write(REG_LOW_LIMIT, low_limit),
            write(REG_LOW_LIMIT, low_limit | 0b11 << 14),
            write(REG_LOW_LIMIT, low_limit),
        ],
    );
}
