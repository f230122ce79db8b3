//! The driver proper: construction, register access, configuration setters,
//! mode transitions, and the acquisition protocol.

use core::marker::PhantomData;
use vstd::prelude::*;

verus! {

use crate::bus::{be_bytes, read_txn, write_txn, I2cBus, Transaction};
use crate::config::{
    config_with_comparison_mode, config_with_exponent_masking, config_with_fault_count,
    config_with_integration_time, config_with_lux_range, config_with_polarity,
    continuous_mode_bits, decode_status, eoc_overlay, limit_is_valid, lux_range_is_valid,
    one_shot_mode_bits, one_shot_trigger_bits, raw_encoding, Config, CONFIG_POR_DEFAULT, CRF, CT,
    FH, FL, L, ME, MODE0, MODE1, OVF, POL, REG_CONFIG, REG_DEVICE_ID, REG_HIGH_LIMIT,
    REG_LOW_LIMIT, REG_MANUFACTURER_ID, REG_RESULT,
};
use crate::slave_addr::spec_addr;
use crate::{
    ic, mode, ComparisonMode, Error, FaultCount, IntegrationTime, InterruptPinPolarity, LuxRange,
    Measurement, ModeChangeError, Opt300x, PollError, SlaveAddr, Status,
};

impl<I2C, IC, MODE> Opt300x<I2C, IC, MODE> {
    /// The bus instance the driver owns.
    pub closed spec fn bus(&self) -> I2C {
        self.i2c
    }

    /// The cached configuration register value: the last value successfully
    /// written to the device's configuration register, never read back.
    pub closed spec fn config_bits(&self) -> u16 {
        self.config.bits
    }

    /// The low-limit shadow: the last explicitly set low-limit register
    /// value, unaffected by the end-of-conversion overlay.
    pub closed spec fn low_limit_shadow(&self) -> u16 {
        self.low_limit
    }

    /// Whether a one-shot conversion has been requested and not yet
    /// consumed.
    pub closed spec fn conversion_in_flight(&self) -> bool {
        self.was_conversion_started
    }

    /// The 7-bit bus address the driver talks to.
    pub closed spec fn device_address(&self) -> u8 {
        self.address
    }
}

impl<I2C: I2cBus, IC, MODE> Opt300x<I2C, IC, MODE> {
    /// The transactions the driver's bus has completed so far.
    pub open spec fn transactions(&self) -> Seq<Transaction> {
        self.bus().transactions()
    }
}

impl<I2C> Opt300x<I2C, ic::Opt3001, mode::OneShot> {
    /// Create new instance of the OPT3001 device.
    pub fn new_opt3001(i2c: I2C, address: SlaveAddr) -> (d: Self)
        ensures
            d.bus() == i2c,
            d.config_bits() == CONFIG_POR_DEFAULT,
            d.low_limit_shadow() == 0,
            !d.conversion_in_flight(),
            d.device_address() == spec_addr(address),
    {
        Opt300x {
            i2c,
            address: address.addr(),
            config: Config::power_on_reset(),
            low_limit: 0,
            was_conversion_started: false,
            _ic: PhantomData,
            _mode: PhantomData,
        }
    }
}

impl<I2C> Opt300x<I2C, ic::Opt3007, mode::OneShot> {
    /// Create new instance of the OPT3007 device, whose bus address is
    /// fixed to the family's base address.
    pub fn new_opt3007(i2c: I2C) -> (d: Self)
        ensures
            d.bus() == i2c,
            d.config_bits() == CONFIG_POR_DEFAULT,
            d.low_limit_shadow() == 0,
            !d.conversion_in_flight(),
            d.device_address() == spec_addr(SlaveAddr::Default),
    {
        Opt300x {
            i2c,
            address: SlaveAddr::default().addr(),
            config: Config::power_on_reset(),
            low_limit: 0,
            was_conversion_started: false,
            _ic: PhantomData,
            _mode: PhantomData,
        }
    }
}

impl<I2C, IC, MODE> Opt300x<I2C, IC, MODE> {
    /// Destroy driver instance, return the bus instance.
    pub fn destroy(self) -> (i2c: I2C)
        ensures
            i2c == self.bus(),
    {
        self.i2c
    }
}

impl<I2C: I2cBus, IC, MODE> Opt300x<I2C, IC, MODE> {
    /// Write `value` to the 16-bit register at `register`: one bus write of
    /// the register address followed by the value, big-endian.
    fn write_register(&mut self, register: u8, value: u16) -> (res: Result<(), Error<I2C::Error>>)
        ensures
            final(self).config_bits() == old(self).config_bits(),
            final(self).low_limit_shadow() == old(self).low_limit_shadow(),
            final(self).conversion_in_flight() == old(self).conversion_in_flight(),
            final(self).device_address() == old(self).device_address(),
            res is Ok ==> final(self).transactions() == old(self).transactions().push(
                write_txn(old(self).device_address(), register, value),
            ),
            res is Err ==> final(self).transactions() == old(self).transactions() && res matches Err(
                Error::I2C(_),
            ),
    {
        proof {
            assert(value >> 8 < 256 && (value & 0xFF) < 256) by (bit_vector);
        }
        let high: u8 = (value >> 8) as u8;
        let low: u8 = (value & 0xFF) as u8;
        let data: [u8; 3] = [register, high, low];
        match self.i2c.write(self.address, data.as_slice()) {
            Ok(_) => {
                proof {
                    assert(data@ =~= seq![register] + be_bytes(value));
                }
                Ok(())
            },
            Err(e) => Err(Error::I2C(e)),
        }
    }

    /// Read the 16-bit register at `register`: one bus write-read of the
    /// register address out and two value bytes in, composed big-endian.
    fn read_register(&mut self, register: u8) -> (res: Result<u16, Error<I2C::Error>>)
        ensures
            final(self).config_bits() == old(self).config_bits(),
            final(self).low_limit_shadow() == old(self).low_limit_shadow(),
            final(self).conversion_in_flight() == old(self).conversion_in_flight(),
            final(self).device_address() == old(self).device_address(),
            res matches Ok(value) ==> final(self).transactions() == old(self).transactions().push(
                read_txn(old(self).device_address(), register, value),
            ),
            res is Err ==> final(self).transactions() == old(self).transactions() && res matches Err(
                Error::I2C(_),
            ),
    {
        let command: [u8; 1] = [register];
        match self.i2c.write_read(self.address, command.as_slice()) {
            Ok(data) => {
                let high = data[0];
                let low = data[1];
                let value: u16 = ((high as u16) << 8) | (low as u16);
                proof {
                    assert((((high as u16) << 8 | (low as u16)) >> 8) as u8 == high)
                        by (bit_vector);
                    assert((((high as u16) << 8 | (low as u16)) & 0xFF) as u8 == low)
                        by (bit_vector);
                    assert(command@ =~= seq![register]);
                    assert(be_bytes(value) =~= data@);
                }
                Ok(value)
            },
            Err(e) => Err(Error::I2C(e)),
        }
    }

    /// Write `config` to the configuration register and, only on success,
    /// replace the cached configuration with it.
    fn set_config(&mut self, config: Config) -> (res: Result<(), Error<I2C::Error>>)
        ensures
            final(self).low_limit_shadow() == old(self).low_limit_shadow(),
            final(self).conversion_in_flight() == old(self).conversion_in_flight(),
            final(self).device_address() == old(self).device_address(),
            res is Ok ==> final(self).config_bits() == config.bits && final(self).transactions()
                == old(self).transactions().push(
                write_txn(old(self).device_address(), REG_CONFIG, config.bits),
            ),
            res is Err ==> final(self).config_bits() == old(self).config_bits()
                && final(self).transactions() == old(self).transactions()
                && res matches Err(Error::I2C(_)),
    {
        match self.write_register(REG_CONFIG, config.bits) {
            Ok(_) => {
                self.config = config;
                Ok(())
            },
            Err(e) => Err(e),
        }
    }

    /// Set the fault count
    ///
    /// Note that the conversion ready flag is cleared automatically
    /// after calling this method.
    pub fn set_fault_count(&mut self, count: FaultCount) -> (res: Result<(), Error<I2C::Error>>)
        ensures
            final(self).low_limit_shadow() == old(self).low_limit_shadow(),
            final(self).conversion_in_flight() == old(self).conversion_in_flight(),
            final(self).device_address() == old(self).device_address(),
            res is Ok ==> final(self).config_bits() == config_with_fault_count(
                old(self).config_bits(),
                count,
            ) && final(self).transactions() == old(self).transactions().push(
                write_txn(
                    old(self).device_address(),
                    REG_CONFIG,
                    config_with_fault_count(old(self).config_bits(), count),
                ),
            ),
            res is Err ==> final(self).config_bits() == old(self).config_bits()
                && final(self).transactions() == old(self).transactions()
                && res matches Err(Error::I2C(_)),
    {
        let cleared = self.config.bits & !0b11;
        let bits = match count {
            FaultCount::One => cleared,
            FaultCount::Two => cleared | 0b01,
            FaultCount::Four => cleared | 0b10,
            FaultCount::Eight => cleared | 0b11,
        };
        proof {
            assert(cleared | 0b00 == cleared) by (bit_vector);
        }
        self.set_config(Config { bits })
    }

    /// Set the lux range.
    ///
    /// `Error::InvalidInputData` will be returned for manual values outside
    /// the valid range.
    ///
    /// Note that the conversion ready flag is cleared automatically
    /// after calling this method.
    pub fn set_lux_range(&mut self, range: LuxRange) -> (res: Result<(), Error<I2C::Error>>)
        ensures
            final(self).low_limit_shadow() == old(self).low_limit_shadow(),
            final(self).conversion_in_flight() == old(self).conversion_in_flight(),
            final(self).device_address() == old(self).device_address(),
            !lux_range_is_valid(range) ==> (res matches Err(Error::InvalidInputData))
                && final(self).config_bits() == old(self).config_bits()
                && final(self).transactions() == old(self).transactions(),
            lux_range_is_valid(range) ==> match res {
                Ok(_) => final(self).config_bits() == config_with_lux_range(
                    old(self).config_bits(),
                    range,
                ) && final(self).transactions() == old(self).transactions().push(
                    write_txn(
                        old(self).device_address(),
                        REG_CONFIG,
                        config_with_lux_range(old(self).config_bits(), range),
                    ),
                ),
                Err(e) => e matches Error::I2C(_) && final(self).config_bits() == old(
                    self,
                ).config_bits() && final(self).transactions() == old(self).transactions(),
            },
    {
        let value: u8 = match range {
            LuxRange::Auto => 0b1100,
            LuxRange::Manual(rn) => {
                if rn >= 0b1100 {
                    return Err(Error::InvalidInputData);
                }
                rn
            },
        };
        let bits = (self.config.bits & 0x0FFF) | ((value as u16) << 12);
        self.set_config(Config { bits })
    }

    /// Set the integration (conversion) time.
    ///
    /// Note that the conversion ready flag is cleared automatically
    /// after calling this method.
    pub fn set_integration_time(&mut self, time: IntegrationTime) -> (res: Result<
        (),
        Error<I2C::Error>,
    >)
        ensures
            final(self).low_limit_shadow() == old(self).low_limit_shadow(),
            final(self).conversion_in_flight() == old(self).conversion_in_flight(),
            final(self).device_address() == old(self).device_address(),
            res is Ok ==> final(self).config_bits() == config_with_integration_time(
                old(self).config_bits(),
                time,
            ) && final(self).transactions() == old(self).transactions().push(
                write_txn(
                    old(self).device_address(),
                    REG_CONFIG,
                    config_with_integration_time(old(self).config_bits(), time),
                ),
            ),
            res is Err ==> final(self).config_bits() == old(self).config_bits()
                && final(self).transactions() == old(self).transactions()
                && res matches Err(Error::I2C(_)),
    {
        let config = match time {
            IntegrationTime::Ms100 => self.config.with_low(CT),
            IntegrationTime::Ms800 => self.config.with_high(CT),
        };
        self.set_config(config)
    }

    /// Set the interrupt pin polarity
    ///
    /// Note that the conversion ready flag is cleared automatically
    /// after calling this method.
    pub fn set_interrupt_pin_polarity(&mut self, polarity: InterruptPinPolarity) -> (res: Result<
        (),
        Error<I2C::Error>,
    >)
        ensures
            final(self).low_limit_shadow() == old(self).low_limit_shadow(),
            final(self).conversion_in_flight() == old(self).conversion_in_flight(),
            final(self).device_address() == old(self).device_address(),
            res is Ok ==> final(self).config_bits() == config_with_polarity(
                old(self).config_bits(),
                polarity,
            ) && final(self).transactions() == old(self).transactions().push(
                write_txn(
                    old(self).device_address(),
                    REG_CONFIG,
                    config_with_polarity(old(self).config_bits(), polarity),
                ),
            ),
            res is Err ==> final(self).config_bits() == old(self).config_bits()
                && final(self).transactions() == old(self).transactions()
                && res matches Err(Error::I2C(_)),
    {
        let config = match polarity {
            InterruptPinPolarity::Low => self.config.with_low(POL),
            InterruptPinPolarity::High => self.config.with_high(POL),
        };
        self.set_config(config)
    }

    /// Enable exponent masking.
    ///
    /// Note that the conversion ready flag is cleared automatically
    /// after calling this method.
    pub fn enable_exponent_masking(&mut self) -> (res: Result<(), Error<I2C::Error>>)
        ensures
            final(self).low_limit_shadow() == old(self).low_limit_shadow(),
            final(self).conversion_in_flight() == old(self).conversion_in_flight(),
            final(self).device_address() == old(self).device_address(),
            res is Ok ==> final(self).config_bits() == config_with_exponent_masking(
                old(self).config_bits(),
                true,
            ) && final(self).transactions() == old(self).transactions().push(
                write_txn(
                    old(self).device_address(),
                    REG_CONFIG,
                    config_with_exponent_masking(old(self).config_bits(), true),
                ),
            ),
            res is Err ==> final(self).config_bits() == old(self).config_bits()
                && final(self).transactions() == old(self).transactions()
                && res matches Err(Error::I2C(_)),
    {
        self.set_config(self.config.with_high(ME))
    }

    /// Disable exponent masking (default).
    ///
    /// Note that the conversion ready flag is cleared automatically
    /// after calling this method.
    pub fn disable_exponent_masking(&mut self) -> (res: Result<(), Error<I2C::Error>>)
        ensures
            final(self).low_limit_shadow() == old(self).low_limit_shadow(),
            final(self).conversion_in_flight() == old(self).conversion_in_flight(),
            final(self).device_address() == old(self).device_address(),
            res is Ok ==> final(self).config_bits() == config_with_exponent_masking(
                old(self).config_bits(),
                false,
            ) && final(self).transactions() == old(self).transactions().push(
                write_txn(
                    old(self).device_address(),
                    REG_CONFIG,
                    config_with_exponent_masking(old(self).config_bits(), false),
                ),
            ),
            res is Err ==> final(self).config_bits() == old(self).config_bits()
                && final(self).transactions() == old(self).transactions()
                && res matches Err(Error::I2C(_)),
    {
        self.set_config(self.config.with_low(ME))
    }

    /// Set result comparison mode for interrupt reporting
    ///
    /// Note that the conversion ready flag is cleared automatically
    /// after calling this method.
    pub fn set_comparison_mode(&mut self, comparison: ComparisonMode) -> (res: Result<
        (),
        Error<I2C::Error>,
    >)
        ensures
            final(self).low_limit_shadow() == old(self).low_limit_shadow(),
            final(self).conversion_in_flight() == old(self).conversion_in_flight(),
            final(self).device_address() == old(self).device_address(),
            res is Ok ==> final(self).config_bits() == config_with_comparison_mode(
                old(self).config_bits(),
                comparison,
            ) && final(self).transactions() == old(self).transactions().push(
                write_txn(
                    old(self).device_address(),
                    REG_CONFIG,
                    config_with_comparison_mode(old(self).config_bits(), comparison),
                ),
            ),
            res is Err ==> final(self).config_bits() == old(self).config_bits()
                && final(self).transactions() == old(self).transactions()
                && res matches Err(Error::I2C(_)),
    {
        let config = match comparison {
            ComparisonMode::LatchedWindow => self.config.with_high(L),
            ComparisonMode::TransparentHysteresis => self.config.with_low(L),
        };
        self.set_config(config)
    }

    /// Set the lux low limit in raw format (exponent, mantissa).
    ///
    /// Returns `Error::InvalidInputData` for an exponent value greater than
    /// 11 or a mantissa value greater than 4095.
    ///
    /// Note that this disables the end-of-conversion mode.
    pub fn set_low_limit_raw(&mut self, exponent: u8, mantissa: u16) -> (res: Result<
        (),
        Error<I2C::Error>,
    >)
        ensures
            final(self).config_bits() == old(self).config_bits(),
            final(self).conversion_in_flight() == old(self).conversion_in_flight(),
            final(self).device_address() == old(self).device_address(),
            !limit_is_valid(exponent, mantissa) ==> (res matches Err(Error::InvalidInputData))
                && final(self).low_limit_shadow() == old(self).low_limit_shadow()
                && final(self).transactions() == old(self).transactions(),
            limit_is_valid(exponent, mantissa) ==> match res {
                Ok(_) => final(self).low_limit_shadow() == raw_encoding(exponent, mantissa)
                    && final(self).transactions() == old(self).transactions().push(
                    write_txn(
                        old(self).device_address(),
                        REG_LOW_LIMIT,
                        raw_encoding(exponent, mantissa),
                    ),
                ),
                Err(e) => e matches Error::I2C(_) && final(self).low_limit_shadow() == old(
                    self,
                ).low_limit_shadow() && final(self).transactions() == old(self).transactions(),
            },
    {
        if exponent > 0b1011 || mantissa > 0xFFF {
            return Err(Error::InvalidInputData);
        }
        let limit: u16 = ((exponent as u16) << 12) | mantissa;
        match self.write_register(REG_LOW_LIMIT, limit) {
            Ok(_) => {
                self.low_limit = limit;
                Ok(())
            },
            Err(e) => Err(e),
        }
    }

    /// Set the lux high limit in raw format (exponent, mantissa).
    ///
    /// Returns `Error::InvalidInputData` for an exponent value greater than
    /// 11 or a mantissa value greater than 4095.
    pub fn set_high_limit_raw(&mut self, exponent: u8, mantissa: u16) -> (res: Result<
        (),
        Error<I2C::Error>,
    >)
        ensures
            final(self).config_bits() == old(self).config_bits(),
            final(self).low_limit_shadow() == old(self).low_limit_shadow(),
            final(self).conversion_in_flight() == old(self).conversion_in_flight(),
            final(self).device_address() == old(self).device_address(),
            !limit_is_valid(exponent, mantissa) ==> (res matches Err(Error::InvalidInputData))
                && final(self).transactions() == old(self).transactions(),
            limit_is_valid(exponent, mantissa) ==> match res {
                Ok(_) => final(self).transactions() == old(self).transactions().push(
                    write_txn(
                        old(self).device_address(),
                        REG_HIGH_LIMIT,
                        raw_encoding(exponent, mantissa),
                    ),
                ),
                Err(e) => e matches Error::I2C(_) && final(self).transactions() == old(
                    self,
                ).transactions(),
            },
    {
        if exponent > 0b1011 || mantissa > 0xFFF {
            return Err(Error::InvalidInputData);
        }
        let limit: u16 = ((exponent as u16) << 12) | mantissa;
        self.write_register(REG_HIGH_LIMIT, limit)
    }

    /// Enable end-of-conversion mode
    ///
    /// Note that this changes the two highest bits of the lux low limit
    /// exponent. Please see the device datasheet for further details.
    pub fn enable_end_of_conversion_mode(&mut self) -> (res: Result<(), Error<I2C::Error>>)
        ensures
            final(self).config_bits() == old(self).config_bits(),
            final(self).low_limit_shadow() == old(self).low_limit_shadow(),
            final(self).conversion_in_flight() == old(self).conversion_in_flight(),
            final(self).device_address() == old(self).device_address(),
            res is Ok ==> final(self).transactions() == old(self).transactions().push(
                write_txn(
                    old(self).device_address(),
                    REG_LOW_LIMIT,
                    eoc_overlay(old(self).low_limit_shadow()),
                ),
            ),
            res is Err ==> final(self).transactions() == old(self).transactions() && res matches Err(
                Error::I2C(_),
            ),
    {
        let limit = self.low_limit | (0b1100u16 << 12);
        self.write_register(REG_LOW_LIMIT, limit)
    }

    /// Disable end-of-conversion mode
    ///
    /// Note that this restores the two highest bits of the lux low limit
    /// exponent to the last value set before enabling the end-of-conversion
    /// mode (0b00 by default).
    pub fn disable_end_of_conversion_mode(&mut self) -> (res: Result<(), Error<I2C::Error>>)
        ensures
            final(self).config_bits() == old(self).config_bits(),
            final(self).low_limit_shadow() == old(self).low_limit_shadow(),
            final(self).conversion_in_flight() == old(self).conversion_in_flight(),
            final(self).device_address() == old(self).device_address(),
            res is Ok ==> final(self).transactions() == old(self).transactions().push(
                write_txn(
                    old(self).device_address(),
                    REG_LOW_LIMIT,
                    old(self).low_limit_shadow(),
                ),
            ),
            res is Err ==> final(self).transactions() == old(self).transactions() && res matches Err(
                Error::I2C(_),
            ),
    {
        let limit = self.low_limit;
        self.write_register(REG_LOW_LIMIT, limit)
    }

    /// Read the status of the conversion.
    ///
    /// Note that the conversion ready flag is cleared automatically
    /// after calling this method.
    pub fn read_status(&mut self) -> (res: Result<Status, Error<I2C::Error>>)
        ensures
            final(self).config_bits() == old(self).config_bits(),
            final(self).low_limit_shadow() == old(self).low_limit_shadow(),
            final(self).conversion_in_flight() == old(self).conversion_in_flight(),
            final(self).device_address() == old(self).device_address(),
            res matches Ok(status) ==> exists|raw: u16|
                status == decode_status(raw) && final(self).transactions() == old(
                    self,
                ).transactions().push(
                    #[trigger] read_txn(old(self).device_address(), REG_CONFIG, raw),
                ),
            res is Err ==> final(self).transactions() == old(self).transactions() && res matches Err(
                Error::I2C(_),
            ),
    {
        let config = match self.read_register(REG_CONFIG) {
            Ok(v) => v,
            Err(e) => {
                return Err(e);
            },
        };
        Ok(
            Status {
                has_overflown: (config & OVF) != 0,
                conversion_ready: (config & CRF) != 0,
                was_too_high: (config & FH) != 0,
                was_too_low: (config & FL) != 0,
            },
        )
    }

    /// Read the manufacturer ID
    pub fn get_manufacturer_id(&mut self) -> (res: Result<u16, Error<I2C::Error>>)
        ensures
            final(self).config_bits() == old(self).config_bits(),
            final(self).low_limit_shadow() == old(self).low_limit_shadow(),
            final(self).conversion_in_flight() == old(self).conversion_in_flight(),
            final(self).device_address() == old(self).device_address(),
            res matches Ok(id) ==> final(self).transactions() == old(self).transactions().push(
                read_txn(old(self).device_address(), REG_MANUFACTURER_ID, id),
            ),
            res is Err ==> final(self).transactions() == old(self).transactions() && res matches Err(
                Error::I2C(_),
            ),
    {
        self.read_register(REG_MANUFACTURER_ID)
    }

    /// Read the device ID
    pub fn get_device_id(&mut self) -> (res: Result<u16, Error<I2C::Error>>)
        ensures
            final(self).config_bits() == old(self).config_bits(),
            final(self).low_limit_shadow() == old(self).low_limit_shadow(),
            final(self).conversion_in_flight() == old(self).conversion_in_flight(),
            final(self).device_address() == old(self).device_address(),
            res matches Ok(id) ==> final(self).transactions() == old(self).transactions().push(
                read_txn(old(self).device_address(), REG_DEVICE_ID, id),
            ),
            res is Err ==> final(self).transactions() == old(self).transactions() && res matches Err(
                Error::I2C(_),
            ),
    {
        self.read_register(REG_DEVICE_ID)
    }
}

impl<I2C: I2cBus, IC> Opt300x<I2C, IC, mode::OneShot> {
    /// Change into continuous measurement mode
    ///
    /// One register write sets both mode bits high. On a bus error the
    /// original handle comes back unchanged inside the error, so the device
    /// object is never lost.
    ///
    /// Note that the conversion ready flag is cleared automatically
    /// after calling this method.
    pub fn into_continuous(self) -> (res: Result<
        Opt300x<I2C, IC, mode::Continuous>,
        ModeChangeError<I2C::Error, Opt300x<I2C, IC, mode::OneShot>>,
    >)
        ensures
            res matches Ok(d) ==> {
                &&& d.config_bits() == continuous_mode_bits(self.config_bits())
                &&& d.transactions() == self.transactions().push(
                    write_txn(
                        self.device_address(),
                        REG_CONFIG,
                        continuous_mode_bits(self.config_bits()),
                    ),
                )
                &&& d.low_limit_shadow() == self.low_limit_shadow()
                &&& !d.conversion_in_flight()
                &&& d.device_address() == self.device_address()
            },
            res matches Err(ModeChangeError::I2C(_, d)) ==> {
                &&& d.config_bits() == self.config_bits()
                &&& d.transactions() == self.transactions()
                &&& d.low_limit_shadow() == self.low_limit_shadow()
                &&& d.conversion_in_flight() == self.conversion_in_flight()
                &&& d.device_address() == self.device_address()
            },
    {
        let mut this = self;
        let config = this.config.with_high(MODE0).with_high(MODE1);
        proof {
            let bits: u16 = this.config.bits;
            assert((bits | MODE0) | MODE1 == bits | (MODE0 | MODE1)) by (bit_vector);
        }
        if let Err(Error::I2C(e)) = this.set_config(config) {
            return Err(ModeChangeError::I2C(e, this));
        }
        Ok(
            Opt300x {
                i2c: this.i2c,
                address: this.address,
                config: this.config,
                low_limit: this.low_limit,
                was_conversion_started: false,
                _ic: PhantomData,
                _mode: PhantomData,
            },
        )
    }

    /// Read the result of the most recent light to digital conversion in
    /// raw format: (exponent, mantissa)
    ///
    /// Non-blocking two-phase poll. The first call requests a conversion
    /// (one configuration write) and reports [`PollError::WouldBlock`];
    /// each later call reads the status once and either reports
    /// [`PollError::WouldBlock`] again or, once the conversion is ready,
    /// reads the result register and returns the measurement together with
    /// the status read in the same poll. Each call performs at most one
    /// status read; the caller decides how to wait between polls.
    pub fn read_raw(&mut self) -> (res: Result<
        Measurement<(u8, u16)>,
        PollError<Error<I2C::Error>>,
    >)
        ensures
            final(self).config_bits() == old(self).config_bits(),
            final(self).low_limit_shadow() == old(self).low_limit_shadow(),
            final(self).device_address() == old(self).device_address(),
            !old(self).conversion_in_flight() ==> match res {
                Ok(_) => false,
                Err(PollError::WouldBlock) => {
                    &&& final(self).conversion_in_flight()
                    &&& final(self).transactions() == old(self).transactions().push(
                        write_txn(
                            old(self).device_address(),
                            REG_CONFIG,
                            one_shot_trigger_bits(old(self).config_bits()),
                        ),
                    )
                },
                Err(PollError::Other(e)) => {
                    &&& e matches Error::I2C(_)
                    &&& !final(self).conversion_in_flight()
                    &&& final(self).transactions() == old(self).transactions()
                },
            },
            old(self).conversion_in_flight() ==> match res {
                Ok(m) => {
                    &&& !final(self).conversion_in_flight()
                    &&& m.result.0 <= 0xF
                    &&& m.result.1 <= 0xFFF
                    &&& m.status.conversion_ready
                    &&& exists|sraw: u16|
                        m.status == decode_status(sraw) && final(self).transactions() == old(
                            self,
                        ).transactions().push(
                            #[trigger] read_txn(old(self).device_address(), REG_CONFIG, sraw),
                        ).push(
                            read_txn(
                                old(self).device_address(),
                                REG_RESULT,
                                raw_encoding(m.result.0, m.result.1),
                            ),
                        )
                },
                Err(PollError::WouldBlock) => {
                    &&& final(self).conversion_in_flight()
                    &&& exists|sraw: u16|
                        !decode_status(sraw).conversion_ready && final(self).transactions() == old(
                            self,
                        ).transactions().push(
                            #[trigger] read_txn(old(self).device_address(), REG_CONFIG, sraw),
                        )
                },
                Err(PollError::Other(e)) => {
                    &&& e matches Error::I2C(_)
                    &&& final(self).conversion_in_flight()
                    &&& (final(self).transactions() == old(self).transactions() || exists|sraw: u16|
                        decode_status(sraw).conversion_ready && final(self).transactions() == old(
                            self,
                        ).transactions().push(
                            #[trigger] read_txn(old(self).device_address(), REG_CONFIG, sraw),
                        ))
                },
            },
    {
        if self.was_conversion_started {
            let status = match self.read_status() {
                Ok(s) => s,
                Err(e) => {
                    return Err(PollError::Other(e));
                },
            };
            if status.conversion_ready {
                let value = match self.read_register(REG_RESULT) {
                    Ok(v) => v,
                    Err(e) => {
                        return Err(PollError::Other(e));
                    },
                };
                self.was_conversion_started = false;
                proof {
                    assert(value >> 12 < 16 && (value & 0xFFF) <= 0xFFF) by (bit_vector);
                    assert(((((value >> 12) as u8) as u16) << 12) | (value & 0xFFF) == value)
                        by (bit_vector);
                }
                Ok(Measurement { result: ((value >> 12) as u8, value & 0xFFF), status })
            } else {
                Err(PollError::WouldBlock)
            }
        } else {
            let config = self.config.with_high(MODE0);
            match self.write_register(REG_CONFIG, config.bits) {
                Ok(_) => {
                    self.was_conversion_started = true;
                    Err(PollError::WouldBlock)
                },
                Err(e) => Err(PollError::Other(e)),
            }
        }
    }
}

impl<I2C: I2cBus, IC> Opt300x<I2C, IC, mode::Continuous> {
    /// Change into one-shot mode
    ///
    /// One register write clears both mode bits, which shuts the device
    /// down until a measurement is requested. On a bus error the original
    /// handle comes back unchanged inside the error.
    pub fn into_one_shot(self) -> (res: Result<
        Opt300x<I2C, IC, mode::OneShot>,
        ModeChangeError<I2C::Error, Opt300x<I2C, IC, mode::Continuous>>,
    >)
        ensures
            res matches Ok(d) ==> {
                &&& d.config_bits() == one_shot_mode_bits(self.config_bits())
                &&& d.transactions() == self.transactions().push(
                    write_txn(
                        self.device_address(),
                        REG_CONFIG,
                        one_shot_mode_bits(self.config_bits()),
                    ),
                )
                &&& d.low_limit_shadow() == self.low_limit_shadow()
                &&& !d.conversion_in_flight()
                &&& d.device_address() == self.device_address()
            },
            res matches Err(ModeChangeError::I2C(_, d)) ==> {
                &&& d.config_bits() == self.config_bits()
                &&& d.transactions() == self.transactions()
                &&& d.low_limit_shadow() == self.low_limit_shadow()
                &&& d.conversion_in_flight() == self.conversion_in_flight()
                &&& d.device_address() == self.device_address()
            },
    {
        let mut this = self;
        let config = this.config.with_low(MODE0).with_low(MODE1);
        proof {
            let bits: u16 = this.config.bits;
            assert((bits & !MODE0) & !MODE1 == bits & !(MODE0 | MODE1)) by (bit_vector);
        }
        if let Err(Error::I2C(e)) = this.set_config(config) {
            return Err(ModeChangeError::I2C(e, this));
        }
        Ok(
            Opt300x {
                i2c: this.i2c,
                address: this.address,
                config: this.config,
                low_limit: this.low_limit,
                was_conversion_started: false,
                _ic: PhantomData,
                _mode: PhantomData,
            },
        )
    }

    /// Read the result of the most recent light to digital conversion in
    /// raw format: (exponent, mantissa)
    pub fn read_raw(&mut self) -> (res: Result<(u8, u16), Error<I2C::Error>>)
        ensures
            final(self).config_bits() == old(self).config_bits(),
            final(self).low_limit_shadow() == old(self).low_limit_shadow(),
            final(self).conversion_in_flight() == old(self).conversion_in_flight(),
            final(self).device_address() == old(self).device_address(),
            res matches Ok(raw) ==> raw.0 <= 0xF && raw.1 <= 0xFFF && final(self).transactions()
                == old(self).transactions().push(
                read_txn(old(self).device_address(), REG_RESULT, raw_encoding(raw.0, raw.1)),
            ),
            res is Err ==> final(self).transactions() == old(self).transactions() && res matches Err(
                Error::I2C(_),
            ),
    {
        let value = match self.read_register(REG_RESULT) {
            Ok(v) => v,
            Err(e) => {
                return Err(e);
            },
        };
        proof {
            assert(value >> 12 < 16 && (value & 0xFFF) <= 0xFFF) by (bit_vector);
            assert(((((value >> 12) as u8) as u16) << 12) | (value & 0xFFF) == value)
                by (bit_vector);
        }
        Ok(((value >> 12) as u8, value & 0xFFF))
    }
}

} // verus!
