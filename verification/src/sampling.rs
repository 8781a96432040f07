//! Reading one sample: the output registers that the configuration asks
//! for, and, when a frame reported saturation or an error, the status
//! registers that tell which.
use vstd::prelude::*;
use crate::config::{Config, SampleMode};
use crate::error::Error;
use crate::ops::{Action, Op};
use crate::registers::{
    ACC_DCNT, ACC_X1, ACC_X2, ACC_Y1, ACC_Y2, ACC_Z1, ACC_Z2, FREQ_CNTR, RATE_DCNT, RATE_X1,
    RATE_X2, RATE_Y1, RATE_Y2, RATE_Z1, RATE_Z2, STAT_ACC_X, STAT_ACC_Y, STAT_ACC_Z, STAT_COM, STAT_RATE_COM, STAT_RATE_X,
    STAT_RATE_Y, STAT_RATE_Z, STAT_SUM, STAT_SUM_SAT, TEMP, axis_value, axis_value_of,
    data_counter_of, data_counter_value, freq_counter_value, temperature_of, temperature_value,
};
use crate::sample::{DataCounter, RawAccel, RawRate, RawSample};
use crate::settings::{AccDynamicRange, RateDynamicRange, SensorStatus};
use crate::status::{StatAccFields, StatComFields, StatRateComFields, StatRateFields, StatSumFields,
    StatSumSatFields};

verus! {

/// LSB per degree/s of each gyroscope range (the first two ranges have the
/// same sensitivity).
pub open spec fn lsb_ds_of(r: RateDynamicRange) -> i32 {
    match r {
        RateDynamicRange::Dyn1 => 1600,
        RateDynamicRange::Dyn2 => 1600,
        RateDynamicRange::Dyn3 => 3200,
        RateDynamicRange::Dyn4 => 6400,
    }
}

/// LSB per m/s² of each accelerometer range.
pub open spec fn lsb_mss_of(r: AccDynamicRange) -> i32 {
    match r {
        AccDynamicRange::Dyn1 => 3200,
        AccDynamicRange::Dyn2 => 6400,
        AccDynamicRange::Dyn3 => 12800,
        AccDynamicRange::Dyn4 => 25600,
    }
}

/// LSB per degree/s of a gyroscope range.
pub fn lsb_ds(r: RateDynamicRange) -> (l: i32)
    ensures
        l == lsb_ds_of(r),
{
    match r {
        RateDynamicRange::Dyn1 => 1600,
        RateDynamicRange::Dyn2 => 1600,
        RateDynamicRange::Dyn3 => 3200,
        RateDynamicRange::Dyn4 => 6400,
    }
}

/// LSB per m/s² of an accelerometer range.
pub fn lsb_mss(r: AccDynamicRange) -> (l: i32)
    ensures
        l == lsb_mss_of(r),
{
    match r {
        AccDynamicRange::Dyn1 => 3200,
        AccDynamicRange::Dyn2 => 6400,
        AccDynamicRange::Dyn3 => 12800,
        AccDynamicRange::Dyn4 => 25600,
    }
}

/// The six output registers of a read mode: gyroscope x, y, z, then
/// accelerometer x, y, z.
pub open spec fn data_registers(mode: SampleMode) -> Seq<u8> {
    match mode {
        SampleMode::Interpolate => seq![RATE_X1, RATE_Y1, RATE_Z1, ACC_X1, ACC_Y1, ACC_Z1],
        SampleMode::Decimation => seq![RATE_X2, RATE_Y2, RATE_Z2, ACC_X2, ACC_Y2, ACC_Z2],
    }
}

/// The registers that a sample reads first, in order: the six outputs of
/// the read mode, then the temperature, the two data counter registers and
/// the clock counter, each when the configuration asks for it.
pub open spec fn sample_plan(c: Config) -> Seq<u8> {
    data_registers(c.sample_mode) + (if c.include_temperature {
        seq![TEMP]
    } else {
        Seq::<u8>::empty()
    }) + (if c.include_data_counters {
        seq![RATE_DCNT, ACC_DCNT]
    } else {
        Seq::<u8>::empty()
    }) + (if c.include_freq_counter {
        seq![FREQ_CNTR]
    } else {
        Seq::<u8>::empty()
    })
}

/// Saturation of accelerometer x, y, z and gyroscope x, y, z, from the
/// saturation summary of the read mode's outputs (whose bits are set when
/// an output is not saturated).
pub open spec fn saturation_of(mode: SampleMode, sat: StatSumSatFields) -> (
    bool,
    bool,
    bool,
    bool,
    bool,
    bool,
) {
    match mode {
        SampleMode::Interpolate => (
            !sat.acc_x_1,
            !sat.acc_y_1,
            !sat.acc_z_1,
            !sat.rate_x_1,
            !sat.rate_y_1,
            !sat.rate_z_1,
        ),
        SampleMode::Decimation => (
            !sat.acc_x_2,
            !sat.acc_y_2,
            !sat.acc_z_2,
            !sat.rate_x_2,
            !sat.rate_y_2,
            !sat.rate_z_2,
        ),
    }
}

/// The sample that the values of the registers of `sample_plan(c)` make,
/// with the saturation flags `s` (accelerometer x, y, z, gyroscope x, y, z).
pub open spec fn sample_of(c: Config, v: Seq<u32>, s: (bool, bool, bool, bool, bool, bool)) -> RawSample {
    let t: int = if c.include_temperature { 1 } else { 0 };
    let k: int = if c.include_data_counters { 2 } else { 0 };
    RawSample {
        accel: RawAccel {
            x: axis_value_of(v[3]) as i32,
            y: axis_value_of(v[4]) as i32,
            z: axis_value_of(v[5]) as i32,
            x_saturated: s.0,
            y_saturated: s.1,
            z_saturated: s.2,
            lsb_mss: lsb_mss_of(c.accel_range),
            data_counter: if c.include_data_counters {
                Some(data_counter_of(v[6 + t + 1]))
            } else {
                None
            },
        },
        rate: RawRate {
            x: axis_value_of(v[0]) as i32,
            y: axis_value_of(v[1]) as i32,
            z: axis_value_of(v[2]) as i32,
            x_saturated: s.3,
            y_saturated: s.4,
            z_saturated: s.5,
            lsb_ds: lsb_ds_of(c.rate_range),
            data_counter: if c.include_data_counters {
                Some(data_counter_of(v[6 + t]))
            } else {
                None
            },
        },
        temp: if c.include_temperature {
            Some(temperature_of(v[6]) as i16)
        } else {
            None
        },
        freq_counter: if c.include_freq_counter {
            Some((v[6 + t + k] % 0x1_0000) as u16)
        } else {
            None
        },
    }
}

/// The status registers that check `k` reads: the common block (0), a
/// gyroscope axis with the shared gyroscope block (1 to 3), an
/// accelerometer axis (4 to 6: x, y, z).
pub open spec fn check_registers(k: int) -> Seq<u8> {
    if k == 0 {
        seq![STAT_COM]
    } else if k == 1 {
        seq![STAT_RATE_COM, STAT_RATE_X]
    } else if k == 2 {
        seq![STAT_RATE_COM, STAT_RATE_Y]
    } else if k == 3 {
        seq![STAT_RATE_COM, STAT_RATE_Z]
    } else if k == 4 {
        seq![STAT_ACC_X]
    } else if k == 5 {
        seq![STAT_ACC_Y]
    } else {
        seq![STAT_ACC_Z]
    }
}

/// Whether the summary lets check `k` pass without reading anything.
pub open spec fn check_skipped(k: int, stat: StatSumFields) -> bool {
    if k == 0 {
        stat.cmn
    } else if k == 1 {
        stat.rate_x
    } else if k == 2 {
        stat.rate_y
    } else if k == 3 {
        stat.rate_z
    } else if k == 4 {
        stat.acc_x
    } else if k == 5 {
        stat.acc_y
    } else {
        stat.acc_z
    }
}

/// The error that check `k` reports for the values of its registers, if
/// any.
pub open spec fn check_error<E>(k: int, v: Seq<u32>) -> Option<Error<E>> {
    if k == 0 {
        let com = StatComFields::from_bits_spec(v[0]);
        if !com.all_ok() {
            Some(Error::CommonError(com))
        } else {
            None
        }
    } else if k <= 3 {
        let com = StatRateComFields::from_bits_spec(v[0]);
        let axis = StatRateFields::from_bits_spec(v[1]);
        if !com.all_ok() || !axis.all_ok() {
            if k == 1 {
                Some(Error::GyroXError((com, axis)))
            } else if k == 2 {
                Some(Error::GyroYError((com, axis)))
            } else {
                Some(Error::GyroZError((com, axis)))
            }
        } else {
            None
        }
    } else {
        let axis = StatAccFields::from_bits_spec(v[0]);
        if !axis.all_ok() {
            if k == 4 {
                Some(Error::AccXError(axis))
            } else if k == 5 {
                Some(Error::AccYError(axis))
            } else {
                Some(Error::AccZError(axis))
            }
        } else {
            None
        }
    }
}

/// The next step of the status checks from check `k` on, when `rest` holds
/// the values read for the checks from `k` on: each check in turn either
/// passes on its summary bit, or reads its registers and fails with its
/// error, or passes; after the last one the sample is delivered with the
/// saturation flags of the read mode.
pub open spec fn checks_action<E>(
    c: Config,
    data: Seq<u32>,
    stat: StatSumFields,
    sat: StatSumSatFields,
    rest: Seq<u32>,
    k: int,
) -> Action<RawSample, E>
    decreases 7 - k,
{
    if k >= 7 {
        Action::Finish(Ok(sample_of(c, data, saturation_of(c.sample_mode, sat))))
    } else if check_skipped(k, stat) {
        checks_action(c, data, stat, sat, rest, k + 1)
    } else {
        let regs = check_registers(k);
        if rest.len() < regs.len() {
            Action::Do(Op::Read(regs[rest.len() as int]))
        } else {
            match check_error::<E>(k, rest.take(regs.len() as int)) {
                Some(e) => Action::Finish(Err(e)),
                None => checks_action(c, data, stat, sat, rest.skip(regs.len() as int), k + 1),
            }
        }
    }
}

/// What reading a sample asks for next, after the values `v` were read
/// and with `sticky` the sticky status once the planned registers are
/// read. The planned registers come first. If every frame reported normal
/// status, the sample is delivered without saturation. Otherwise the
/// summary and saturation summary are read, then the checks run.
pub open spec fn sample_action<E>(c: Config, sticky: SensorStatus, v: Seq<u32>) -> Action<
    RawSample,
    E,
> {
    let plan = sample_plan(c);
    let n = plan.len() as int;
    if v.len() < n {
        Action::Do(Op::Read(plan[v.len() as int]))
    } else if v.len() == n {
        if sticky == SensorStatus::Normal {
            Action::Finish(Ok(sample_of(c, v, (false, false, false, false, false, false))))
        } else {
            Action::Do(Op::Read(STAT_SUM))
        }
    } else if v.len() == n + 1 {
        Action::Do(Op::Read(STAT_SUM_SAT))
    } else {
        checks_action(
            c,
            v.take(n),
            StatSumFields::from_bits_spec(v[n]),
            StatSumSatFields::from_bits_spec(v[n + 1]),
            v.skip(n + 2),
            0,
        )
    }
}

/// The registers of `sample_plan(*c)`.
pub fn sample_plan_registers(c: &Config) -> (r: Vec<u8>)
    ensures
        r@ == sample_plan(*c),
{
    let mut r = match c.sample_mode {
        SampleMode::Interpolate => vec![RATE_X1, RATE_Y1, RATE_Z1, ACC_X1, ACC_Y1, ACC_Z1],
        SampleMode::Decimation => vec![RATE_X2, RATE_Y2, RATE_Z2, ACC_X2, ACC_Y2, ACC_Z2],
    };
    let ghost r0 = r@;
    assert(r0 =~= data_registers(c.sample_mode));
    if c.include_temperature {
        r.push(TEMP);
    }
    let ghost r1 = r@;
    assert(r1 =~= r0 + (if c.include_temperature { seq![TEMP] } else { Seq::<u8>::empty() }));
    if c.include_data_counters {
        r.push(RATE_DCNT);
        r.push(ACC_DCNT);
    }
    let ghost r2 = r@;
    assert(r2 =~= r1 + (if c.include_data_counters {
        seq![RATE_DCNT, ACC_DCNT]
    } else {
        Seq::<u8>::empty()
    }));
    if c.include_freq_counter {
        r.push(FREQ_CNTR);
    }
    assert(r@ =~= r2 + (if c.include_freq_counter { seq![FREQ_CNTR] } else { Seq::<u8>::empty() }));
    r
}

/// The saturation flags of a read mode (see `saturation_of`).
pub fn saturation(mode: SampleMode, sat: &StatSumSatFields) -> (s: (bool, bool, bool, bool, bool, bool))
    ensures
        s == saturation_of(mode, *sat),
{
    match mode {
        SampleMode::Interpolate => (
            !sat.acc_x_1,
            !sat.acc_y_1,
            !sat.acc_z_1,
            !sat.rate_x_1,
            !sat.rate_y_1,
            !sat.rate_z_1,
        ),
        SampleMode::Decimation => (
            !sat.acc_x_2,
            !sat.acc_y_2,
            !sat.acc_z_2,
            !sat.rate_x_2,
            !sat.rate_y_2,
            !sat.rate_z_2,
        ),
    }
}

/// The sample that the values of the planned registers make (see
/// `sample_of`).
pub fn build_sample(c: &Config, v: &Vec<u32>, s: (bool, bool, bool, bool, bool, bool)) -> (r: RawSample)
    requires
        v@.len() >= sample_plan(*c).len(),
    ensures
        r == sample_of(*c, v@, s),
{
    let t: usize = if c.include_temperature { 1 } else { 0 };
    let k: usize = if c.include_data_counters { 2 } else { 0 };
    let (r_count, a_count) = if c.include_data_counters {
        (Some(data_counter_value(v[6 + t])), Some(data_counter_value(v[6 + t + 1])))
    } else {
        (None, None)
    };
    let temp = if c.include_temperature {
        Some(temperature_value(v[6]))
    } else {
        None
    };
    let freq_counter = if c.include_freq_counter {
        Some(freq_counter_value(v[6 + t + k]))
    } else {
        None
    };
    let rate = RawRate {
        x: axis_value(v[0]),
        y: axis_value(v[1]),
        z: axis_value(v[2]),
        x_saturated: s.3,
        y_saturated: s.4,
        z_saturated: s.5,
        lsb_ds: lsb_ds(c.rate_range),
        data_counter: r_count,
    };
    let accel = RawAccel {
        x: axis_value(v[3]),
        y: axis_value(v[4]),
        z: axis_value(v[5]),
        x_saturated: s.0,
        y_saturated: s.1,
        z_saturated: s.2,
        lsb_mss: lsb_mss(c.accel_range),
        data_counter: a_count,
    };
    RawSample { accel, rate, temp, freq_counter }
}

fn check_skipped_now(k: usize, stat: &StatSumFields) -> (b: bool)
    ensures
        b == check_skipped(k as int, *stat),
{
    if k == 0 {
        stat.cmn
    } else if k == 1 {
        stat.rate_x
    } else if k == 2 {
        stat.rate_y
    } else if k == 3 {
        stat.rate_z
    } else if k == 4 {
        stat.acc_x
    } else if k == 5 {
        stat.acc_y
    } else {
        stat.acc_z
    }
}

fn check_registers_now(k: usize) -> (r: Vec<u8>)
    ensures
        r@ == check_registers(k as int),
        1 <= r@.len() <= 2,
{
    let r = if k == 0 {
        vec![STAT_COM]
    } else if k == 1 {
        vec![STAT_RATE_COM, STAT_RATE_X]
    } else if k == 2 {
        vec![STAT_RATE_COM, STAT_RATE_Y]
    } else if k == 3 {
        vec![STAT_RATE_COM, STAT_RATE_Z]
    } else if k == 4 {
        vec![STAT_ACC_X]
    } else if k == 5 {
        vec![STAT_ACC_Y]
    } else {
        vec![STAT_ACC_Z]
    };
    assert(r@ =~= check_registers(k as int));
    r
}

fn check_error_now<E>(k: usize, v: &Vec<u32>, at: usize) -> (r: Option<Error<E>>)
    requires
        at + check_registers(k as int).len() <= v@.len(),
    ensures
        r == check_error::<E>(k as int, v@.skip(at as int).take(check_registers(k as int).len() as int)),
{
    let ghost w = v@.skip(at as int).take(check_registers(k as int).len() as int);
    let _len = v.len();
    if k == 0 {
        assert(w[0] == v@[at as int]);
        let com = StatComFields::from_bits(v[at]);
        if !com.ok() {
            Some(Error::CommonError(com))
        } else {
            None
        }
    } else if k <= 3 {
        assert(check_registers(k as int).len() == 2);
        assert(w[0] == v@[at as int]);
        assert(w[1] == v@[at + 1]);
        let com = StatRateComFields::from_bits(v[at]);
        let axis = StatRateFields::from_bits(v[at + 1]);
        if !com.ok() || !axis.ok() {
            if k == 1 {
                Some(Error::GyroXError((com, axis)))
            } else if k == 2 {
                Some(Error::GyroYError((com, axis)))
            } else {
                Some(Error::GyroZError((com, axis)))
            }
        } else {
            None
        }
    } else {
        assert(w[0] == v@[at as int]);
        let axis = StatAccFields::from_bits(v[at]);
        if !axis.ok() {
            if k == 4 {
                Some(Error::AccXError(axis))
            } else if k == 5 {
                Some(Error::AccYError(axis))
            } else {
                Some(Error::AccZError(axis))
            }
        } else {
            None
        }
    }
}

/// The state of a sample read: the configuration and the values read so
/// far.
pub struct SampleRead {
    config: Config,
    values: Vec<u32>,
}

/// The configuration of a sample read and the values read so far.
pub struct SampleReadView {
    pub config: Config,
    pub values: Seq<u32>,
}

impl View for SampleRead {
    type V = SampleReadView;

    closed spec fn view(&self) -> SampleReadView {
        SampleReadView { config: self.config, values: self.values@ }
    }
}

impl SampleRead {
    /// A sample read with the configuration `config`, nothing read yet.
    pub fn new(config: Config) -> (s: SampleRead)
        ensures
            s@.config == config,
            s@.values == Seq::<u32>::empty(),
    {
        SampleRead { config, values: Vec::new() }
    }

    /// Takes in the value of the register that the last `Read` asked for.
    pub fn feed(&mut self, value: u32)
        ensures
            final(self)@.config == old(self)@.config,
            final(self)@.values == old(self)@.values.push(value),
    {
        self.values.push(value);
    }

    /// What the sample read asks for next, with `sticky` the interface's
    /// sticky status (it counts once the planned registers are read).
    pub fn next<E>(&self, sticky: SensorStatus) -> (a: Action<RawSample, E>)
        ensures
            a == sample_action::<E>(self@.config, sticky, self@.values),
    {
        let c = &self.config;
        let v = &self.values;
        let plan = sample_plan_registers(c);
        let n = plan.len();
        if v.len() < n {
            return Action::Do(Op::Read(plan[v.len()]));
        }
        if v.len() == n {
            if sticky == SensorStatus::Normal {
                return Action::Finish(
                    Ok(build_sample(c, v, (false, false, false, false, false, false))),
                );
            } else {
                return Action::Do(Op::Read(STAT_SUM));
            }
        }
        if v.len() == n + 1 {
            return Action::Do(Op::Read(STAT_SUM_SAT));
        }
        let stat = StatSumFields::from_bits(v[n]);
        let sat = StatSumSatFields::from_bits(v[n + 1]);
        let ghost data = v@.take(n as int);
        let ghost goal = checks_action::<E>(*c, data, stat, sat, v@.skip(n + 2), 0);
        proof {
            assert(sample_action::<E>(*c, sticky, v@) == goal);
        }
        let mut k: usize = 0;
        let mut at: usize = n + 2;
        while k < 7
            invariant
                k <= 7,
                n + 2 <= at <= v@.len(),
                n == sample_plan(*c).len(),
                stat == StatSumFields::from_bits_spec(v@[n as int]),
                sat == StatSumSatFields::from_bits_spec(v@[n + 1]),
                data == v@.take(n as int),
                goal == checks_action::<E>(*c, data, stat, sat, v@.skip(at as int), k as int),
                sample_action::<E>(self@.config, sticky, self@.values) == goal,
            decreases 7 - k,
        {
            if check_skipped_now(k, &stat) {
                k = k + 1;
            } else {
                let regs = check_registers_now(k);
                let rem = v.len() - at;
                proof {
                    assert(v@.skip(at as int).len() == rem);
                }
                if rem < regs.len() {
                    return Action::Do(Op::Read(regs[rem]));
                }
                let e = check_error_now::<E>(k, v, at);
                match e {
                    Some(e) => {
                        return Action::Finish(Err(e));
                    },
                    None => {},
                }
                proof {
                    assert(v@.skip(at as int).skip(regs@.len() as int) =~= v@.skip(at + regs@.len()));
                }
                at = at + regs.len();
                k = k + 1;
            }
        }
        let s = saturation(c.sample_mode, &sat);
        proof {
            assert(data.len() == n);
            assert forall|i: int| 0 <= i < n implies data[i] == v@[i] by {}
        }
        let smp = build_sample(c, v, s);
        proof {
            assert(sample_of(*c, v@, s) == sample_of(*c, data, s));
        }
        Action::Finish(Ok(smp))
    }
}

/// When every frame of the planned reads reported normal status, the
/// sample is delivered right after them, with no axis saturated and no
/// status register read.
pub proof fn normal_status_needs_no_status_reads<E>(c: Config, v: Seq<u32>)
    requires
        v.len() == sample_plan(c).len(),
    ensures
        sample_action::<E>(c, SensorStatus::Normal, v) == Action::<RawSample, E>::Finish(
            Ok(sample_of(c, v, (false, false, false, false, false, false))),
        ),
        !sample_of(c, v, (false, false, false, false, false, false)).accel.x_saturated,
{
}

/// Saturation is reported in the sample, not as an error: when the summary
/// reports every block fine, the sample is delivered right after the
/// summary and saturation summary are read, with the saturation flags of
/// the read mode.
pub proof fn saturation_is_reported_in_band<E>(c: Config, sticky: SensorStatus, v: Seq<u32>)
    requires
        v.len() == sample_plan(c).len() as int + 2,
        ({
            let stat = StatSumFields::from_bits_spec(v[sample_plan(c).len() as int]);
            stat.cmn && stat.rate_x && stat.rate_y && stat.rate_z && stat.acc_x && stat.acc_y
                && stat.acc_z
        }),
    ensures
        sample_action::<E>(c, sticky, v) == Action::<RawSample, E>::Finish(
            Ok(
                sample_of(
                    c,
                    v.take(sample_plan(c).len() as int),
                    saturation_of(
                        c.sample_mode,
                        StatSumSatFields::from_bits_spec(v[sample_plan(c).len() as int + 1]),
                    ),
                ),
            ),
        ),
{
    let n = sample_plan(c).len() as int;
    let data = v.take(n);
    let stat = StatSumFields::from_bits_spec(v[n]);
    let sat = StatSumSatFields::from_bits_spec(v[n + 1]);
    let rest = v.skip(n + 2);
    assert(checks_action::<E>(c, data, stat, sat, rest, 6) == checks_action::<E>(c, data, stat, sat, rest, 7));
    assert(checks_action::<E>(c, data, stat, sat, rest, 5) == checks_action::<E>(c, data, stat, sat, rest, 6));
    assert(checks_action::<E>(c, data, stat, sat, rest, 4) == checks_action::<E>(c, data, stat, sat, rest, 5));
    assert(checks_action::<E>(c, data, stat, sat, rest, 3) == checks_action::<E>(c, data, stat, sat, rest, 4));
    assert(checks_action::<E>(c, data, stat, sat, rest, 2) == checks_action::<E>(c, data, stat, sat, rest, 3));
    assert(checks_action::<E>(c, data, stat, sat, rest, 1) == checks_action::<E>(c, data, stat, sat, rest, 2));
    assert(checks_action::<E>(c, data, stat, sat, rest, 0) == checks_action::<E>(c, data, stat, sat, rest, 1));
}

proof fn lemma_checks_ok_sample<E>(
    c: Config,
    data: Seq<u32>,
    stat: StatSumFields,
    sat: StatSumSatFields,
    rest: Seq<u32>,
    k: int,
)
    ensures
        checks_action::<E>(c, data, stat, sat, rest, k) matches Action::Finish(Ok(smp)) ==> smp
            == sample_of(c, data, saturation_of(c.sample_mode, sat)),
    decreases 7 - k,
{
    if k < 7 {
        let regs = check_registers(k);
        if check_skipped(k, stat) {
            lemma_checks_ok_sample::<E>(c, data, stat, sat, rest, k + 1);
        } else if rest.len() >= regs.len() {
            lemma_checks_ok_sample::<E>(c, data, stat, sat, rest.skip(regs.len() as int), k + 1);
        }
    }
}

/// A delivered sample holds the values of the planned registers: its
/// saturation flags are all clear when every frame reported normal status,
/// and otherwise those of the saturation summary for the read mode.
pub proof fn delivered_sample_holds_read_values<E>(c: Config, sticky: SensorStatus, v: Seq<u32>)
    ensures
        sample_action::<E>(c, sticky, v) matches Action::Finish(Ok(smp)) ==> {
            let n = sample_plan(c).len() as int;
            ||| (v.len() == n && sticky == SensorStatus::Normal && smp == sample_of(
                c,
                v,
                (false, false, false, false, false, false),
            ))
            ||| (v.len() >= n + 2 && smp == sample_of(
                c,
                v.take(n),
                saturation_of(c.sample_mode, StatSumSatFields::from_bits_spec(v[n + 1])),
            ))
        },
{
    let n = sample_plan(c).len() as int;
    if v.len() >= n + 2 {
        lemma_checks_ok_sample::<E>(
            c,
            v.take(n),
            StatSumFields::from_bits_spec(v[n]),
            StatSumSatFields::from_bits_spec(v[n + 1]),
            v.skip(n + 2),
            0,
        );
    }
}

proof fn lemma_checks_err<E>(
    c: Config,
    data: Seq<u32>,
    stat: StatSumFields,
    sat: StatSumSatFields,
    rest: Seq<u32>,
    k: int,
)
    requires
        0 <= k,
    ensures
        checks_action::<E>(c, data, stat, sat, rest, k) matches Action::Finish(Err(e)) ==> exists|
            j: int,
            r: Seq<u32>,
        |
            k <= j < 7 && !check_skipped(j, stat) && #[trigger] check_error::<E>(j, r) == Some(e),
    decreases 7 - k,
{
    if k < 7 {
        let regs = check_registers(k);
        if check_skipped(k, stat) {
            lemma_checks_err::<E>(c, data, stat, sat, rest, k + 1);
        } else if rest.len() >= regs.len() {
            let r = rest.take(regs.len() as int);
            if check_error::<E>(k, r) is None {
                lemma_checks_err::<E>(c, data, stat, sat, rest.skip(regs.len() as int), k + 1);
            }
        }
    }
}

/// A sample read fails only through a check whose summary bit was clear
/// and whose status registers reported the fault; in particular never when
/// every frame of the planned reads reported normal status.
pub proof fn sample_errors_come_from_failed_checks<E>(c: Config, sticky: SensorStatus, v: Seq<u32>)
    ensures
        sample_action::<E>(c, sticky, v) matches Action::Finish(Err(e)) ==> {
            let n = sample_plan(c).len() as int;
            &&& v.len() >= n + 2
            &&& exists|j: int, r: Seq<u32>|
                0 <= j < 7 && !check_skipped(j, StatSumFields::from_bits_spec(v[n]))
                    && #[trigger] check_error::<E>(j, r) == Some(e)
        },
{
    let n = sample_plan(c).len() as int;
    if v.len() >= n + 2 {
        lemma_checks_err::<E>(
            c,
            v.take(n),
            StatSumFields::from_bits_spec(v[n]),
            StatSumSatFields::from_bits_spec(v[n + 1]),
            v.skip(n + 2),
            0,
        );
    }
}

proof fn lemma_saturation_bits(s: u32)
    ensures
        ((s >> 15u32) & 1u32 == 1u32) == (s & 0x8000u32 != 0),
        ((s >> 14u32) & 1u32 == 1u32) == (s & 0x4000u32 != 0),
        ((s >> 13u32) & 1u32 == 1u32) == (s & 0x2000u32 != 0),
        ((s >> 12u32) & 1u32 == 1u32) == (s & 0x1000u32 != 0),
        ((s >> 11u32) & 1u32 == 1u32) == (s & 0x0800u32 != 0),
        ((s >> 10u32) & 1u32 == 1u32) == (s & 0x0400u32 != 0),
        ((s >> 9u32) & 1u32 == 1u32) == (s & 0x0200u32 != 0),
        ((s >> 8u32) & 1u32 == 1u32) == (s & 0x0100u32 != 0),
        ((s >> 7u32) & 1u32 == 1u32) == (s & 0x0080u32 != 0),
        ((s >> 6u32) & 1u32 == 1u32) == (s & 0x0040u32 != 0),
        ((s >> 5u32) & 1u32 == 1u32) == (s & 0x0020u32 != 0),
        ((s >> 4u32) & 1u32 == 1u32) == (s & 0x0010u32 != 0),
{
    assert(((s >> 15u32) & 1u32 == 1u32) == (s & 0x8000u32 != 0) && ((s >> 14u32) & 1u32 == 1u32)
        == (s & 0x4000u32 != 0) && ((s >> 13u32) & 1u32 == 1u32) == (s & 0x2000u32 != 0) && ((s
        >> 12u32) & 1u32 == 1u32) == (s & 0x1000u32 != 0) && ((s >> 11u32) & 1u32 == 1u32) == (s
        & 0x0800u32 != 0) && ((s >> 10u32) & 1u32 == 1u32) == (s & 0x0400u32 != 0) && ((s >> 9u32)
        & 1u32 == 1u32) == (s & 0x0200u32 != 0) && ((s >> 8u32) & 1u32 == 1u32) == (s & 0x0100u32
        != 0) && ((s >> 7u32) & 1u32 == 1u32) == (s & 0x0080u32 != 0) && ((s >> 6u32) & 1u32
        == 1u32) == (s & 0x0040u32 != 0) && ((s >> 5u32) & 1u32 == 1u32) == (s & 0x0020u32 != 0)
        && ((s >> 4u32) & 1u32 == 1u32) == (s & 0x0010u32 != 0)) by (bit_vector);
}

/// The saturation flags of a delivered sample come from the saturation
/// summary register (`STAT_SUM_SAT`, whose bits are set while an output is
/// not saturated), each from the bit of its own output. In interpolation
/// mode: accelerometer x, y, z from bits 12, 11, 10 and gyroscope x, y, z
/// from bits 15, 14, 13. In decimation mode: accelerometer x, y, z from
/// bits 6, 5, 4 and gyroscope x, y, z from bits 9, 8, 7. When the sample
/// is delivered without reading that register (every frame normal), no
/// flag is set.
pub proof fn sample_saturation_flags_follow_the_register<E>(c: Config, sticky: SensorStatus, v: Seq<u32>)
    ensures
        sample_action::<E>(c, sticky, v) matches Action::Finish(Ok(smp)) ==> {
            let n = sample_plan(c).len() as int;
            if v.len() == n {
                !smp.accel.x_saturated && !smp.accel.y_saturated && !smp.accel.z_saturated
                    && !smp.rate.x_saturated && !smp.rate.y_saturated && !smp.rate.z_saturated
            } else {
                let s = v[n + 1];
                &&& v.len() >= n + 2
                &&& c.sample_mode == SampleMode::Interpolate ==> {
                    &&& smp.accel.x_saturated == (s & 0x1000 == 0)
                    &&& smp.accel.y_saturated == (s & 0x0800 == 0)
                    &&& smp.accel.z_saturated == (s & 0x0400 == 0)
                    &&& smp.rate.x_saturated == (s & 0x8000 == 0)
                    &&& smp.rate.y_saturated == (s & 0x4000 == 0)
                    &&& smp.rate.z_saturated == (s & 0x2000 == 0)
                }
                &&& c.sample_mode == SampleMode::Decimation ==> {
                    &&& smp.accel.x_saturated == (s & 0x0040 == 0)
                    &&& smp.accel.y_saturated == (s & 0x0020 == 0)
                    &&& smp.accel.z_saturated == (s & 0x0010 == 0)
                    &&& smp.rate.x_saturated == (s & 0x0200 == 0)
                    &&& smp.rate.y_saturated == (s & 0x0100 == 0)
                    &&& smp.rate.z_saturated == (s & 0x0080 == 0)
                }
            }
        },
{
    delivered_sample_holds_read_values::<E>(c, sticky, v);
    let n = sample_plan(c).len() as int;
    if v.len() >= n + 2 {
        lemma_saturation_bits(v[n + 1]);
    }
}

/// A delivered sample carries the sensitivity of the configured ranges:
/// 3200, 6400, 12800, 25600 LSB per m/s² for accelerometer ranges Dyn1 to
/// Dyn4, and 1600, 1600, 3200, 6400 LSB per degree/s for gyroscope ranges
/// Dyn1 to Dyn4.
pub proof fn sample_sensitivity_follows_the_ranges<E>(c: Config, sticky: SensorStatus, v: Seq<u32>)
    ensures
        sample_action::<E>(c, sticky, v) matches Action::Finish(Ok(smp)) ==> {
            &&& smp.accel.lsb_mss == (if c.accel_range == AccDynamicRange::Dyn1 {
                3200i32
            } else if c.accel_range == AccDynamicRange::Dyn2 {
                6400i32
            } else if c.accel_range == AccDynamicRange::Dyn3 {
                12800i32
            } else {
                25600i32
            })
            &&& smp.rate.lsb_ds == (if c.rate_range == RateDynamicRange::Dyn1
                || c.rate_range == RateDynamicRange::Dyn2 {
                1600i32
            } else if c.rate_range == RateDynamicRange::Dyn3 {
                3200i32
            } else {
                6400i32
            })
        },
{
    delivered_sample_holds_read_values::<E>(c, sticky, v);
}

/// The twenty-bit two's complement number in the low bits of a register.
pub open spec fn signed20(d: u32) -> int {
    if d % 0x10_0000 >= 0x8_0000 {
        d % 0x10_0000 - 0x10_0000
    } else {
        (d % 0x10_0000) as int
    }
}

/// A sample reads the six outputs of its mode first, gyroscope x, y, z then
/// accelerometer x, y, z (registers 0x01 to 0x06 when interpolating, 0x0A
/// to 0x0F when decimating), and a delivered sample holds each of them,
/// decoded as twenty-bit two's complement numbers, in its own field; the
/// temperature (register 0x10, read right after them when asked for) is
/// the low sixteen bits as a two's complement number; the data counters
/// (0x11 and 0x12, next when asked for) give x, y, z from bits 7:0, 15:8,
/// 23:16, and the clock counter (0x13, last when asked for) its low sixteen
/// bits.
pub proof fn sample_values_come_from_their_registers<E>(c: Config, sticky: SensorStatus, v: Seq<u32>)
    ensures
        v.len() < 6 ==> sample_action::<E>(c, sticky, v) == Action::<RawSample, E>::Do(
            Op::Read(
                (if c.sample_mode == SampleMode::Interpolate {
                    0x01 + v.len()
                } else {
                    0x0A + v.len()
                }) as u8,
            ),
        ),
        v.len() == 6 && c.include_temperature ==> sample_action::<E>(c, sticky, v)
            == Action::<RawSample, E>::Do(Op::Read(0x10)),
        sample_action::<E>(c, sticky, v) matches Action::Finish(Ok(smp)) ==> {
            &&& v.len() >= 6
            &&& smp.rate.x as int == signed20(v[0])
            &&& smp.rate.y as int == signed20(v[1])
            &&& smp.rate.z as int == signed20(v[2])
            &&& smp.accel.x as int == signed20(v[3])
            &&& smp.accel.y as int == signed20(v[4])
            &&& smp.accel.z as int == signed20(v[5])
            &&& c.include_temperature ==> (smp.temp matches Some(t) && t as int == (if v[6] % 0x1_0000
                >= 0x8000 {
                v[6] % 0x1_0000 - 0x1_0000
            } else {
                (v[6] % 0x1_0000) as int
            }))
            &&& !c.include_temperature ==> smp.temp is None
            &&& c.include_data_counters ==> ({
                let t: int = if c.include_temperature { 7 } else { 6 };
                &&& smp.rate.data_counter == Some(
                    DataCounter {
                        x: (v[t] % 0x100) as u8,
                        y: ((v[t] / 0x100) % 0x100) as u8,
                        z: ((v[t] / 0x1_0000) % 0x100) as u8,
                    },
                )
                &&& smp.accel.data_counter == Some(
                    DataCounter {
                        x: (v[t + 1] % 0x100) as u8,
                        y: ((v[t + 1] / 0x100) % 0x100) as u8,
                        z: ((v[t + 1] / 0x1_0000) % 0x100) as u8,
                    },
                )
            })
            &&& !c.include_data_counters ==> smp.rate.data_counter is None
                && smp.accel.data_counter is None
            &&& c.include_freq_counter ==> ({
                let f: int = 6 + (if c.include_temperature { 1int } else { 0 }) + (if c.include_data_counters {
                    2int
                } else {
                    0
                });
                smp.freq_counter == Some((v[f] % 0x1_0000) as u16)
            })
            &&& !c.include_freq_counter ==> smp.freq_counter is None
        },
        ({
            let t: int = if c.include_temperature { 1 } else { 0 };
            let k: int = if c.include_data_counters { 2 } else { 0 };
            &&& v.len() == 6 + t && c.include_data_counters ==> sample_action::<E>(c, sticky, v)
                == Action::<RawSample, E>::Do(Op::Read(0x11))
            &&& v.len() == 7 + t && c.include_data_counters ==> sample_action::<E>(c, sticky, v)
                == Action::<RawSample, E>::Do(Op::Read(0x12))
            &&& v.len() == 6 + t + k && c.include_freq_counter ==> sample_action::<E>(c, sticky, v)
                == Action::<RawSample, E>::Do(Op::Read(0x13))
        }),
{
    delivered_sample_holds_read_values::<E>(c, sticky, v);
    let n = sample_plan(c).len() as int;
    if v.len() >= n + 2 {
        let d = v.take(n);
        assert(d[0] == v[0] && d[1] == v[1] && d[2] == v[2] && d[3] == v[3] && d[4] == v[4] && d[5]
            == v[5]);
        assert forall|i: int| 0 <= i < n implies #[trigger] d[i] == v[i] by {}
    }
}

/// The check of the common block in a sample read: when the summary (`STAT_SUM`, read
/// after the planned outputs and before the saturation summary) reports
/// every earlier block fine and the common block not fine, the read goes on with
/// register 0x16; when those report a fault, the sample fails with
/// `CommonError` carrying the flags of those registers, bit by bit,
/// and otherwise it does not fail with that error.
pub proof fn sample_check_of_common_block<E>(c: Config, sticky: SensorStatus, v: Seq<u32>)
    requires
        v.len() >= sample_plan(c).len() as int + 2,

        v[sample_plan(c).len() as int] & 0x4000 == 0,
    ensures
        v.len() == sample_plan(c).len() as int + 2 ==> sample_action::<E>(c, sticky, v) == Action::<RawSample, E>::Do(Op::Read(0x16)),
        v.len() == sample_plan(c).len() as int + 3 && (v[sample_plan(c).len() as int + 2] & 0x7FF != 0x7FF) ==> (sample_action::<E>(c, sticky, v) matches Action::Finish(Err(Error::CommonError(com)))
            && com.mclk_ok == (v[sample_plan(c).len() as int + 2] & 0x400 != 0)
            && com.dual_clock_ok == (v[sample_plan(c).len() as int + 2] & 0x200 != 0)
            && com.dsp_ok == (v[sample_plan(c).len() as int + 2] & 0x100 != 0)
            && com.svm_ok == (v[sample_plan(c).len() as int + 2] & 0x80 != 0)
            && com.hv_cp_ok == (v[sample_plan(c).len() as int + 2] & 0x40 != 0)
            && com.supply_ok == (v[sample_plan(c).len() as int + 2] & 0x20 != 0)
            && com.temp_ok == (v[sample_plan(c).len() as int + 2] & 0x10 != 0)
            && com.nmode_ok == (v[sample_plan(c).len() as int + 2] & 0x8 != 0)
            && com.nvm_sts_ok == (v[sample_plan(c).len() as int + 2] & 0x4 != 0)
            && com.cmn_sts_ok == (v[sample_plan(c).len() as int + 2] & 0x2 != 0)
            && com.cmn_sts_rdy == (v[sample_plan(c).len() as int + 2] & 0x1 != 0)),
        v.len() == sample_plan(c).len() as int + 3 && !(v[sample_plan(c).len() as int + 2] & 0x7FF != 0x7FF) ==> !(sample_action::<E>(c, sticky, v) matches Action::Finish(Err(Error::CommonError(_)))),
{
    let n = sample_plan(c).len() as int;
    let data = v.take(n);
    let stat = StatSumFields::from_bits_spec(v[n]);
    let sat = StatSumSatFields::from_bits_spec(v[n + 1]);
    let rest = v.skip(n + 2);
    crate::status::lemma_flag_masks(v[n]);

    if v.len() >= n + 3 {
        assert(rest.take(1) =~= v.subrange(n + 2, n + 3));
        crate::status::lemma_flag_masks(v[n + 2]);
    }
    if v.len() == n + 3 && !(v[n + 2] & 0x7FF != 0x7FF) {
        lemma_checks_err::<E>(c, data, stat, sat, rest.skip(1), 1);
        match sample_action::<E>(c, sticky, v) {
            Action::Finish(Err(e)) => {
                let (j, r) = choose|j: int, r: Seq<u32>|
                    1 <= j < 7 && !check_skipped(j, stat) && #[trigger] check_error::<E>(j, r) == Some(e);
                assert(check_error::<E>(j, r) == Some(e));
            },
            _ => {},
        }
    }
}

/// The check of gyroscope x in a sample read: when the summary (`STAT_SUM`, read
/// after the planned outputs and before the saturation summary) reports
/// every earlier block fine and gyroscope x not fine, the read goes on with
/// register 0x17 then 0x18; when those report a fault, the sample fails with
/// `GyroXError` carrying the flags of those registers, bit by bit,
/// and otherwise it does not fail with that error.
pub proof fn sample_check_of_gyroscope_x<E>(c: Config, sticky: SensorStatus, v: Seq<u32>)
    requires
        v.len() >= sample_plan(c).len() as int + 2,
        v[sample_plan(c).len() as int] & 0x4000 != 0,
        v[sample_plan(c).len() as int] & 0x2000 == 0,
    ensures
        v.len() == sample_plan(c).len() as int + 2 ==> sample_action::<E>(c, sticky, v) == Action::<RawSample, E>::Do(Op::Read(0x17)),
        v.len() == sample_plan(c).len() as int + 3 ==> sample_action::<E>(c, sticky, v) == Action::<RawSample, E>::Do(Op::Read(0x18)),
        v.len() == sample_plan(c).len() as int + 4 && (v[sample_plan(c).len() as int + 2] & 0x7F != 0x7F || v[sample_plan(c).len() as int + 3] & 0x7 != 0x7) ==> (sample_action::<E>(c, sticky, v) matches Action::Finish(Err(Error::GyroXError((com, axis))))
            && com.pri_agc_ok == (v[sample_plan(c).len() as int + 2] & 0x40 != 0)
            && com.gyro_pri_ok == (v[sample_plan(c).len() as int + 2] & 0x20 != 0)
            && com.pri_start_ok == (v[sample_plan(c).len() as int + 2] & 0x10 != 0)
            && com.gyro_hv_ok == (v[sample_plan(c).len() as int + 2] & 0x8 != 0)
            && com.gyro_sd_sts_ok == (v[sample_plan(c).len() as int + 2] & 0x4 != 0)
            && com.gyro_bond_sts_ok == (v[sample_plan(c).len() as int + 2] & 0x2 != 0)
            && com.gyro_sts_rdy_ok == (v[sample_plan(c).len() as int + 2] & 0x1 != 0)
            && axis.stc_dig_ok == (v[sample_plan(c).len() as int + 3] & 0x4 != 0)
            && axis.stc_ana_ok == (v[sample_plan(c).len() as int + 3] & 0x2 != 0)
            && axis.qc_ok == (v[sample_plan(c).len() as int + 3] & 0x1 != 0)),
        v.len() == sample_plan(c).len() as int + 4 && !(v[sample_plan(c).len() as int + 2] & 0x7F != 0x7F || v[sample_plan(c).len() as int + 3] & 0x7 != 0x7) ==> !(sample_action::<E>(c, sticky, v) matches Action::Finish(Err(Error::GyroXError(_)))),
{
    let n = sample_plan(c).len() as int;
    let data = v.take(n);
    let stat = StatSumFields::from_bits_spec(v[n]);
    let sat = StatSumSatFields::from_bits_spec(v[n + 1]);
    let rest = v.skip(n + 2);
    crate::status::lemma_flag_masks(v[n]);
    assert(checks_action::<E>(c, data, stat, sat, rest, 0) == checks_action::<E>(c, data, stat, sat, rest, 1));
    if v.len() >= n + 4 {
        assert(rest.take(2) =~= v.subrange(n + 2, n + 4));
        crate::status::lemma_flag_masks(v[n + 2]);
        crate::status::lemma_flag_masks(v[n + 3]);
    }
    if v.len() == n + 4 && !(v[n + 2] & 0x7F != 0x7F || v[n + 3] & 0x7 != 0x7) {
        lemma_checks_err::<E>(c, data, stat, sat, rest.skip(2), 2);
        match sample_action::<E>(c, sticky, v) {
            Action::Finish(Err(e)) => {
                let (j, r) = choose|j: int, r: Seq<u32>|
                    2 <= j < 7 && !check_skipped(j, stat) && #[trigger] check_error::<E>(j, r) == Some(e);
                assert(check_error::<E>(j, r) == Some(e));
            },
            _ => {},
        }
    }
}

/// The check of gyroscope y in a sample read: when the summary (`STAT_SUM`, read
/// after the planned outputs and before the saturation summary) reports
/// every earlier block fine and gyroscope y not fine, the read goes on with
/// register 0x17 then 0x19; when those report a fault, the sample fails with
/// `GyroYError` carrying the flags of those registers, bit by bit,
/// and otherwise it does not fail with that error.
pub proof fn sample_check_of_gyroscope_y<E>(c: Config, sticky: SensorStatus, v: Seq<u32>)
    requires
        v.len() >= sample_plan(c).len() as int + 2,
        v[sample_plan(c).len() as int] & 0x4000 != 0,
        v[sample_plan(c).len() as int] & 0x2000 != 0,
        v[sample_plan(c).len() as int] & 0x1000 == 0,
    ensures
        v.len() == sample_plan(c).len() as int + 2 ==> sample_action::<E>(c, sticky, v) == Action::<RawSample, E>::Do(Op::Read(0x17)),
        v.len() == sample_plan(c).len() as int + 3 ==> sample_action::<E>(c, sticky, v) == Action::<RawSample, E>::Do(Op::Read(0x19)),
        v.len() == sample_plan(c).len() as int + 4 && (v[sample_plan(c).len() as int + 2] & 0x7F != 0x7F || v[sample_plan(c).len() as int + 3] & 0x7 != 0x7) ==> (sample_action::<E>(c, sticky, v) matches Action::Finish(Err(Error::GyroYError((com, axis))))
            && com.pri_agc_ok == (v[sample_plan(c).len() as int + 2] & 0x40 != 0)
            && com.gyro_pri_ok == (v[sample_plan(c).len() as int + 2] & 0x20 != 0)
            && com.pri_start_ok == (v[sample_plan(c).len() as int + 2] & 0x10 != 0)
            && com.gyro_hv_ok == (v[sample_plan(c).len() as int + 2] & 0x8 != 0)
            && com.gyro_sd_sts_ok == (v[sample_plan(c).len() as int + 2] & 0x4 != 0)
            && com.gyro_bond_sts_ok == (v[sample_plan(c).len() as int + 2] & 0x2 != 0)
            && com.gyro_sts_rdy_ok == (v[sample_plan(c).len() as int + 2] & 0x1 != 0)
            && axis.stc_dig_ok == (v[sample_plan(c).len() as int + 3] & 0x4 != 0)
            && axis.stc_ana_ok == (v[sample_plan(c).len() as int + 3] & 0x2 != 0)
            && axis.qc_ok == (v[sample_plan(c).len() as int + 3] & 0x1 != 0)),
        v.len() == sample_plan(c).len() as int + 4 && !(v[sample_plan(c).len() as int + 2] & 0x7F != 0x7F || v[sample_plan(c).len() as int + 3] & 0x7 != 0x7) ==> !(sample_action::<E>(c, sticky, v) matches Action::Finish(Err(Error::GyroYError(_)))),
{
    let n = sample_plan(c).len() as int;
    let data = v.take(n);
    let stat = StatSumFields::from_bits_spec(v[n]);
    let sat = StatSumSatFields::from_bits_spec(v[n + 1]);
    let rest = v.skip(n + 2);
    crate::status::lemma_flag_masks(v[n]);
    assert(checks_action::<E>(c, data, stat, sat, rest, 1) == checks_action::<E>(c, data, stat, sat, rest, 2));
    assert(checks_action::<E>(c, data, stat, sat, rest, 0) == checks_action::<E>(c, data, stat, sat, rest, 1));
    if v.len() >= n + 4 {
        assert(rest.take(2) =~= v.subrange(n + 2, n + 4));
        crate::status::lemma_flag_masks(v[n + 2]);
        crate::status::lemma_flag_masks(v[n + 3]);
    }
    if v.len() == n + 4 && !(v[n + 2] & 0x7F != 0x7F || v[n + 3] & 0x7 != 0x7) {
        lemma_checks_err::<E>(c, data, stat, sat, rest.skip(2), 3);
        match sample_action::<E>(c, sticky, v) {
            Action::Finish(Err(e)) => {
                let (j, r) = choose|j: int, r: Seq<u32>|
                    3 <= j < 7 && !check_skipped(j, stat) && #[trigger] check_error::<E>(j, r) == Some(e);
                assert(check_error::<E>(j, r) == Some(e));
            },
            _ => {},
        }
    }
}

/// The check of gyroscope z in a sample read: when the summary (`STAT_SUM`, read
/// after the planned outputs and before the saturation summary) reports
/// every earlier block fine and gyroscope z not fine, the read goes on with
/// register 0x17 then 0x1A; when those report a fault, the sample fails with
/// `GyroZError` carrying the flags of those registers, bit by bit,
/// and otherwise it does not fail with that error.
pub proof fn sample_check_of_gyroscope_z<E>(c: Config, sticky: SensorStatus, v: Seq<u32>)
    requires
        v.len() >= sample_plan(c).len() as int + 2,
        v[sample_plan(c).len() as int] & 0x4000 != 0,
        v[sample_plan(c).len() as int] & 0x2000 != 0,
        v[sample_plan(c).len() as int] & 0x1000 != 0,
        v[sample_plan(c).len() as int] & 0x0800 == 0,
    ensures
        v.len() == sample_plan(c).len() as int + 2 ==> sample_action::<E>(c, sticky, v) == Action::<RawSample, E>::Do(Op::Read(0x17)),
        v.len() == sample_plan(c).len() as int + 3 ==> sample_action::<E>(c, sticky, v) == Action::<RawSample, E>::Do(Op::Read(0x1A)),
        v.len() == sample_plan(c).len() as int + 4 && (v[sample_plan(c).len() as int + 2] & 0x7F != 0x7F || v[sample_plan(c).len() as int + 3] & 0x7 != 0x7) ==> (sample_action::<E>(c, sticky, v) matches Action::Finish(Err(Error::GyroZError((com, axis))))
            && com.pri_agc_ok == (v[sample_plan(c).len() as int + 2] & 0x40 != 0)
            && com.gyro_pri_ok == (v[sample_plan(c).len() as int + 2] & 0x20 != 0)
            && com.pri_start_ok == (v[sample_plan(c).len() as int + 2] & 0x10 != 0)
            && com.gyro_hv_ok == (v[sample_plan(c).len() as int + 2] & 0x8 != 0)
            && com.gyro_sd_sts_ok == (v[sample_plan(c).len() as int + 2] & 0x4 != 0)
            && com.gyro_bond_sts_ok == (v[sample_plan(c).len() as int + 2] & 0x2 != 0)
            && com.gyro_sts_rdy_ok == (v[sample_plan(c).len() as int + 2] & 0x1 != 0)
            && axis.stc_dig_ok == (v[sample_plan(c).len() as int + 3] & 0x4 != 0)
            && axis.stc_ana_ok == (v[sample_plan(c).len() as int + 3] & 0x2 != 0)
            && axis.qc_ok == (v[sample_plan(c).len() as int + 3] & 0x1 != 0)),
        v.len() == sample_plan(c).len() as int + 4 && !(v[sample_plan(c).len() as int + 2] & 0x7F != 0x7F || v[sample_plan(c).len() as int + 3] & 0x7 != 0x7) ==> !(sample_action::<E>(c, sticky, v) matches Action::Finish(Err(Error::GyroZError(_)))),
{
    let n = sample_plan(c).len() as int;
    let data = v.take(n);
    let stat = StatSumFields::from_bits_spec(v[n]);
    let sat = StatSumSatFields::from_bits_spec(v[n + 1]);
    let rest = v.skip(n + 2);
    crate::status::lemma_flag_masks(v[n]);
    assert(checks_action::<E>(c, data, stat, sat, rest, 2) == checks_action::<E>(c, data, stat, sat, rest, 3));
    assert(checks_action::<E>(c, data, stat, sat, rest, 1) == checks_action::<E>(c, data, stat, sat, rest, 2));
    assert(checks_action::<E>(c, data, stat, sat, rest, 0) == checks_action::<E>(c, data, stat, sat, rest, 1));
    if v.len() >= n + 4 {
        assert(rest.take(2) =~= v.subrange(n + 2, n + 4));
        crate::status::lemma_flag_masks(v[n + 2]);
        crate::status::lemma_flag_masks(v[n + 3]);
    }
    if v.len() == n + 4 && !(v[n + 2] & 0x7F != 0x7F || v[n + 3] & 0x7 != 0x7) {
        lemma_checks_err::<E>(c, data, stat, sat, rest.skip(2), 4);
        match sample_action::<E>(c, sticky, v) {
            Action::Finish(Err(e)) => {
                let (j, r) = choose|j: int, r: Seq<u32>|
                    4 <= j < 7 && !check_skipped(j, stat) && #[trigger] check_error::<E>(j, r) == Some(e);
                assert(check_error::<E>(j, r) == Some(e));
            },
            _ => {},
        }
    }
}

/// The check of accelerometer x in a sample read: when the summary (`STAT_SUM`, read
/// after the planned outputs and before the saturation summary) reports
/// every earlier block fine and accelerometer x not fine, the read goes on with
/// register 0x1B; when those report a fault, the sample fails with
/// `AccXError` carrying the flags of those registers, bit by bit,
/// and otherwise it does not fail with that error.
pub proof fn sample_check_of_accelerometer_x<E>(c: Config, sticky: SensorStatus, v: Seq<u32>)
    requires
        v.len() >= sample_plan(c).len() as int + 2,
        v[sample_plan(c).len() as int] & 0x4000 != 0,
        v[sample_plan(c).len() as int] & 0x2000 != 0,
        v[sample_plan(c).len() as int] & 0x1000 != 0,
        v[sample_plan(c).len() as int] & 0x0800 != 0,
        v[sample_plan(c).len() as int] & 0x0400 == 0,
    ensures
        v.len() == sample_plan(c).len() as int + 2 ==> sample_action::<E>(c, sticky, v) == Action::<RawSample, E>::Do(Op::Read(0x1B)),
        v.len() == sample_plan(c).len() as int + 3 && (v[sample_plan(c).len() as int + 2] & 0xF != 0xF) ==> (sample_action::<E>(c, sticky, v) matches Action::Finish(Err(Error::AccXError(axis)))
            && axis.stc_dig_ok == (v[sample_plan(c).len() as int + 2] & 0x8 != 0)
            && axis.stc_tcap_ok == (v[sample_plan(c).len() as int + 2] & 0x4 != 0)
            && axis.stc_sdd_ok == (v[sample_plan(c).len() as int + 2] & 0x2 != 0)
            && axis.stc_n_ok == (v[sample_plan(c).len() as int + 2] & 0x1 != 0)),
        v.len() == sample_plan(c).len() as int + 3 && !(v[sample_plan(c).len() as int + 2] & 0xF != 0xF) ==> !(sample_action::<E>(c, sticky, v) matches Action::Finish(Err(Error::AccXError(_)))),
{
    let n = sample_plan(c).len() as int;
    let data = v.take(n);
    let stat = StatSumFields::from_bits_spec(v[n]);
    let sat = StatSumSatFields::from_bits_spec(v[n + 1]);
    let rest = v.skip(n + 2);
    crate::status::lemma_flag_masks(v[n]);
    assert(checks_action::<E>(c, data, stat, sat, rest, 3) == checks_action::<E>(c, data, stat, sat, rest, 4));
    assert(checks_action::<E>(c, data, stat, sat, rest, 2) == checks_action::<E>(c, data, stat, sat, rest, 3));
    assert(checks_action::<E>(c, data, stat, sat, rest, 1) == checks_action::<E>(c, data, stat, sat, rest, 2));
    assert(checks_action::<E>(c, data, stat, sat, rest, 0) == checks_action::<E>(c, data, stat, sat, rest, 1));
    if v.len() >= n + 3 {
        assert(rest.take(1) =~= v.subrange(n + 2, n + 3));
        crate::status::lemma_flag_masks(v[n + 2]);
    }
    if v.len() == n + 3 && !(v[n + 2] & 0xF != 0xF) {
        lemma_checks_err::<E>(c, data, stat, sat, rest.skip(1), 5);
        match sample_action::<E>(c, sticky, v) {
            Action::Finish(Err(e)) => {
                let (j, r) = choose|j: int, r: Seq<u32>|
                    5 <= j < 7 && !check_skipped(j, stat) && #[trigger] check_error::<E>(j, r) == Some(e);
                assert(check_error::<E>(j, r) == Some(e));
            },
            _ => {},
        }
    }
}

/// The check of accelerometer y in a sample read: when the summary (`STAT_SUM`, read
/// after the planned outputs and before the saturation summary) reports
/// every earlier block fine and accelerometer y not fine, the read goes on with
/// register 0x1C; when those report a fault, the sample fails with
/// `AccYError` carrying the flags of those registers, bit by bit,
/// and otherwise it does not fail with that error.
pub proof fn sample_check_of_accelerometer_y<E>(c: Config, sticky: SensorStatus, v: Seq<u32>)
    requires
        v.len() >= sample_plan(c).len() as int + 2,
        v[sample_plan(c).len() as int] & 0x4000 != 0,
        v[sample_plan(c).len() as int] & 0x2000 != 0,
        v[sample_plan(c).len() as int] & 0x1000 != 0,
        v[sample_plan(c).len() as int] & 0x0800 != 0,
        v[sample_plan(c).len() as int] & 0x0400 != 0,
        v[sample_plan(c).len() as int] & 0x0200 == 0,
    ensures
        v.len() == sample_plan(c).len() as int + 2 ==> sample_action::<E>(c, sticky, v) == Action::<RawSample, E>::Do(Op::Read(0x1C)),
        v.len() == sample_plan(c).len() as int + 3 && (v[sample_plan(c).len() as int + 2] & 0xF != 0xF) ==> (sample_action::<E>(c, sticky, v) matches Action::Finish(Err(Error::AccYError(axis)))
            && axis.stc_dig_ok == (v[sample_plan(c).len() as int + 2] & 0x8 != 0)
            && axis.stc_tcap_ok == (v[sample_plan(c).len() as int + 2] & 0x4 != 0)
            && axis.stc_sdd_ok == (v[sample_plan(c).len() as int + 2] & 0x2 != 0)
            && axis.stc_n_ok == (v[sample_plan(c).len() as int + 2] & 0x1 != 0)),
        v.len() == sample_plan(c).len() as int + 3 && !(v[sample_plan(c).len() as int + 2] & 0xF != 0xF) ==> !(sample_action::<E>(c, sticky, v) matches Action::Finish(Err(Error::AccYError(_)))),
{
    let n = sample_plan(c).len() as int;
    let data = v.take(n);
    let stat = StatSumFields::from_bits_spec(v[n]);
    let sat = StatSumSatFields::from_bits_spec(v[n + 1]);
    let rest = v.skip(n + 2);
    crate::status::lemma_flag_masks(v[n]);
    assert(checks_action::<E>(c, data, stat, sat, rest, 4) == checks_action::<E>(c, data, stat, sat, rest, 5));
    assert(checks_action::<E>(c, data, stat, sat, rest, 3) == checks_action::<E>(c, data, stat, sat, rest, 4));
    assert(checks_action::<E>(c, data, stat, sat, rest, 2) == checks_action::<E>(c, data, stat, sat, rest, 3));
    assert(checks_action::<E>(c, data, stat, sat, rest, 1) == checks_action::<E>(c, data, stat, sat, rest, 2));
    assert(checks_action::<E>(c, data, stat, sat, rest, 0) == checks_action::<E>(c, data, stat, sat, rest, 1));
    if v.len() >= n + 3 {
        assert(rest.take(1) =~= v.subrange(n + 2, n + 3));
        crate::status::lemma_flag_masks(v[n + 2]);
    }
    if v.len() == n + 3 && !(v[n + 2] & 0xF != 0xF) {
        lemma_checks_err::<E>(c, data, stat, sat, rest.skip(1), 6);
        match sample_action::<E>(c, sticky, v) {
            Action::Finish(Err(e)) => {
                let (j, r) = choose|j: int, r: Seq<u32>|
                    6 <= j < 7 && !check_skipped(j, stat) && #[trigger] check_error::<E>(j, r) == Some(e);
                assert(check_error::<E>(j, r) == Some(e));
            },
            _ => {},
        }
    }
}

/// The check of accelerometer z in a sample read: when the summary (`STAT_SUM`, read
/// after the planned outputs and before the saturation summary) reports
/// every earlier block fine and accelerometer z not fine, the read goes on with
/// register 0x1D; when those report a fault, the sample fails with
/// `AccZError` carrying the flags of those registers, bit by bit,
/// and otherwise it does not fail with that error.
pub proof fn sample_check_of_accelerometer_z<E>(c: Config, sticky: SensorStatus, v: Seq<u32>)
    requires
        v.len() >= sample_plan(c).len() as int + 2,
        v[sample_plan(c).len() as int] & 0x4000 != 0,
        v[sample_plan(c).len() as int] & 0x2000 != 0,
        v[sample_plan(c).len() as int] & 0x1000 != 0,
        v[sample_plan(c).len() as int] & 0x0800 != 0,
        v[sample_plan(c).len() as int] & 0x0400 != 0,
        v[sample_plan(c).len() as int] & 0x0200 != 0,
        v[sample_plan(c).len() as int] & 0x0100 == 0,
    ensures
        v.len() == sample_plan(c).len() as int + 2 ==> sample_action::<E>(c, sticky, v) == Action::<RawSample, E>::Do(Op::Read(0x1D)),
        v.len() == sample_plan(c).len() as int + 3 && (v[sample_plan(c).len() as int + 2] & 0xF != 0xF) ==> (sample_action::<E>(c, sticky, v) matches Action::Finish(Err(Error::AccZError(axis)))
            && axis.stc_dig_ok == (v[sample_plan(c).len() as int + 2] & 0x8 != 0)
            && axis.stc_tcap_ok == (v[sample_plan(c).len() as int + 2] & 0x4 != 0)
            && axis.stc_sdd_ok == (v[sample_plan(c).len() as int + 2] & 0x2 != 0)
            && axis.stc_n_ok == (v[sample_plan(c).len() as int + 2] & 0x1 != 0)),
        v.len() == sample_plan(c).len() as int + 3 && !(v[sample_plan(c).len() as int + 2] & 0xF != 0xF) ==> !(sample_action::<E>(c, sticky, v) matches Action::Finish(Err(Error::AccZError(_)))),
{
    let n = sample_plan(c).len() as int;
    let data = v.take(n);
    let stat = StatSumFields::from_bits_spec(v[n]);
    let sat = StatSumSatFields::from_bits_spec(v[n + 1]);
    let rest = v.skip(n + 2);
    crate::status::lemma_flag_masks(v[n]);
    assert(checks_action::<E>(c, data, stat, sat, rest, 5) == checks_action::<E>(c, data, stat, sat, rest, 6));
    assert(checks_action::<E>(c, data, stat, sat, rest, 4) == checks_action::<E>(c, data, stat, sat, rest, 5));
    assert(checks_action::<E>(c, data, stat, sat, rest, 3) == checks_action::<E>(c, data, stat, sat, rest, 4));
    assert(checks_action::<E>(c, data, stat, sat, rest, 2) == checks_action::<E>(c, data, stat, sat, rest, 3));
    assert(checks_action::<E>(c, data, stat, sat, rest, 1) == checks_action::<E>(c, data, stat, sat, rest, 2));
    assert(checks_action::<E>(c, data, stat, sat, rest, 0) == checks_action::<E>(c, data, stat, sat, rest, 1));
    if v.len() >= n + 3 {
        assert(rest.take(1) =~= v.subrange(n + 2, n + 3));
        crate::status::lemma_flag_masks(v[n + 2]);
    }
    if v.len() == n + 3 && !(v[n + 2] & 0xF != 0xF) {
        lemma_checks_err::<E>(c, data, stat, sat, rest.skip(1), 7);
        match sample_action::<E>(c, sticky, v) {
            Action::Finish(Err(e)) => {
                let (j, r) = choose|j: int, r: Seq<u32>|
                    7 <= j < 7 && !check_skipped(j, stat) && #[trigger] check_error::<E>(j, r) == Some(e);
                assert(check_error::<E>(j, r) == Some(e));
            },
            _ => {},
        }
    }
}

/// When some frame of the planned reads reported a status other than
/// normal, the sample goes on to read the summary (0x14) and then the
/// saturation summary (0x15) before it is delivered or fails.
pub proof fn abnormal_status_reads_the_summaries<E>(c: Config, sticky: SensorStatus, v: Seq<u32>)
    requires
        sticky != SensorStatus::Normal,
    ensures
        v.len() == sample_plan(c).len() ==> sample_action::<E>(c, sticky, v) == Action::<
            RawSample,
            E,
        >::Do(Op::Read(0x14)),
        v.len() == sample_plan(c).len() + 1 ==> sample_action::<E>(c, sticky, v) == Action::<
            RawSample,
            E,
        >::Do(Op::Read(0x15)),
{
}

} // verus!
