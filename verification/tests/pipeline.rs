use std::collections::HashMap;

use sch16t::frame::FrameIn;
use sch16t::interface::RegisterRead;
use sch16t::ops::{Action, Op};
use sch16t::registers::{acc_ctrl_value, filter_value, rate_ctrl_value, user_if_value};
use sch16t::startup::InitSequence;
use sch16t::{AddressPins, Config, Error, RawSample, Sch16t, SensorStatus};

fn crc8(data: &[u8]) -> u8 {
    let mut c: u8 = 0xFF;
    for b in data {
        c ^= b;
        for _ in 0..8 {
            c = if c & 0x80 != 0 { (c << 1) ^ 0x2F } else { c << 1 };
        }
    }
    c
}

/// A sensor that answers each frame with the value of the register that
/// the frame before it asked for, and keeps what is written to it.
struct FakeSensor {
    regs: HashMap<u8, u32>,
    previous: Option<u8>,
    status: u8,
    frames: usize,
}

impl FakeSensor {
    fn new() -> Self {
        let mut regs = HashMap::new();
        let status = [0xFF00u32, 0xFFF0, 0x7FF, 0x7F, 0x7, 0x7, 0x7, 0xF, 0xF, 0xF, 0, 0];
        for (i, v) in status.iter().enumerate() {
            regs.insert(0x14 + i as u8, *v);
        }
        for r in 1..=6u8 {
            regs.insert(r, r as u32 * 10);
        }
        // control registers after a reset hold the reset configuration
        let d = Config::default();
        regs.insert(0x33, user_if_value(&d));
        regs.insert(0x28, rate_ctrl_value(&d));
        regs.insert(0x29, acc_ctrl_value(&d));
        regs.insert(0x25, filter_value(d.rate_x_lpf, d.rate_y_lpf, d.rate_z_lpf));
        regs.insert(0x26, filter_value(d.accel_x_lpf, d.accel_y_lpf, d.accel_z_lpf));
        FakeSensor { regs, previous: None, status: 1, frames: 0 }
    }

    fn exchange(&mut self, request: [u8; 6]) -> [u8; 6] {
        self.frames += 1;
        let req = FrameIn::from_bytes(request);
        let mut check = FrameIn::from_bytes(request);
        assert!(check.crc_ok());
        let reg = req.register_address();
        if req.write_en() {
            self.regs.insert(reg, req.data());
        }
        let (answer_reg, data) = match self.previous {
            Some(p) => (p, *self.regs.get(&p).unwrap_or(&0)),
            None => (0, 0),
        };
        self.previous = Some(reg);
        let w: u64 = (answer_reg as u64) << 38 | 1 << 35 | (self.status as u64) << 32
            | ((data & 0xFF_FFFF) as u64) << 8;
        let mut b = [0u8; 6];
        for i in 0..6 {
            b[i] = (w >> (40 - 8 * i)) as u8;
        }
        let mut input = vec![0u8];
        input.extend_from_slice(&b[..5]);
        b[5] = crc8(&input);
        b
    }
}

fn perform(s: &mut Sch16t, sensor: &mut FakeSensor, op: Op) -> Result<u32, Error<()>> {
    let transfer = |s: &mut Sch16t, sensor: &mut FakeSensor, a: u8, w: bool, d: u32| {
        let bytes = s.ll.make_frame(a, w, d).as_bytes();
        let response = sensor.exchange(bytes);
        s.ll.finish_transfer::<()>(a, response)
    };
    match op {
        Op::Read(address) => {
            let mut read = RegisterRead::new(address);
            loop {
                let (a, last, data) = read.next_frame(&s.ll);
                let value = transfer(s, sensor, a, false, data)?;
                read.record(value);
                if last {
                    return Ok(value);
                }
            }
        },
        Op::Write(address, value) => transfer(s, sensor, address, true, value).map(|_| 0),
        Op::DelayMs(_) => Ok(0),
    }
}

fn sample(s: &mut Sch16t, sensor: &mut FakeSensor) -> Result<RawSample, Error<()>> {
    let mut read = s.begin_sample()?;
    loop {
        match read.next(s.ll.sticky_status()) {
            Action::Do(op) => {
                let v = perform(s, sensor, op)?;
                read.feed(v);
            },
            Action::Finish(r) => return r,
        }
    }
}

fn start(s: &mut Sch16t, sensor: &mut FakeSensor, config: Config) -> Result<(), Error<()>> {
    let mut seq = InitSequence::new(config);
    loop {
        match seq.next() {
            Action::Do(op) => {
                let v = perform(s, sensor, op)?;
                seq.feed(v);
            },
            Action::Finish(r) => {
                r?;
                s.finish_init(config);
                return Ok(());
            },
        }
    }
}

#[test]
fn start_up_and_sample_against_a_sensor() {
    let mut s = Sch16t::new(AddressPins::Ta8LowTa9Low);
    let mut sensor = FakeSensor::new();
    let config = Config { rate_x_lpf: sch16t::Filter::Lpf3, ..Default::default() };
    assert!(start(&mut s, &mut sensor, config).is_ok());
    assert_eq!(sensor.regs.get(&0x25), Some(&3));
    let smp = sample(&mut s, &mut sensor).unwrap();
    assert_eq!((smp.rate.x, smp.rate.y, smp.rate.z), (10, 20, 30));
    assert_eq!((smp.accel.x, smp.accel.y, smp.accel.z), (40, 50, 60));
    // a second sample in loop order costs one frame per register
    let before = sensor.frames;
    let again = sample(&mut s, &mut sensor).unwrap();
    assert_eq!(again, smp);
    assert_eq!(sensor.frames - before, 6);
}

#[test]
fn saturated_frames_lead_to_status_reads() {
    let mut s = Sch16t::new(AddressPins::Ta8LowTa9Low);
    let mut sensor = FakeSensor::new();
    assert!(start(&mut s, &mut sensor, Config::default()).is_ok());
    sensor.status = 2;
    // gyroscope z of the interpolated outputs saturated
    sensor.regs.insert(0x15, 0xFFF0 & !0x2000);
    let smp = sample(&mut s, &mut sensor).unwrap();
    assert_eq!(s.ll.sticky_status(), SensorStatus::Saturation);
    assert!(smp.rate.z_saturated && !smp.rate.x_saturated && !smp.accel.saturated());
}

#[test]
fn faulty_sensor_fails_start_up() {
    let mut s = Sch16t::new(AddressPins::Ta8LowTa9Low);
    let mut sensor = FakeSensor::new();
    sensor.regs.insert(0x16, 0x3FF);
    match start(&mut s, &mut sensor, Config::default()) {
        Err(Error::InitError(st)) => assert!(!st.com.mclk_ok),
        other => panic!("unexpected {:?}", other),
    }
    assert!(s.config().is_none());
}
