use sch16t::ops::{Action, Op};
use sch16t::registers::{acc_ctrl_value, filter_value, rate_ctrl_value, user_if_value};
use sch16t::sampling::{lsb_ds, lsb_mss, SampleRead};
use sch16t::sensor::{read_loop_addrs, FullStatusRead};
use sch16t::startup::{init_operations, InitSequence};
use sch16t::{
    AccDynamicRange, AddressPins, Config, DecimationRatio, Error, Filter, RateDynamicRange,
    RawSample, SampleMode, Sch16t, SensorStatus,
};

type A<T> = Action<T, ()>;

fn good_status() -> Vec<u32> {
    vec![0xFF00, 0xFFF0, 0x7FF, 0x7F, 0x7, 0x7, 0x7, 0xF, 0xF, 0xF, 0, 0]
}

fn expect_read<T: core::fmt::Debug>(a: A<T>) -> u8 {
    match a {
        Action::Do(Op::Read(r)) => r,
        other => panic!("expected a read, got {:?}", other),
    }
}

fn finished_sample(a: A<RawSample>) -> Result<RawSample, Error<()>> {
    match a {
        Action::Finish(r) => r,
        other => panic!("expected the end, got {:?}", other),
    }
}

#[test]
fn lsb_tables() {
    assert_eq!(lsb_ds(RateDynamicRange::Dyn1), 1600);
    assert_eq!(lsb_ds(RateDynamicRange::Dyn2), 1600);
    assert_eq!(lsb_ds(RateDynamicRange::Dyn3), 3200);
    assert_eq!(lsb_ds(RateDynamicRange::Dyn4), 6400);
    assert_eq!(lsb_mss(AccDynamicRange::Dyn1), 3200);
    assert_eq!(lsb_mss(AccDynamicRange::Dyn2), 6400);
    assert_eq!(lsb_mss(AccDynamicRange::Dyn3), 12800);
    assert_eq!(lsb_mss(AccDynamicRange::Dyn4), 25600);
}

#[test]
fn sampling_needs_a_started_sensor() {
    let mut s = Sch16t::new(AddressPins::Ta8LowTa9Low);
    assert!(s.config().is_none());
    let r: Result<SampleRead, Error<()>> = s.begin_sample();
    assert!(matches!(r, Err(Error::SensorNotInit)));
}

#[test]
fn normal_sample_reads_only_the_outputs() {
    let mut s = Sch16t::new(AddressPins::Ta8LowTa9Low);
    s.finish_init(Config::default());
    let mut read: SampleRead = s.begin_sample::<()>().ok().unwrap();
    assert_eq!(s.ll.sticky_status(), SensorStatus::Normal);
    let values = [1u32, 2, 0x0FFFFF, 100, 0x080000, 7];
    for (i, v) in values.iter().enumerate() {
        assert_eq!(expect_read(read.next::<()>(SensorStatus::Normal)), [1, 2, 3, 4, 5, 6][i]);
        read.feed(*v);
    }
    let smp = finished_sample(read.next(SensorStatus::Normal)).unwrap();
    assert_eq!((smp.rate.x, smp.rate.y, smp.rate.z), (1, 2, -1));
    assert_eq!((smp.accel.x, smp.accel.y, smp.accel.z), (100, -524288, 7));
    assert_eq!(smp.rate.lsb_ds, 1600);
    assert_eq!(smp.accel.lsb_mss, 3200);
    assert!(!smp.rate.saturated() && !smp.accel.saturated());
    assert_eq!(smp.temp, None);
    assert_eq!(smp.freq_counter, None);
    assert!(smp.rate.data_counter.is_none());
}

#[test]
fn decimated_sample_with_extras() {
    let c = Config {
        sample_mode: SampleMode::Decimation,
        include_temperature: true,
        include_data_counters: true,
        include_freq_counter: true,
        rate_range: RateDynamicRange::Dyn4,
        accel_range: AccDynamicRange::Dyn3,
        ..Default::default()
    };
    let mut read = SampleRead::new(c);
    let regs = [0x0A, 0x0B, 0x0C, 0x0D, 0x0E, 0x0F, 0x10, 0x11, 0x12, 0x13];
    let values = [10u32, 20, 30, 40, 50, 60, 2500, 0x030201, 0x060504, 0x1234];
    for i in 0..10 {
        assert_eq!(expect_read(read.next::<()>(SensorStatus::Normal)), regs[i]);
        read.feed(values[i]);
    }
    let smp = finished_sample(read.next(SensorStatus::Normal)).unwrap();
    assert_eq!(smp.temp, Some(2500));
    assert_eq!(smp.rate.data_counter.map(|d| (d.x, d.y, d.z)), Some((1, 2, 3)));
    assert_eq!(smp.accel.data_counter.map(|d| (d.x, d.y, d.z)), Some((4, 5, 6)));
    assert_eq!(smp.freq_counter, Some(0x1234));
    assert_eq!(smp.rate.lsb_ds, 6400);
    assert_eq!(smp.accel.lsb_mss, 12800);
}

fn read_outputs(read: &mut SampleRead) {
    for _ in 0..6 {
        let _ = expect_read(read.next::<()>(SensorStatus::Normal));
        read.feed(0);
    }
}

#[test]
fn saturation_is_reported_in_the_sample() {
    let mut read = SampleRead::new(Config::default());
    read_outputs(&mut read);
    assert_eq!(expect_read(read.next::<()>(SensorStatus::Saturation)), 0x14);
    read.feed(0xFF00);
    assert_eq!(expect_read(read.next::<()>(SensorStatus::Saturation)), 0x15);
    // gyroscope x and accelerometer z of the interpolated outputs saturated
    read.feed(0xFFF0 & !0x8000 & !0x0400);
    let smp = finished_sample(read.next(SensorStatus::Saturation)).unwrap();
    assert!(smp.rate.x_saturated && !smp.rate.y_saturated && !smp.rate.z_saturated);
    assert!(smp.accel.z_saturated && !smp.accel.x_saturated);
    assert!(smp.rate.saturated() && smp.accel.saturated());
}

#[test]
fn decimated_saturation_bits() {
    let c = Config { sample_mode: SampleMode::Decimation, ..Default::default() };
    let mut read = SampleRead::new(c);
    read_outputs(&mut read);
    assert_eq!(expect_read(read.next::<()>(SensorStatus::SensorError)), 0x14);
    read.feed(0xFF00);
    read.feed(0xFFF0 & !0x0200);
    let smp = finished_sample(read.next(SensorStatus::SensorError)).unwrap();
    assert!(smp.rate.x_saturated && !smp.rate.y_saturated);
}

#[test]
fn common_block_fault_is_an_error() {
    let mut read = SampleRead::new(Config::default());
    read_outputs(&mut read);
    read.feed(0xFF00 & !0x4000);
    read.feed(0xFFF0);
    assert_eq!(expect_read(read.next::<()>(SensorStatus::SensorError)), 0x16);
    read.feed(0x7FE);
    match finished_sample(read.next(SensorStatus::SensorError)) {
        Err(Error::CommonError(com)) => assert!(!com.cmn_sts_rdy && com.mclk_ok),
        other => panic!("unexpected {:?}", other),
    }
}

#[test]
fn common_block_fine_on_detail_passes() {
    let mut read = SampleRead::new(Config::default());
    read_outputs(&mut read);
    read.feed(0xFF00 & !0x4000);
    read.feed(0xFFF0);
    assert_eq!(expect_read(read.next::<()>(SensorStatus::SensorError)), 0x16);
    read.feed(0x7FF);
    assert!(finished_sample(read.next(SensorStatus::SensorError)).is_ok());
}

#[test]
fn gyroscope_axis_fault_reads_shared_block_and_axis() {
    let mut read = SampleRead::new(Config::default());
    read_outputs(&mut read);
    read.feed(0xFF00 & !0x1000);
    read.feed(0xFFF0);
    assert_eq!(expect_read(read.next::<()>(SensorStatus::SensorError)), 0x17);
    read.feed(0x7F);
    assert_eq!(expect_read(read.next::<()>(SensorStatus::SensorError)), 0x19);
    read.feed(0x3);
    match finished_sample(read.next(SensorStatus::SensorError)) {
        Err(Error::GyroYError((com, axis))) => {
            assert!(com.gyro_pri_ok);
            assert!(!axis.stc_dig_ok && axis.qc_ok);
        },
        other => panic!("unexpected {:?}", other),
    }
}

#[test]
fn accelerometer_axis_checks_read_their_own_register() {
    let mut read = SampleRead::new(Config::default());
    read_outputs(&mut read);
    read.feed(0xFF00 & !0x0100);
    read.feed(0xFFF0);
    assert_eq!(expect_read(read.next::<()>(SensorStatus::SensorError)), 0x1D);
    read.feed(0x7);
    match finished_sample(read.next(SensorStatus::SensorError)) {
        Err(Error::AccZError(axis)) => assert!(!axis.stc_dig_ok),
        other => panic!("unexpected {:?}", other),
    }
}

#[test]
fn accelerometer_y_fault_is_reported_from_its_register() {
    let mut read = SampleRead::new(Config::default());
    read_outputs(&mut read);
    read.feed(0xFF00 & !0x0200);
    read.feed(0xFFF0);
    assert_eq!(expect_read(read.next::<()>(SensorStatus::SensorError)), 0x1C);
    read.feed(0xE);
    match finished_sample(read.next(SensorStatus::SensorError)) {
        Err(Error::AccYError(axis)) => assert!(axis.stc_dig_ok && !axis.stc_n_ok),
        other => panic!("unexpected {:?}", other),
    }
}

fn run_plan(seq: &mut InitSequence, ops: &[Op], status: &[u32]) {
    let mut reads = 0usize;
    for op in ops {
        match seq.next::<()>() {
            Action::Do(o) => assert_eq!(o, *op),
            other => panic!("unexpected {:?}", other),
        }
        match op {
            Op::Read(_) => {
                seq.feed(status[reads % 12]);
                reads += 1;
            },
            _ => seq.feed(0),
        }
    }
}

#[test]
fn start_up_with_reset_configuration() {
    let c = Config::default();
    let ops = init_operations(&c);
    assert_eq!(ops.len(), 42);
    assert_eq!(ops[0], Op::Write(0x36, 0x0A));
    assert_eq!(ops[1], Op::DelayMs(32));
    assert_eq!(ops[2], Op::Write(0x35, 1));
    assert_eq!(ops[3], Op::DelayMs(215));
    assert_eq!(ops[4], Op::Read(0x14));
    assert_eq!(ops[15], Op::Read(0x1F));
    assert_eq!(ops[16], Op::Write(0x35, 3));
    assert_eq!(ops[17], Op::DelayMs(3));
    let mut seq = InitSequence::new(c);
    run_plan(&mut seq, &ops, &good_status());
    let back = [
        (0x33, user_if_value(&c)),
        (0x28, rate_ctrl_value(&c)),
        (0x29, acc_ctrl_value(&c)),
        (0x25, filter_value(c.rate_x_lpf, c.rate_y_lpf, c.rate_z_lpf)),
        (0x26, filter_value(c.accel_x_lpf, c.accel_y_lpf, c.accel_z_lpf)),
    ];
    for (reg, val) in back {
        match seq.next::<()>() {
            Action::Do(Op::Read(r)) => assert_eq!(r, reg),
            other => panic!("unexpected {:?}", other),
        }
        seq.feed(val);
    }
    assert!(matches!(seq.next::<()>(), Action::Finish(Ok(()))));
    let mut s = Sch16t::new(AddressPins::Ta8LowTa9Low);
    s.finish_init(c);
    assert_eq!(s.config(), Some(c));
    assert_eq!(s.ll.next_addr(1), 2);
}

#[test]
fn start_up_writes_a_custom_configuration() {
    let c = Config {
        rate_x_lpf: Filter::Lpf1,
        rate_x_dec: DecimationRatio::Dec4,
        ..Default::default()
    };
    let ops = init_operations(&c);
    assert_eq!(ops.len(), 47);
    assert_eq!(ops[2], Op::Write(0x33, user_if_value(&c)));
    assert_eq!(ops[3], Op::Write(0x28, rate_ctrl_value(&c)));
    assert_eq!(ops[4], Op::Write(0x25, 1));
    assert_eq!(ops[5], Op::Write(0x29, acc_ctrl_value(&c)));
    assert_eq!(ops[6], Op::Write(0x26, 0));
}

#[test]
fn start_up_fails_on_bad_status() {
    let c = Config::default();
    let ops = init_operations(&c);
    let mut status = good_status();
    status[4] = 0x3;
    let mut seq = InitSequence::new(c);
    run_plan(&mut seq, &ops, &status);
    match seq.next::<()>() {
        Action::Finish(Err(Error::InitError(s))) => assert!(!s.rate_x.stc_dig_ok),
        other => panic!("unexpected {:?}", other),
    }
}

#[test]
fn start_up_fails_when_configuration_does_not_read_back() {
    let c = Config::default();
    let ops = init_operations(&c);
    let mut seq = InitSequence::new(c);
    run_plan(&mut seq, &ops, &good_status());
    assert_eq!(expect_read(seq.next::<()>()), 0x33);
    seq.feed(0);
    assert_eq!(expect_read(seq.next::<()>()), 0x28);
    // a range code that stands for no range
    seq.feed(0);
    for i in 0..12u8 {
        assert_eq!(expect_read(seq.next::<()>()), 0x14 + i);
        seq.feed(good_status()[i as usize]);
    }
    match seq.next::<()>() {
        Action::Finish(Err(Error::ConfigFailed(s))) => assert!(s.init_ok()),
        other => panic!("unexpected {:?}", other),
    }
}

#[test]
fn full_status_reads_twelve_registers() {
    let mut r = FullStatusRead::new();
    for i in 0..12u8 {
        assert_eq!(expect_read(r.next::<()>()), 0x14 + i);
        r.feed(good_status()[i as usize]);
    }
    match r.next::<()>() {
        Action::Finish(Ok(s)) => assert!(s.init_ok()),
        other => panic!("unexpected {:?}", other),
    }
}

#[test]
fn read_loop_lists() {
    let all = Config {
        include_temperature: true,
        include_data_counters: true,
        include_freq_counter: true,
        ..Default::default()
    };
    let l = read_loop_addrs(&all);
    // the second pair of counters no longer fits
    assert_eq!(l.as_slice(), &[1, 2, 3, 4, 5, 6, 0x10, 0x11, 0x12]);
    let no_temp = Config { include_temperature: false, ..all };
    assert_eq!(
        read_loop_addrs(&no_temp).as_slice(),
        &[1, 2, 3, 4, 5, 6, 0x11, 0x12, 0x11, 0x12]
    );
    let dec = Config { sample_mode: SampleMode::Decimation, ..Default::default() };
    assert_eq!(read_loop_addrs(&dec).as_slice(), &[0x0A, 0x0B, 0x0C, 0x0D, 0x0E, 0x0F]);
}
