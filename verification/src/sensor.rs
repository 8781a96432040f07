//! The sensor: its interface and the configuration it was started with.
use vstd::prelude::*;
use crate::config::{AddressPins, Config, chip_address};
use crate::error::Error;
use crate::interface::{
    Interface, InterfaceView, addr_list_extend_from_slice, addr_list_from_slice, addr_list_items,
    addr_list_new, addr_list_push,
};
use crate::ops::{Action, Op};
use crate::registers::{
    ACC_DCNT, ACC_X1, ACC_X2, ACC_Y1, ACC_Y2, ACC_Z1, ACC_Z2, CTRL_RESET, RATE_DCNT, RATE_X1,
    RATE_X2, RATE_Y1, RATE_Y2, RATE_Z1, RATE_Z2, RESET_COMMAND, STAT_SUM, TEMP, full_status_of,
    full_status_value,
};
use crate::sampling::{SampleRead, data_registers};
use crate::settings::SensorStatus;
use crate::config::SampleMode;
use crate::status::FullStatus;

verus! {

/// The registers that the interface expects a sample to read, in order:
/// the six outputs of the read mode, the temperature when asked for, the
/// two data counter registers when asked for, and, when the clock counter
/// is asked for, the two data counter registers once more if they still
/// fit in the ten places of the list.
pub open spec fn read_loop_for(c: Config) -> Seq<u8> {
    let base = data_registers(c.sample_mode);
    let with_temp = if c.include_temperature {
        base.push(TEMP)
    } else {
        base
    };
    let with_counters = if c.include_data_counters {
        with_temp + seq![RATE_DCNT, ACC_DCNT]
    } else {
        with_temp
    };
    if c.include_freq_counter && with_counters.len() + 2 <= 10 {
        with_counters + seq![RATE_DCNT, ACC_DCNT]
    } else {
        with_counters
    }
}

/// The read loop list for a configuration (see `read_loop_for`).
pub fn read_loop_addrs(c: &Config) -> (l: heapless::Vec<u8, 10>)
    ensures
        addr_list_items(l) == read_loop_for(*c),
{
    let data = match c.sample_mode {
        SampleMode::Interpolate => [RATE_X1, RATE_Y1, RATE_Z1, ACC_X1, ACC_Y1, ACC_Z1],
        SampleMode::Decimation => [RATE_X2, RATE_Y2, RATE_Z2, ACC_X2, ACC_Y2, ACC_Z2],
    };
    assert(data@ =~= data_registers(c.sample_mode));
    let mut l = match addr_list_from_slice(data.as_slice()) {
        Ok(l) => l,
        Err(_) => addr_list_new(),
    };
    if c.include_temperature {
        let _ = addr_list_push(&mut l, TEMP);
    }
    let counters = [RATE_DCNT, ACC_DCNT];
    assert(counters@ =~= seq![RATE_DCNT, ACC_DCNT]);
    if c.include_data_counters {
        let _ = addr_list_extend_from_slice(&mut l, counters.as_slice());
    }
    if c.include_freq_counter {
        let _ = addr_list_extend_from_slice(&mut l, counters.as_slice());
    }
    l
}

/// What the sensor driver remembers.
pub struct Sch16tView {
    /// The SPI side.
    pub interface: InterfaceView,
    /// The configuration the sensor was started with, once it was.
    pub config: Option<Config>,
}

/// The sensor driver: the SPI interface and the configuration that the
/// sensor was started with.
pub struct Sch16t {
    /// The SPI side of the driver.
    pub ll: Interface,
    config: Option<Config>,
}

impl View for Sch16t {
    type V = Sch16tView;

    closed spec fn view(&self) -> Sch16tView {
        Sch16tView { interface: self.ll@, config: self.config }
    }
}

/// Reading the full status: the twelve status registers in order, then the
/// status they make.
pub open spec fn full_status_action<E>(v: Seq<u32>) -> Action<FullStatus, E> {
    if v.len() < 12 {
        Action::Do(Op::Read((STAT_SUM + v.len()) as u8))
    } else {
        Action::Finish(Ok(full_status_of(v.take(12))))
    }
}

/// The state of a full status read: the values read so far.
pub struct FullStatusRead {
    values: Vec<u32>,
}

impl View for FullStatusRead {
    type V = Seq<u32>;

    closed spec fn view(&self) -> Seq<u32> {
        self.values@
    }
}

impl FullStatusRead {
    /// A full status read, nothing read yet.
    pub fn new() -> (s: FullStatusRead)
        ensures
            s@ == Seq::<u32>::empty(),
    {
        FullStatusRead { values: Vec::new() }
    }

    /// Takes in the value of the register that the last `Read` asked for.
    pub fn feed(&mut self, value: u32)
        ensures
            final(self)@ == old(self)@.push(value),
    {
        self.values.push(value);
    }

    /// What the full status read asks for next.
    pub fn next<E>(&self) -> (a: Action<FullStatus, E>)
        ensures
            a == full_status_action::<E>(self@),
    {
        let n = self.values.len();
        if n < 12 {
            Action::Do(Op::Read(STAT_SUM + n as u8))
        } else {
            let s = full_status_value(self.values.as_slice(), 0);
            proof {
                assert(self.values@.subrange(0, 12) =~= self.values@.take(12));
            }
            Action::Finish(Ok(s))
        }
    }
}

impl Sch16t {
    /// A driver for the sensor at the address that the pins select, not
    /// started yet.
    pub fn new(address_pins: AddressPins) -> (s: Sch16t)
        ensures
            s@.interface.address == chip_address(address_pins),
            s@.interface.last_out_addr == 0,
            s@.interface.sticky_status == SensorStatus::Initialization,
            s@.interface.read_loop == Seq::<u8>::empty(),
            s@.config == None::<Config>,
    {
        let ll = Interface::new(address_pins);
        Sch16t { ll, config: None }
    }

    /// The configuration the sensor was started with, once it was.
    pub fn config(&self) -> (c: Option<Config>)
        ensures
            c == self@.config,
    {
        self.config
    }

    /// The operation that resets the sensor.
    pub fn reset_op() -> (op: Op)
        ensures
            op == Op::Write(CTRL_RESET, RESET_COMMAND),
    {
        Op::Write(CTRL_RESET, RESET_COMMAND)
    }

    /// The operation that reads the temperature register; its value
    /// decodes with `registers::temperature_value`.
    pub fn temperature_op() -> (op: Op)
        ensures
            op == Op::Read(TEMP),
    {
        Op::Read(TEMP)
    }

    /// Records a successful start-up with `config`: later samples follow
    /// it, and the interface expects their registers in order.
    pub fn finish_init(&mut self, config: Config)
        ensures
            final(self)@.config == Some(config),
            final(self)@.interface == (InterfaceView {
                read_loop: read_loop_for(config),
                ..old(self)@.interface
            }),
    {
        self.config = Some(config);
        let addrs = read_loop_addrs(&config);
        self.ll.set_read_loop_addrs(addrs);
    }

    /// Starts reading a sample: fails when the sensor was not started;
    /// else clears the sticky status and follows the configuration.
    pub fn begin_sample<E>(&mut self) -> (r: Result<SampleRead, Error<E>>)
        ensures
            old(self)@.config is None ==> (r matches Err(Error::SensorNotInit)),
            old(self)@.config is None ==> final(self)@ == old(self)@,
            old(self)@.config matches Some(c) ==> (r matches Ok(s) && s@.config == c
                && s@.values == Seq::<u32>::empty()),
            old(self)@.config is Some ==> final(self)@ == (Sch16tView {
                interface: InterfaceView {
                    sticky_status: SensorStatus::Normal,
                    ..old(self)@.interface
                },
                ..old(self)@
            }),
    {
        match self.config {
            Some(config) => {
                self.ll.clear_sticky_status();
                Ok(SampleRead::new(config))
            },
            None => Err(Error::SensorNotInit),
        }
    }
}

/// When the clock counter is not asked for, the interface expects exactly
/// the registers that a sample reads, in the order it reads them, and none
/// of them twice.
pub proof fn read_loop_follows_sample_plan(c: Config)
    requires
        !c.include_freq_counter,
    ensures
        read_loop_for(c) == crate::sampling::sample_plan(c),
        read_loop_for(c).no_duplicates(),
{
    let l = read_loop_for(c);
    assert(l =~= crate::sampling::sample_plan(c));
}

/// A full status read asks for registers 0x14 to 0x1F in order, one per
/// value read, and then delivers the status of exactly those twelve values
/// (see `registers::full_status_fields_come_from_their_registers` for each
/// field).
pub proof fn full_status_read_covers_the_status_registers<E>(v: Seq<u32>)
    ensures
        v.len() < 12 ==> full_status_action::<E>(v) == Action::<FullStatus, E>::Do(
            Op::Read((0x14 + v.len()) as u8),
        ),
        v.len() >= 12 ==> full_status_action::<E>(v) == Action::<FullStatus, E>::Finish(
            Ok(full_status_of(v.subrange(0, 12))),
        ),
{
    if v.len() >= 12 {
        assert(v.take(12) =~= v.subrange(0, 12));
    }
}

} // verus!
