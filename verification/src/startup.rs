//! Starting the sensor: reset, configuration, enabling the sensor, the
//! start-up status checks and the read-back of the configuration.
use vstd::prelude::*;
use crate::config::{Config, reset_config};
use crate::error::Error;
use crate::ops::{Action, Op};
use crate::registers::{
    CTRL_ACC12, CTRL_FILT_ACC12, CTRL_FILT_RATE, CTRL_MODE, CTRL_RATE, CTRL_RESET, CTRL_USER_IF,
    MODE_EN_SENSOR, MODE_EOI_EN_SENSOR, RESET_COMMAND, STAT_SUM, acc_ctrl_holds, acc_ctrl_matches,
    acc_ctrl_value, acc_ctrl_word, filter_value, filter_value_holds, filter_word, filter_word_holds,
    full_status_of, full_status_value, rate_ctrl_holds, rate_ctrl_matches, rate_ctrl_value,
    rate_ctrl_word, user_if_holds, user_if_matches, user_if_value, user_if_word,
};
use crate::status::FullStatus;

verus! {

/// Milliseconds to wait after the reset.
pub const RESET_DELAY_MS: u32 = 32;
/// Milliseconds to wait after enabling the sensor.
pub const ENABLE_DELAY_MS: u32 = 215;
/// Milliseconds to wait after ending the initialisation.
pub const EOI_DELAY_MS: u32 = 3;

/// Reading the twelve status registers, `STAT_SUM` up to `STAT_INFO`.
pub open spec fn status_reads() -> Seq<Op> {
    Seq::new(12, |i: int| Op::Read((STAT_SUM + i) as u8))
}

/// Writing a configuration: the interface register, then the gyroscope
/// range and decimation, its filters, the accelerometer range and
/// decimation, its filters.
pub open spec fn config_writes(c: Config) -> Seq<Op> {
    seq![
        Op::Write(CTRL_USER_IF, user_if_word(c)),
        Op::Write(CTRL_RATE, rate_ctrl_word(c)),
        Op::Write(CTRL_FILT_RATE, filter_word(c.rate_x_lpf, c.rate_y_lpf, c.rate_z_lpf)),
        Op::Write(CTRL_ACC12, acc_ctrl_word(c)),
        Op::Write(CTRL_FILT_ACC12, filter_word(c.accel_x_lpf, c.accel_y_lpf, c.accel_z_lpf)),
    ]
}

/// The fixed part of the start-up sequence: reset and wait; write the
/// configuration unless it is the reset configuration; enable the sensor
/// and wait; read the status; end the initialisation and wait; read the
/// status twice more.
pub open spec fn init_plan(c: Config) -> Seq<Op> {
    seq![Op::Write(CTRL_RESET, RESET_COMMAND), Op::DelayMs(RESET_DELAY_MS)] + (if c != reset_config() {
        config_writes(c)
    } else {
        Seq::<Op>::empty()
    }) + seq![Op::Write(CTRL_MODE, MODE_EN_SENSOR), Op::DelayMs(ENABLE_DELAY_MS)] + status_reads()
        + seq![Op::Write(CTRL_MODE, MODE_EOI_EN_SENSOR), Op::DelayMs(EOI_DELAY_MS)] + status_reads()
        + status_reads()
}

/// The control register that read-back check `j` reads.
pub open spec fn check_register(j: int) -> u8 {
    if j == 0 {
        CTRL_USER_IF
    } else if j == 1 {
        CTRL_RATE
    } else if j == 2 {
        CTRL_ACC12
    } else if j == 3 {
        CTRL_FILT_RATE
    } else {
        CTRL_FILT_ACC12
    }
}

/// Whether the value read back for check `j` holds the configuration.
pub open spec fn check_holds(j: int, d: u32, c: Config) -> bool {
    if j == 0 {
        user_if_holds(d, c)
    } else if j == 1 {
        rate_ctrl_holds(d, c)
    } else if j == 2 {
        acc_ctrl_holds(d, c)
    } else if j == 3 {
        filter_word_holds(d, c.rate_x_lpf, c.rate_y_lpf, c.rate_z_lpf)
    } else {
        filter_word_holds(d, c.accel_x_lpf, c.accel_y_lpf, c.accel_z_lpf)
    }
}

/// The read-back checks from check `j` on, with `rest` the values read
/// since: each control register is read and compared in turn; at the first
/// that does not hold the configuration, the full status is read and the
/// start-up fails with it; when all hold, the start-up succeeds.
pub open spec fn check_action<E>(c: Config, rest: Seq<u32>, j: int) -> Action<(), E>
    decreases 5 - j,
{
    if j >= 5 {
        Action::Finish(Ok(()))
    } else if rest.len() == 0 {
        Action::Do(Op::Read(check_register(j)))
    } else if check_holds(j, rest[0], c) {
        check_action(c, rest.drop_first(), j + 1)
    } else {
        let r = rest.drop_first();
        if r.len() < 12 {
            Action::Do(Op::Read((STAT_SUM + r.len()) as u8))
        } else {
            Action::Finish(Err(Error::ConfigFailed(full_status_of(r.take(12)))))
        }
    }
}

/// What the start-up asks for next, after the operations so far gave the
/// values `v` (one per operation; only those of reads count). The plan
/// comes first. Then, when the last status read reports a fault, the
/// start-up fails with it; else the configuration is read back.
pub open spec fn init_action<E>(c: Config, v: Seq<u32>) -> Action<(), E> {
    let plan = init_plan(c);
    let p = plan.len() as int;
    if v.len() < p {
        Action::Do(plan[v.len() as int])
    } else {
        let status = full_status_of(v.subrange(p - 12, p));
        if !status.started_ok() {
            Action::Finish(Err(Error::InitError(status)))
        } else {
            check_action(c, v.skip(p), 0)
        }
    }
}

/// The operations of `status_reads()`, appended to `ops`.
fn push_status_reads(ops: &mut Vec<Op>)
    ensures
        final(ops)@ == old(ops)@ + status_reads(),
{
    let ghost start = ops@;
    let mut i: u8 = 0;
    while i < 12
        invariant
            i <= 12,
            ops@ == start + status_reads().take(i as int),
        decreases 12 - i,
    {
        ops.push(Op::Read(STAT_SUM + i));
        proof {
            assert(status_reads().take(i + 1) =~= status_reads().take(i as int).push(
                Op::Read((STAT_SUM + i) as u8),
            ));
        }
        i = i + 1;
    }
    assert(status_reads().take(12) =~= status_reads());
}

/// The writes of `config_writes(*c)`, appended to `ops`.
fn push_config_writes(ops: &mut Vec<Op>, c: &Config)
    ensures
        final(ops)@ == old(ops)@ + config_writes(*c),
{
    let ghost start = ops@;
    ops.push(Op::Write(CTRL_USER_IF, user_if_value(c)));
    ops.push(Op::Write(CTRL_RATE, rate_ctrl_value(c)));
    ops.push(Op::Write(CTRL_FILT_RATE, filter_value(c.rate_x_lpf, c.rate_y_lpf, c.rate_z_lpf)));
    ops.push(Op::Write(CTRL_ACC12, acc_ctrl_value(c)));
    ops.push(Op::Write(CTRL_FILT_ACC12, filter_value(c.accel_x_lpf, c.accel_y_lpf, c.accel_z_lpf)));
    assert(ops@ =~= start + config_writes(*c));
}

/// The operations of `init_plan(*c)`.
pub fn init_operations(c: &Config) -> (ops: Vec<Op>)
    ensures
        ops@ == init_plan(*c),
{
    let mut ops: Vec<Op> = Vec::new();
    ops.push(Op::Write(CTRL_RESET, RESET_COMMAND));
    ops.push(Op::DelayMs(RESET_DELAY_MS));
    let ghost a = ops@;
    if *c != Config::default() {
        push_config_writes(&mut ops, c);
    }
    let ghost b = ops@;
    ops.push(Op::Write(CTRL_MODE, MODE_EN_SENSOR));
    ops.push(Op::DelayMs(ENABLE_DELAY_MS));
    push_status_reads(&mut ops);
    ops.push(Op::Write(CTRL_MODE, MODE_EOI_EN_SENSOR));
    ops.push(Op::DelayMs(EOI_DELAY_MS));
    push_status_reads(&mut ops);
    push_status_reads(&mut ops);
    proof {
        assert(a =~= seq![Op::Write(CTRL_RESET, RESET_COMMAND), Op::DelayMs(RESET_DELAY_MS)]);
        assert(b =~= a + (if *c != reset_config() {
            config_writes(*c)
        } else {
            Seq::<Op>::empty()
        }));
        assert(ops@ =~= init_plan(*c));
    }
    ops
}

/// Whether the value read back for check `j` holds the configuration.
pub fn check_register_holds(j: usize, d: u32, c: &Config) -> (r: bool)
    ensures
        r == check_holds(j as int, d, *c),
{
    if j == 0 {
        user_if_matches(d, c)
    } else if j == 1 {
        rate_ctrl_matches(d, c)
    } else if j == 2 {
        acc_ctrl_matches(d, c)
    } else if j == 3 {
        filter_value_holds(d, c.rate_x_lpf, c.rate_y_lpf, c.rate_z_lpf)
    } else {
        filter_value_holds(d, c.accel_x_lpf, c.accel_y_lpf, c.accel_z_lpf)
    }
}

fn check_register_at(j: usize) -> (a: u8)
    ensures
        a == check_register(j as int),
{
    if j == 0 {
        CTRL_USER_IF
    } else if j == 1 {
        CTRL_RATE
    } else if j == 2 {
        CTRL_ACC12
    } else if j == 3 {
        CTRL_FILT_RATE
    } else {
        CTRL_FILT_ACC12
    }
}

/// The state of a start-up: the configuration to set and the values of
/// the operations so far.
pub struct InitSequence {
    config: Config,
    values: Vec<u32>,
}

/// The configuration of a start-up and the values of its operations so
/// far.
pub struct InitSequenceView {
    pub config: Config,
    pub values: Seq<u32>,
}

impl View for InitSequence {
    type V = InitSequenceView;

    closed spec fn view(&self) -> InitSequenceView {
        InitSequenceView { config: self.config, values: self.values@ }
    }
}

impl InitSequence {
    /// A start-up with the configuration `config`, nothing done yet.
    pub fn new(config: Config) -> (s: InitSequence)
        ensures
            s@.config == config,
            s@.values == Seq::<u32>::empty(),
    {
        InitSequence { config, values: Vec::new() }
    }

    /// Takes in the outcome of the last operation: the value of a read, or
    /// any value for a write or a delay.
    pub fn feed(&mut self, value: u32)
        ensures
            final(self)@.config == old(self)@.config,
            final(self)@.values == old(self)@.values.push(value),
    {
        self.values.push(value);
    }

    /// What the start-up asks for next.
    pub fn next<E>(&self) -> (a: Action<(), E>)
        ensures
            a == init_action::<E>(self@.config, self@.values),
    {
        let c = &self.config;
        let v = &self.values;
        let plan = init_operations(c);
        let p = plan.len();
        if v.len() < p {
            return Action::Do(plan[v.len()]);
        }
        let status = full_status_value(v.as_slice(), p - 12);
        if !status.init_ok() {
            return Action::Finish(Err(Error::InitError(status)));
        }
        let ghost goal = check_action::<E>(*c, v@.skip(p as int), 0);
        let mut j: usize = 0;
        let mut at: usize = p;
        while j < 5
            invariant
                j <= 5,
                p <= at <= v@.len(),
                at - p == j,
                goal == check_action::<E>(*c, v@.skip(at as int), j as int),
                init_action::<E>(self@.config, self@.values) == goal,
            decreases 5 - j,
        {
            if at == v.len() {
                return Action::Do(Op::Read(check_register_at(j)));
            }
            proof {
                assert(v@.skip(at as int)[0] == v@[at as int]);
                assert(v@.skip(at as int).drop_first() =~= v@.skip(at + 1));
            }
            if check_register_holds(j, v[at], c) {
                at = at + 1;
                j = j + 1;
            } else {
                let start = at + 1;
                let rlen = v.len() - start;
                if rlen < 12 {
                    return Action::Do(Op::Read(STAT_SUM + rlen as u8));
                } else {
                    let s = full_status_value(v.as_slice(), start);
                    proof {
                        assert(v@.skip(start as int).take(12) =~= v@.subrange(start as int, start + 12));
                    }
                    return Action::Finish(Err(Error::ConfigFailed(s)));
                }
            }
        }
        Action::Finish(Ok(()))
    }
}

/// When the sensor keeps what was written, the read-back of the
/// configuration passes: the values written for the five control
/// registers, read back in the order of the checks, end the start-up with
/// success.
pub proof fn written_config_passes_read_back<E>(c: Config)
    ensures
        check_action::<E>(
            c,
            seq![
                user_if_word(c),
                rate_ctrl_word(c),
                acc_ctrl_word(c),
                filter_word(c.rate_x_lpf, c.rate_y_lpf, c.rate_z_lpf),
                filter_word(c.accel_x_lpf, c.accel_y_lpf, c.accel_z_lpf),
            ],
            0,
        ) == Action::<(), E>::Finish(Ok(())),
{
    crate::registers::user_if_reads_back(c);
    crate::registers::rate_ctrl_reads_back(c);
    crate::registers::acc_ctrl_reads_back(c);
    crate::registers::filter_reads_back(c.rate_x_lpf, c.rate_y_lpf, c.rate_z_lpf);
    crate::registers::filter_reads_back(c.accel_x_lpf, c.accel_y_lpf, c.accel_z_lpf);
    let r0 = seq![
        user_if_word(c),
        rate_ctrl_word(c),
        acc_ctrl_word(c),
        filter_word(c.rate_x_lpf, c.rate_y_lpf, c.rate_z_lpf),
        filter_word(c.accel_x_lpf, c.accel_y_lpf, c.accel_z_lpf),
    ];
    let r1 = r0.drop_first();
    let r2 = r1.drop_first();
    let r3 = r2.drop_first();
    let r4 = r3.drop_first();
    let r5 = r4.drop_first();
    assert(r5.len() == 0);
    assert(check_action::<E>(c, r4, 4) == check_action::<E>(c, r5, 5));
    assert(check_action::<E>(c, r3, 3) == check_action::<E>(c, r4, 4));
    assert(check_action::<E>(c, r2, 2) == check_action::<E>(c, r3, 3));
    assert(check_action::<E>(c, r1, 1) == check_action::<E>(c, r2, 2));
    assert(check_action::<E>(c, r0, 0) == check_action::<E>(c, r1, 1));
}

proof fn lemma_check_ok<E>(c: Config, rest: Seq<u32>, j: int)
    requires
        0 <= j <= 5,
    ensures
        check_action::<E>(c, rest, j) matches Action::Finish(Ok(_)) ==> rest.len() >= 5 - j
            && forall|i: int| 0 <= i < 5 - j ==> check_holds(j + i, #[trigger] rest[i], c),
    decreases 5 - j,
{
    if j < 5 && rest.len() > 0 && check_holds(j, rest[0], c) {
        lemma_check_ok::<E>(c, rest.drop_first(), j + 1);
        if check_action::<E>(c, rest, j) matches Action::Finish(Ok(_)) {
            assert forall|i: int| 0 <= i < 5 - j implies check_holds(j + i, #[trigger] rest[i], c) by {
                if i > 0 {
                    assert(rest[i] == rest.drop_first()[i - 1]);
                }
            }
        }
    }
}

/// A start-up succeeds only when the last status read reports the sensor
/// fine and each of the five control registers read back holds the
/// configuration.
pub proof fn successful_start_up_confirms_config<E>(c: Config, v: Seq<u32>)
    ensures
        init_action::<E>(c, v) matches Action::Finish(Ok(_)) ==> {
            let p = init_plan(c).len() as int;
            &&& v.len() >= p + 5
            &&& full_status_of(v.subrange(p - 12, p)).started_ok()
            &&& forall|j: int| 0 <= j < 5 ==> check_holds(j, #[trigger] v[p + j], c)
        },
{
    let p = init_plan(c).len() as int;
    if v.len() >= p {
        lemma_check_ok::<E>(c, v.skip(p), 0);
        if init_action::<E>(c, v) matches Action::Finish(Ok(_)) {
            assert forall|j: int| 0 <= j < 5 implies check_holds(j, #[trigger] v[p + j], c) by {
                assert(v.skip(p)[j] == v[p + j]);
            }
        }
    }
}

/// The value that the start-up writes to the control register of
/// read-back check `j`.
pub open spec fn written_word(j: int, c: Config) -> u32 {
    if j == 0 {
        user_if_word(c)
    } else if j == 1 {
        rate_ctrl_word(c)
    } else if j == 2 {
        acc_ctrl_word(c)
    } else if j == 3 {
        filter_word(c.rate_x_lpf, c.rate_y_lpf, c.rate_z_lpf)
    } else {
        filter_word(c.accel_x_lpf, c.accel_y_lpf, c.accel_z_lpf)
    }
}

/// What the start-up writes passes the read-back: for a configuration other
/// than the reset one, the start-up plan writes to each control register
/// that the read-back checks a value that the check accepts.
pub proof fn start_up_writes_what_read_back_accepts(c: Config, j: int)
    requires
        0 <= j < 5,
        c != reset_config(),
    ensures
        init_plan(c).contains(Op::Write(check_register(j), written_word(j, c))),
        check_holds(j, written_word(j, c), c),
{
    crate::registers::user_if_reads_back(c);
    crate::registers::rate_ctrl_reads_back(c);
    crate::registers::acc_ctrl_reads_back(c);
    crate::registers::filter_reads_back(c.rate_x_lpf, c.rate_y_lpf, c.rate_z_lpf);
    crate::registers::filter_reads_back(c.accel_x_lpf, c.accel_y_lpf, c.accel_z_lpf);
    let k: int = if j == 0 {
        2
    } else if j == 1 {
        3
    } else if j == 2 {
        5
    } else if j == 3 {
        4
    } else {
        6
    };
    assert(init_plan(c)[k] == Op::Write(check_register(j), written_word(j, c)));
}

/// A start-up whose last status read reports the sensor fine, and whose
/// read-back finds in each control register the value written for the
/// configuration, succeeds right after the five read-back reads.
pub proof fn start_up_succeeds_when_config_reads_back<E>(c: Config, v: Seq<u32>)
    requires
        v.len() == init_plan(c).len() + 5,
        full_status_of(v.subrange(init_plan(c).len() - 12, init_plan(c).len() as int)).started_ok(),
        forall|j: int| 0 <= j < 5 ==> #[trigger] v[init_plan(c).len() + j] == written_word(j, c),
    ensures
        init_action::<E>(c, v) == Action::<(), E>::Finish(Ok(())),
{
    let p = init_plan(c).len() as int;
    written_config_passes_read_back::<E>(c);
    assert(v[p + 0] == written_word(0, c));
    assert(v[p + 1] == written_word(1, c));
    assert(v[p + 2] == written_word(2, c));
    assert(v[p + 3] == written_word(3, c));
    assert(v[p + 4] == written_word(4, c));
    assert(v.skip(p) =~= seq![
        user_if_word(c),
        rate_ctrl_word(c),
        acc_ctrl_word(c),
        filter_word(c.rate_x_lpf, c.rate_y_lpf, c.rate_z_lpf),
        filter_word(c.accel_x_lpf, c.accel_y_lpf, c.accel_z_lpf),
    ]);
}

proof fn lemma_check_never_init_error<E>(c: Config, rest: Seq<u32>, j: int)
    ensures
        !(check_action::<E>(c, rest, j) matches Action::Finish(Err(Error::InitError(_)))),
    decreases 5 - j,
{
    if j < 5 && rest.len() > 0 && check_holds(j, rest[0], c) {
        lemma_check_never_init_error::<E>(c, rest.drop_first(), j + 1);
    }
}

/// Whether the last status read of a start-up (the twelve values of
/// registers 0x14 to 0x1F that end the plan, `w`) reports a sensor that
/// came up fine: the summary's init-ready bit (bit 15 of 0x14), all eleven
/// bits of the common block (0x16), all seven of the shared gyroscope block
/// (0x17), the three self test bits of each gyroscope axis (0x18, 0x19,
/// 0x1A) and the four of each accelerometer axis (0x1B, 0x1C, 0x1D).
pub open spec fn start_up_status_fine(w: Seq<u32>) -> bool {
    &&& w[0] & 0x8000 != 0
    &&& w[2] & 0x7FF == 0x7FF
    &&& w[3] & 0x7F == 0x7F
    &&& w[4] & 0x7 == 0x7
    &&& w[5] & 0x7 == 0x7
    &&& w[6] & 0x7 == 0x7
    &&& w[7] & 0xF == 0xF
    &&& w[8] & 0xF == 0xF
    &&& w[9] & 0xF == 0xF
}

/// The start-up status check looks at every self test bit: once the plan
/// is done, the start-up fails with `InitError` carrying the last status
/// exactly when that status misses one of the bits of
/// `start_up_status_fine`, and a start-up that succeeds had them all.
pub proof fn start_up_checks_every_self_test_bit<E>(c: Config, v: Seq<u32>)
    requires
        v.len() >= init_plan(c).len(),
    ensures
        ({
            let p = init_plan(c).len() as int;
            let w = v.subrange(p - 12, p);
            &&& !start_up_status_fine(w) ==> init_action::<E>(c, v) == Action::<(), E>::Finish(
                Err(Error::InitError(full_status_of(w))),
            )
            &&& start_up_status_fine(w) ==> !(init_action::<E>(c, v) matches Action::Finish(
                Err(Error::InitError(_)),
            ))
            &&& (init_action::<E>(c, v) matches Action::Finish(Ok(_))) ==> start_up_status_fine(w)
        }),
{
    let p = init_plan(c).len() as int;
    let w = v.subrange(p - 12, p);
    crate::registers::full_status_fields_come_from_their_registers(w);
    crate::status::lemma_flag_masks(w[0]);
    crate::status::lemma_flag_masks(w[2]);
    crate::status::lemma_flag_masks(w[3]);
    crate::status::lemma_flag_masks(w[4]);
    crate::status::lemma_flag_masks(w[5]);
    crate::status::lemma_flag_masks(w[6]);
    crate::status::lemma_flag_masks(w[7]);
    crate::status::lemma_flag_masks(w[8]);
    crate::status::lemma_flag_masks(w[9]);
    lemma_check_never_init_error::<E>(c, v.skip(p), 0);
}

/// The start-up sequence, register by register: write 0x0A to 0x36 (reset)
/// and wait 32 ms; unless the configuration is the reset one, write the
/// interface register 0x33, the gyroscope control 0x28, the gyroscope
/// filters 0x25, the accelerometer control 0x29 and the accelerometer
/// filters 0x26; write 1 to 0x35 (enable) and wait 215 ms; read 0x14 to
/// 0x1F; write 3 to 0x35 (end of initialisation) and wait 3 ms; read 0x14
/// to 0x1F twice. The read-back then reads 0x33, 0x28, 0x29, 0x25, 0x26 in
/// that order.
pub proof fn start_up_sequence_by_register(c: Config)
    ensures
        ({
            let reads = Seq::new(12, |i: int| Op::Read((0x14 + i) as u8));
            let writes = if c == reset_config() {
                Seq::<Op>::empty()
            } else {
                seq![
                    Op::Write(0x33, user_if_word(c)),
                    Op::Write(0x28, rate_ctrl_word(c)),
                    Op::Write(0x25, filter_word(c.rate_x_lpf, c.rate_y_lpf, c.rate_z_lpf)),
                    Op::Write(0x29, acc_ctrl_word(c)),
                    Op::Write(0x26, filter_word(c.accel_x_lpf, c.accel_y_lpf, c.accel_z_lpf)),
                ]
            };
            init_plan(c) == seq![Op::Write(0x36, 0x0A), Op::DelayMs(32)] + writes + seq![
                Op::Write(0x35, 1),
                Op::DelayMs(215),
            ] + reads + seq![Op::Write(0x35, 3), Op::DelayMs(3)] + reads + reads
        }),
        check_register(0) == 0x33u8,
        check_register(1) == 0x28u8,
        check_register(2) == 0x29u8,
        check_register(3) == 0x25u8,
        check_register(4) == 0x26u8,
{
    let reads = Seq::new(12, |i: int| Op::Read((0x14 + i) as u8));
    assert(status_reads() =~= reads);
}

} // verus!
