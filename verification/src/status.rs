//! The status registers of the sensor, decoded field by field, and the
//! checks that the start-up and sampling procedures make on them.
use vstd::prelude::*;

verus! {

/// Bit `n` of a register value.
pub open spec fn bit_set(d: u32, n: u32) -> bool {
    (d >> n) & 1u32 == 1u32
}

/// Bit `n` of a register value.
pub fn bit(d: u32, n: u32) -> (b: bool)
    requires
        n < 32,
    ensures
        b == bit_set(d, n),
{
    (d >> n) & 1u32 == 1u32
}

/// Summary status register: one bit per block, set when the block is fine.
#[derive(Debug, Clone, Copy, PartialEq, Eq, Structural)]
pub struct StatSumFields {
    pub init_rdy: bool,
    pub cmn: bool,
    pub rate_x: bool,
    pub rate_y: bool,
    pub rate_z: bool,
    pub acc_x: bool,
    pub acc_y: bool,
    pub acc_z: bool,
}

impl StatSumFields {
    /// The fields of a register value.
    pub open spec fn from_bits_spec(d: u32) -> StatSumFields {
        StatSumFields {
            init_rdy: bit_set(d, 15),
            cmn: bit_set(d, 14),
            rate_x: bit_set(d, 13),
            rate_y: bit_set(d, 12),
            rate_z: bit_set(d, 11),
            acc_x: bit_set(d, 10),
            acc_y: bit_set(d, 9),
            acc_z: bit_set(d, 8),
        }
    }

    /// Decodes a register value.
    pub fn from_bits(d: u32) -> (r: StatSumFields)
        ensures
            r == Self::from_bits_spec(d),
    {
        StatSumFields {
            init_rdy: bit(d, 15),
            cmn: bit(d, 14),
            rate_x: bit(d, 13),
            rate_y: bit(d, 12),
            rate_z: bit(d, 11),
            acc_x: bit(d, 10),
            acc_y: bit(d, 9),
            acc_z: bit(d, 8),
        }
    }

}

/// Saturation summary register: one bit per output, set when the output is not saturated.
#[derive(Debug, Clone, Copy, PartialEq, Eq, Structural)]
pub struct StatSumSatFields {
    pub rate_x_1: bool,
    pub rate_y_1: bool,
    pub rate_z_1: bool,
    pub acc_x_1: bool,
    pub acc_y_1: bool,
    pub acc_z_1: bool,
    pub rate_x_2: bool,
    pub rate_y_2: bool,
    pub rate_z_2: bool,
    pub acc_x_2: bool,
    pub acc_y_2: bool,
    pub acc_z_2: bool,
}

impl StatSumSatFields {
    /// The fields of a register value.
    pub open spec fn from_bits_spec(d: u32) -> StatSumSatFields {
        StatSumSatFields {
            rate_x_1: bit_set(d, 15),
            rate_y_1: bit_set(d, 14),
            rate_z_1: bit_set(d, 13),
            acc_x_1: bit_set(d, 12),
            acc_y_1: bit_set(d, 11),
            acc_z_1: bit_set(d, 10),
            rate_x_2: bit_set(d, 9),
            rate_y_2: bit_set(d, 8),
            rate_z_2: bit_set(d, 7),
            acc_x_2: bit_set(d, 6),
            acc_y_2: bit_set(d, 5),
            acc_z_2: bit_set(d, 4),
        }
    }

    /// Decodes a register value.
    pub fn from_bits(d: u32) -> (r: StatSumSatFields)
        ensures
            r == Self::from_bits_spec(d),
    {
        StatSumSatFields {
            rate_x_1: bit(d, 15),
            rate_y_1: bit(d, 14),
            rate_z_1: bit(d, 13),
            acc_x_1: bit(d, 12),
            acc_y_1: bit(d, 11),
            acc_z_1: bit(d, 10),
            rate_x_2: bit(d, 9),
            rate_y_2: bit(d, 8),
            rate_z_2: bit(d, 7),
            acc_x_2: bit(d, 6),
            acc_y_2: bit(d, 5),
            acc_z_2: bit(d, 4),
        }
    }

}

/// Status of the common block.
#[derive(Debug, Clone, Copy, PartialEq, Eq, Structural)]
pub struct StatComFields {
    pub mclk_ok: bool,
    pub dual_clock_ok: bool,
    pub dsp_ok: bool,
    pub svm_ok: bool,
    pub hv_cp_ok: bool,
    pub supply_ok: bool,
    pub temp_ok: bool,
    pub nmode_ok: bool,
    pub nvm_sts_ok: bool,
    pub cmn_sts_ok: bool,
    pub cmn_sts_rdy: bool,
}

impl StatComFields {
    /// The fields of a register value.
    pub open spec fn from_bits_spec(d: u32) -> StatComFields {
        StatComFields {
            mclk_ok: bit_set(d, 10),
            dual_clock_ok: bit_set(d, 9),
            dsp_ok: bit_set(d, 8),
            svm_ok: bit_set(d, 7),
            hv_cp_ok: bit_set(d, 6),
            supply_ok: bit_set(d, 5),
            temp_ok: bit_set(d, 4),
            nmode_ok: bit_set(d, 3),
            nvm_sts_ok: bit_set(d, 2),
            cmn_sts_ok: bit_set(d, 1),
            cmn_sts_rdy: bit_set(d, 0),
        }
    }

    /// Decodes a register value.
    pub fn from_bits(d: u32) -> (r: StatComFields)
        ensures
            r == Self::from_bits_spec(d),
    {
        StatComFields {
            mclk_ok: bit(d, 10),
            dual_clock_ok: bit(d, 9),
            dsp_ok: bit(d, 8),
            svm_ok: bit(d, 7),
            hv_cp_ok: bit(d, 6),
            supply_ok: bit(d, 5),
            temp_ok: bit(d, 4),
            nmode_ok: bit(d, 3),
            nvm_sts_ok: bit(d, 2),
            cmn_sts_ok: bit(d, 1),
            cmn_sts_rdy: bit(d, 0),
        }
    }

    /// Whether every bit of the common block is set.
    pub open spec fn all_ok(self) -> bool {
        self.mclk_ok && self.dual_clock_ok && self.dsp_ok && self.svm_ok && self.hv_cp_ok && self.supply_ok && self.temp_ok && self.nmode_ok && self.nvm_sts_ok && self.cmn_sts_ok && self.cmn_sts_rdy
    }

    /// Whether every bit of the common block is set.
    pub fn ok(&self) -> (r: bool)
        ensures
            r == self.all_ok(),
    {
        self.mclk_ok
            && self.dual_clock_ok
            && self.dsp_ok
            && self.svm_ok
            && self.hv_cp_ok
            && self.supply_ok
            && self.temp_ok
            && self.nmode_ok
            && self.nvm_sts_ok
            && self.cmn_sts_ok
            && self.cmn_sts_rdy
    }

}

/// Status of the gyroscope block shared by its axes.
#[derive(Debug, Clone, Copy, PartialEq, Eq, Structural)]
pub struct StatRateComFields {
    pub pri_agc_ok: bool,
    pub gyro_pri_ok: bool,
    pub pri_start_ok: bool,
    pub gyro_hv_ok: bool,
    pub gyro_sd_sts_ok: bool,
    pub gyro_bond_sts_ok: bool,
    pub gyro_sts_rdy_ok: bool,
}

impl StatRateComFields {
    /// The fields of a register value.
    pub open spec fn from_bits_spec(d: u32) -> StatRateComFields {
        StatRateComFields {
            pri_agc_ok: bit_set(d, 6),
            gyro_pri_ok: bit_set(d, 5),
            pri_start_ok: bit_set(d, 4),
            gyro_hv_ok: bit_set(d, 3),
            gyro_sd_sts_ok: bit_set(d, 2),
            gyro_bond_sts_ok: bit_set(d, 1),
            gyro_sts_rdy_ok: bit_set(d, 0),
        }
    }

    /// Decodes a register value.
    pub fn from_bits(d: u32) -> (r: StatRateComFields)
        ensures
            r == Self::from_bits_spec(d),
    {
        StatRateComFields {
            pri_agc_ok: bit(d, 6),
            gyro_pri_ok: bit(d, 5),
            pri_start_ok: bit(d, 4),
            gyro_hv_ok: bit(d, 3),
            gyro_sd_sts_ok: bit(d, 2),
            gyro_bond_sts_ok: bit(d, 1),
            gyro_sts_rdy_ok: bit(d, 0),
        }
    }

    /// Whether every bit of the shared gyroscope block is set.
    pub open spec fn all_ok(self) -> bool {
        self.pri_agc_ok && self.gyro_pri_ok && self.pri_start_ok && self.gyro_hv_ok && self.gyro_sd_sts_ok && self.gyro_bond_sts_ok && self.gyro_sts_rdy_ok
    }

    /// Whether every bit of the shared gyroscope block is set.
    pub fn ok(&self) -> (r: bool)
        ensures
            r == self.all_ok(),
    {
        self.pri_agc_ok
            && self.gyro_pri_ok
            && self.pri_start_ok
            && self.gyro_hv_ok
            && self.gyro_sd_sts_ok
            && self.gyro_bond_sts_ok
            && self.gyro_sts_rdy_ok
    }

}

/// Status of one gyroscope axis.
#[derive(Debug, Clone, Copy, PartialEq, Eq, Structural)]
pub struct StatRateFields {
    pub stc_dig_ok: bool,
    pub stc_ana_ok: bool,
    pub qc_ok: bool,
}

impl StatRateFields {
    /// The fields of a register value.
    pub open spec fn from_bits_spec(d: u32) -> StatRateFields {
        StatRateFields {
            stc_dig_ok: bit_set(d, 2),
            stc_ana_ok: bit_set(d, 1),
            qc_ok: bit_set(d, 0),
        }
    }

    /// Decodes a register value.
    pub fn from_bits(d: u32) -> (r: StatRateFields)
        ensures
            r == Self::from_bits_spec(d),
    {
        StatRateFields {
            stc_dig_ok: bit(d, 2),
            stc_ana_ok: bit(d, 1),
            qc_ok: bit(d, 0),
        }
    }

    /// Whether the self test and quadrature bits of the axis are set.
    pub open spec fn all_ok(self) -> bool {
        self.stc_dig_ok && self.stc_ana_ok && self.qc_ok
    }

    /// Whether the self test and quadrature bits of the axis are set.
    pub fn ok(&self) -> (r: bool)
        ensures
            r == self.all_ok(),
    {
        self.stc_dig_ok
            && self.stc_ana_ok
            && self.qc_ok
    }

}

/// Status of one accelerometer axis.
#[derive(Debug, Clone, Copy, PartialEq, Eq, Structural)]
pub struct StatAccFields {
    pub stc_dig_ok: bool,
    pub stc_tcap_ok: bool,
    pub stc_sdd_ok: bool,
    pub stc_n_ok: bool,
}

impl StatAccFields {
    /// The fields of a register value.
    pub open spec fn from_bits_spec(d: u32) -> StatAccFields {
        StatAccFields {
            stc_dig_ok: bit_set(d, 3),
            stc_tcap_ok: bit_set(d, 2),
            stc_sdd_ok: bit_set(d, 1),
            stc_n_ok: bit_set(d, 0),
        }
    }

    /// Decodes a register value.
    pub fn from_bits(d: u32) -> (r: StatAccFields)
        ensures
            r == Self::from_bits_spec(d),
    {
        StatAccFields {
            stc_dig_ok: bit(d, 3),
            stc_tcap_ok: bit(d, 2),
            stc_sdd_ok: bit(d, 1),
            stc_n_ok: bit(d, 0),
        }
    }

    /// Whether the self test bits of the axis are set.
    pub open spec fn all_ok(self) -> bool {
        self.stc_dig_ok && self.stc_tcap_ok && self.stc_sdd_ok && self.stc_n_ok
    }

    /// Whether the self test bits of the axis are set.
    pub fn ok(&self) -> (r: bool)
        ensures
            r == self.all_ok(),
    {
        self.stc_dig_ok
            && self.stc_tcap_ok
            && self.stc_sdd_ok
            && self.stc_n_ok
    }

}

/// The synchronisation status register, kept as its 16-bit value.
#[derive(Debug, Clone, Copy, PartialEq, Eq, Structural)]
pub struct StatSyncActiveFields {
    pub bits: u16,
}

impl StatSyncActiveFields {
    /// Keeps the low 16 bits of a register value.
    pub fn from_bits(d: u32) -> (r: StatSyncActiveFields)
        ensures
            r.bits == d % 0x1_0000,
    {
        StatSyncActiveFields { bits: (d % 0x1_0000) as u16 }
    }
}

/// The information register, kept as its 16-bit value.
#[derive(Debug, Clone, Copy, PartialEq, Eq, Structural)]
pub struct StatInfoFields {
    pub bits: u16,
}

impl StatInfoFields {
    /// Keeps the low 16 bits of a register value.
    pub fn from_bits(d: u32) -> (r: StatInfoFields)
        ensures
            r.bits == d % 0x1_0000,
    {
        StatInfoFields { bits: (d % 0x1_0000) as u16 }
    }
}

/// Full dump of all status registers.
#[derive(Debug, Clone, Copy, PartialEq, Eq, Structural)]
pub struct FullStatus {
    pub sum: StatSumFields,
    pub sum_sat: StatSumSatFields,
    pub com: StatComFields,
    pub rate_com: StatRateComFields,
    pub rate_x: StatRateFields,
    pub rate_y: StatRateFields,
    pub rate_z: StatRateFields,
    pub acc_x: StatAccFields,
    pub acc_y: StatAccFields,
    pub acc_z: StatAccFields,
    pub sync_active: StatSyncActiveFields,
    pub info: StatInfoFields,
}

impl FullStatus {
    /// Whether the sensor came up fine: the summary's init-ready bit is set,
    /// the common and shared gyroscope blocks are fine and every axis passed
    /// its self tests. Saturation, synchronisation and information bits do
    /// not count.
    pub open spec fn started_ok(self) -> bool {
        &&& self.sum.init_rdy
        &&& self.com.all_ok()
        &&& self.rate_com.all_ok()
        &&& self.rate_x.all_ok()
        &&& self.rate_y.all_ok()
        &&& self.rate_z.all_ok()
        &&& self.acc_x.all_ok()
        &&& self.acc_y.all_ok()
        &&& self.acc_z.all_ok()
    }

    /// Whether the sensor came up fine (see `started_ok`).
    pub fn init_ok(&self) -> (r: bool)
        ensures
            r == self.started_ok(),
    {
        // only the init ready bit of the summary counts here
        if !self.sum.init_rdy {
            return false;
        }
        if !self.com.ok() {
            return false;
        }
        if !self.rate_com.ok() {
            return false;
        }
        // only the self test bits of each axis count, not saturation
        if !self.rate_x.ok() {
            return false;
        }
        if !self.rate_y.ok() {
            return false;
        }
        if !self.rate_z.ok() {
            return false;
        }
        if !self.acc_x.ok() {
            return false;
        }
        if !self.acc_y.ok() {
            return false;
        }
        if !self.acc_z.ok() {
            return false;
        }
        true
    }
}

impl Default for FullStatus {
    /// The status with every register value zero.
    fn default() -> (s: Self)
        ensures
            s.sum == StatSumFields::from_bits_spec(0),
            s.sum_sat == StatSumSatFields::from_bits_spec(0),
            s.com == StatComFields::from_bits_spec(0),
            s.rate_com == StatRateComFields::from_bits_spec(0),
            s.rate_x == StatRateFields::from_bits_spec(0),
            s.rate_y == StatRateFields::from_bits_spec(0),
            s.rate_z == StatRateFields::from_bits_spec(0),
            s.acc_x == StatAccFields::from_bits_spec(0),
            s.acc_y == StatAccFields::from_bits_spec(0),
            s.acc_z == StatAccFields::from_bits_spec(0),
            s.sync_active.bits == 0,
            s.info.bits == 0,
    {
        FullStatus {
            sum: StatSumFields::from_bits(0),
            sum_sat: StatSumSatFields::from_bits(0),
            com: StatComFields::from_bits(0),
            rate_com: StatRateComFields::from_bits(0),
            rate_x: StatRateFields::from_bits(0),
            rate_y: StatRateFields::from_bits(0),
            rate_z: StatRateFields::from_bits(0),
            acc_x: StatAccFields::from_bits(0),
            acc_y: StatAccFields::from_bits(0),
            acc_z: StatAccFields::from_bits(0),
            sync_active: StatSyncActiveFields::from_bits(0),
            info: StatInfoFields::from_bits(0),
        }
    }
}

/// Flags of a register value as masks.
pub(crate) proof fn lemma_flag_masks(d: u32)
    ensures
        bit_set(d, 0) == (d & 0x1u32 != 0),
        bit_set(d, 1) == (d & 0x2u32 != 0),
        bit_set(d, 2) == (d & 0x4u32 != 0),
        bit_set(d, 3) == (d & 0x8u32 != 0),
        bit_set(d, 4) == (d & 0x10u32 != 0),
        bit_set(d, 5) == (d & 0x20u32 != 0),
        bit_set(d, 6) == (d & 0x40u32 != 0),
        bit_set(d, 7) == (d & 0x80u32 != 0),
        bit_set(d, 8) == (d & 0x100u32 != 0),
        bit_set(d, 9) == (d & 0x200u32 != 0),
        bit_set(d, 10) == (d & 0x400u32 != 0),
        bit_set(d, 11) == (d & 0x800u32 != 0),
        bit_set(d, 12) == (d & 0x1000u32 != 0),
        bit_set(d, 13) == (d & 0x2000u32 != 0),
        bit_set(d, 14) == (d & 0x4000u32 != 0),
        bit_set(d, 15) == (d & 0x8000u32 != 0),
        (d & 0x7u32 == 0x7u32) == (bit_set(d, 0) && bit_set(d, 1) && bit_set(d, 2)),
        (d & 0xFu32 == 0xFu32) == (bit_set(d, 0) && bit_set(d, 1) && bit_set(d, 2) && bit_set(d, 3)),
        (d & 0x7Fu32 == 0x7Fu32) == (bit_set(d, 0) && bit_set(d, 1) && bit_set(d, 2) && bit_set(d, 3) && bit_set(d, 4) && bit_set(d, 5) && bit_set(d, 6)),
        (d & 0x7FFu32 == 0x7FFu32) == (bit_set(d, 0) && bit_set(d, 1) && bit_set(d, 2) && bit_set(d, 3) && bit_set(d, 4) && bit_set(d, 5) && bit_set(d, 6) && bit_set(d, 7) && bit_set(d, 8) && bit_set(d, 9) && bit_set(d, 10)),
{
    assert(((d >> 0u32) & 1u32 == 1u32) == (d & 0x1u32 != 0)
        && ((d >> 1u32) & 1u32 == 1u32) == (d & 0x2u32 != 0)
        && ((d >> 2u32) & 1u32 == 1u32) == (d & 0x4u32 != 0)
        && ((d >> 3u32) & 1u32 == 1u32) == (d & 0x8u32 != 0)
        && ((d >> 4u32) & 1u32 == 1u32) == (d & 0x10u32 != 0)
        && ((d >> 5u32) & 1u32 == 1u32) == (d & 0x20u32 != 0)
        && ((d >> 6u32) & 1u32 == 1u32) == (d & 0x40u32 != 0)
        && ((d >> 7u32) & 1u32 == 1u32) == (d & 0x80u32 != 0)
        && ((d >> 8u32) & 1u32 == 1u32) == (d & 0x100u32 != 0)
        && ((d >> 9u32) & 1u32 == 1u32) == (d & 0x200u32 != 0)
        && ((d >> 10u32) & 1u32 == 1u32) == (d & 0x400u32 != 0)
        && ((d >> 11u32) & 1u32 == 1u32) == (d & 0x800u32 != 0)
        && ((d >> 12u32) & 1u32 == 1u32) == (d & 0x1000u32 != 0)
        && ((d >> 13u32) & 1u32 == 1u32) == (d & 0x2000u32 != 0)
        && ((d >> 14u32) & 1u32 == 1u32) == (d & 0x4000u32 != 0)
        && ((d >> 15u32) & 1u32 == 1u32) == (d & 0x8000u32 != 0)
        && (d & 0x7u32 == 0x7u32) == ((d >> 0u32) & 1u32 == 1u32 && (d >> 1u32) & 1u32 == 1u32 && (d >> 2u32) & 1u32 == 1u32)
        && (d & 0xFu32 == 0xFu32) == ((d >> 0u32) & 1u32 == 1u32 && (d >> 1u32) & 1u32 == 1u32 && (d >> 2u32) & 1u32 == 1u32 && (d >> 3u32) & 1u32 == 1u32)
        && (d & 0x7Fu32 == 0x7Fu32) == ((d >> 0u32) & 1u32 == 1u32 && (d >> 1u32) & 1u32 == 1u32 && (d >> 2u32) & 1u32 == 1u32 && (d >> 3u32) & 1u32 == 1u32 && (d >> 4u32) & 1u32 == 1u32 && (d >> 5u32) & 1u32 == 1u32 && (d >> 6u32) & 1u32 == 1u32)
        && (d & 0x7FFu32 == 0x7FFu32) == ((d >> 0u32) & 1u32 == 1u32 && (d >> 1u32) & 1u32 == 1u32 && (d >> 2u32) & 1u32 == 1u32 && (d >> 3u32) & 1u32 == 1u32 && (d >> 4u32) & 1u32 == 1u32 && (d >> 5u32) & 1u32 == 1u32 && (d >> 6u32) & 1u32 == 1u32 && (d >> 7u32) & 1u32 == 1u32 && (d >> 8u32) & 1u32 == 1u32 && (d >> 9u32) & 1u32 == 1u32 && (d >> 10u32) & 1u32 == 1u32)) by (bit_vector);
}

} // verus!
