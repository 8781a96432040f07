//! The setting enums of the sensor's control registers and the status
//! that each response frame carries: their names, and the register codes
//! by which they are written and read back.
use vstd::prelude::*;

verus! {

/// Compares two string slices by their characters.
/// Calls `<str as PartialEq>::eq` of std, which compares the contents.
#[verifier::external_body]
pub(crate) fn str_eq(a: &str, b: &str) -> (equal: bool)
    ensures
        equal == (a@ == b@),
{
    a == b
}

/// Low pass filter setting of one axis.
#[derive(Debug, Clone, Copy, PartialEq, Eq, Structural)]
pub enum Filter {
    Lpf0,
    Lpf1,
    Lpf2,
    Lpf3,
    Lpf4,
    Lpf5,
    Lpf7,
}

/// The name of each `Filter`, as `Debug` prints it.
pub open spec fn filter_name(v: Filter) -> Seq<char> {
    match v {
        Filter::Lpf0 => "Lpf0"@,
        Filter::Lpf1 => "Lpf1"@,
        Filter::Lpf2 => "Lpf2"@,
        Filter::Lpf3 => "Lpf3"@,
        Filter::Lpf4 => "Lpf4"@,
        Filter::Lpf5 => "Lpf5"@,
        Filter::Lpf7 => "Lpf7"@,
    }
}

/// The `Filter` named `name`, or the message that lists the names.
pub open spec fn filter_from_name(name: Seq<char>) -> Result<Filter, &'static str> {
    if name == "Lpf0"@ {
        Ok(Filter::Lpf0)
    } else if name == "Lpf1"@ {
        Ok(Filter::Lpf1)
    } else if name == "Lpf2"@ {
        Ok(Filter::Lpf2)
    } else if name == "Lpf3"@ {
        Ok(Filter::Lpf3)
    } else if name == "Lpf4"@ {
        Ok(Filter::Lpf4)
    } else if name == "Lpf5"@ {
        Ok(Filter::Lpf5)
    } else if name == "Lpf7"@ {
        Ok(Filter::Lpf7)
    } else {
        Err("Filter values are Lfp0/1/2/3/4/5/7")
    }
}

/// The register code of each `Filter`.
pub open spec fn filter_code(v: Filter) -> u8 {
    match v {
        Filter::Lpf0 => 0u8,
        Filter::Lpf1 => 1u8,
        Filter::Lpf2 => 2u8,
        Filter::Lpf3 => 3u8,
        Filter::Lpf4 => 4u8,
        Filter::Lpf5 => 5u8,
        Filter::Lpf7 => 7u8,
    }
}

/// The `Filter` that a register code stands for, if any.
pub open spec fn filter_from_code(code: u8) -> Option<Filter> {
    if code == 0 {
        Some(Filter::Lpf0)
    } else if code == 1 {
        Some(Filter::Lpf1)
    } else if code == 2 {
        Some(Filter::Lpf2)
    } else if code == 3 {
        Some(Filter::Lpf3)
    } else if code == 4 {
        Some(Filter::Lpf4)
    } else if code == 5 {
        Some(Filter::Lpf5)
    } else if code == 7 {
        Some(Filter::Lpf7)
    } else {
        None
    }
}

impl Filter {
    /// The name of the setting, as `Debug` prints it.
    pub fn name(&self) -> (s: &'static str)
        ensures
            s@ == filter_name(*self),
    {
        match self {
            Filter::Lpf0 => "Lpf0",
            Filter::Lpf1 => "Lpf1",
            Filter::Lpf2 => "Lpf2",
            Filter::Lpf3 => "Lpf3",
            Filter::Lpf4 => "Lpf4",
            Filter::Lpf5 => "Lpf5",
            Filter::Lpf7 => "Lpf7",
        }
    }

    /// The code of the setting in its register field.
    pub fn code(&self) -> (c: u8)
        ensures
            c == filter_code(*self),
    {
        match self {
            Filter::Lpf0 => 0,
            Filter::Lpf1 => 1,
            Filter::Lpf2 => 2,
            Filter::Lpf3 => 3,
            Filter::Lpf4 => 4,
            Filter::Lpf5 => 5,
            Filter::Lpf7 => 7,
        }
    }

    /// The setting that a register field holds, or `None` for a code that
    /// stands for no setting.
    pub fn from_code(code: u8) -> (r: Option<Filter>)
        ensures
            r == filter_from_code(code),
    {
        if code == 0 {
            Some(Filter::Lpf0)
        } else if code == 1 {
            Some(Filter::Lpf1)
        } else if code == 2 {
            Some(Filter::Lpf2)
        } else if code == 3 {
            Some(Filter::Lpf3)
        } else if code == 4 {
            Some(Filter::Lpf4)
        } else if code == 5 {
            Some(Filter::Lpf5)
        } else if code == 7 {
            Some(Filter::Lpf7)
        } else {
            None
        }
    }
}

impl Default for Filter {
    /// The setting after a reset of the sensor.
    fn default() -> (v: Self)
        ensures
            v == Filter::Lpf0,
    {
        Filter::Lpf0
    }
}

impl vstd::std_specs::convert::TryFromSpecImpl<&str> for Filter {
    open spec fn obeys_try_from_spec() -> bool {
        true
    }

    open spec fn try_from_spec(v: &str) -> Result<Self, Self::Error> {
        filter_from_name(v@)
    }
}

impl TryFrom<&str> for Filter {
    type Error = &'static str;

    fn try_from(value: &str) -> (r: Result<Self, Self::Error>)
        ensures
            r == filter_from_name(value@),
    {
        if str_eq(value, "Lpf0") {
            Ok(Filter::Lpf0)
        } else if str_eq(value, "Lpf1") {
            Ok(Filter::Lpf1)
        } else if str_eq(value, "Lpf2") {
            Ok(Filter::Lpf2)
        } else if str_eq(value, "Lpf3") {
            Ok(Filter::Lpf3)
        } else if str_eq(value, "Lpf4") {
            Ok(Filter::Lpf4)
        } else if str_eq(value, "Lpf5") {
            Ok(Filter::Lpf5)
        } else if str_eq(value, "Lpf7") {
            Ok(Filter::Lpf7)
        } else {
            Err("Filter values are Lfp0/1/2/3/4/5/7")
        }
    }
}

/// Dynamic range of the gyroscope, shared by its three axes.
#[derive(Debug, Clone, Copy, PartialEq, Eq, Structural)]
pub enum RateDynamicRange {
    Dyn1,
    Dyn2,
    Dyn3,
    Dyn4,
}

/// The name of each `RateDynamicRange`, as `Debug` prints it.
pub open spec fn rate_range_name(v: RateDynamicRange) -> Seq<char> {
    match v {
        RateDynamicRange::Dyn1 => "Dyn1"@,
        RateDynamicRange::Dyn2 => "Dyn2"@,
        RateDynamicRange::Dyn3 => "Dyn3"@,
        RateDynamicRange::Dyn4 => "Dyn4"@,
    }
}

/// The `RateDynamicRange` named `name`, or the message that lists the names.
pub open spec fn rate_range_from_name(name: Seq<char>) -> Result<RateDynamicRange, &'static str> {
    if name == "Dyn1"@ {
        Ok(RateDynamicRange::Dyn1)
    } else if name == "Dyn2"@ {
        Ok(RateDynamicRange::Dyn2)
    } else if name == "Dyn3"@ {
        Ok(RateDynamicRange::Dyn3)
    } else if name == "Dyn4"@ {
        Ok(RateDynamicRange::Dyn4)
    } else {
        Err("Range values are Dyn1/2/3/4")
    }
}

/// The register code of each `RateDynamicRange`.
pub open spec fn rate_range_code(v: RateDynamicRange) -> u8 {
    match v {
        RateDynamicRange::Dyn1 => 1u8,
        RateDynamicRange::Dyn2 => 2u8,
        RateDynamicRange::Dyn3 => 3u8,
        RateDynamicRange::Dyn4 => 4u8,
    }
}

/// The `RateDynamicRange` that a register code stands for, if any.
pub open spec fn rate_range_from_code(code: u8) -> Option<RateDynamicRange> {
    if code == 1 {
        Some(RateDynamicRange::Dyn1)
    } else if code == 2 {
        Some(RateDynamicRange::Dyn2)
    } else if code == 3 {
        Some(RateDynamicRange::Dyn3)
    } else if code == 4 {
        Some(RateDynamicRange::Dyn4)
    } else {
        None
    }
}

impl RateDynamicRange {
    /// The name of the setting, as `Debug` prints it.
    pub fn name(&self) -> (s: &'static str)
        ensures
            s@ == rate_range_name(*self),
    {
        match self {
            RateDynamicRange::Dyn1 => "Dyn1",
            RateDynamicRange::Dyn2 => "Dyn2",
            RateDynamicRange::Dyn3 => "Dyn3",
            RateDynamicRange::Dyn4 => "Dyn4",
        }
    }

    /// The code of the setting in its register field.
    pub fn code(&self) -> (c: u8)
        ensures
            c == rate_range_code(*self),
    {
        match self {
            RateDynamicRange::Dyn1 => 1,
            RateDynamicRange::Dyn2 => 2,
            RateDynamicRange::Dyn3 => 3,
            RateDynamicRange::Dyn4 => 4,
        }
    }

    /// The setting that a register field holds, or `None` for a code that
    /// stands for no setting.
    pub fn from_code(code: u8) -> (r: Option<RateDynamicRange>)
        ensures
            r == rate_range_from_code(code),
    {
        if code == 1 {
            Some(RateDynamicRange::Dyn1)
        } else if code == 2 {
            Some(RateDynamicRange::Dyn2)
        } else if code == 3 {
            Some(RateDynamicRange::Dyn3)
        } else if code == 4 {
            Some(RateDynamicRange::Dyn4)
        } else {
            None
        }
    }
}

impl Default for RateDynamicRange {
    /// The setting after a reset of the sensor.
    fn default() -> (v: Self)
        ensures
            v == RateDynamicRange::Dyn1,
    {
        RateDynamicRange::Dyn1
    }
}

impl vstd::std_specs::convert::TryFromSpecImpl<&str> for RateDynamicRange {
    open spec fn obeys_try_from_spec() -> bool {
        true
    }

    open spec fn try_from_spec(v: &str) -> Result<Self, Self::Error> {
        rate_range_from_name(v@)
    }
}

impl TryFrom<&str> for RateDynamicRange {
    type Error = &'static str;

    fn try_from(value: &str) -> (r: Result<Self, Self::Error>)
        ensures
            r == rate_range_from_name(value@),
    {
        if str_eq(value, "Dyn1") {
            Ok(RateDynamicRange::Dyn1)
        } else if str_eq(value, "Dyn2") {
            Ok(RateDynamicRange::Dyn2)
        } else if str_eq(value, "Dyn3") {
            Ok(RateDynamicRange::Dyn3)
        } else if str_eq(value, "Dyn4") {
            Ok(RateDynamicRange::Dyn4)
        } else {
            Err("Range values are Dyn1/2/3/4")
        }
    }
}

/// Dynamic range of the accelerometer, shared by its three axes.
#[derive(Debug, Clone, Copy, PartialEq, Eq, Structural)]
pub enum AccDynamicRange {
    Dyn1,
    Dyn2,
    Dyn3,
    Dyn4,
}

/// The name of each `AccDynamicRange`, as `Debug` prints it.
pub open spec fn acc_range_name(v: AccDynamicRange) -> Seq<char> {
    match v {
        AccDynamicRange::Dyn1 => "Dyn1"@,
        AccDynamicRange::Dyn2 => "Dyn2"@,
        AccDynamicRange::Dyn3 => "Dyn3"@,
        AccDynamicRange::Dyn4 => "Dyn4"@,
    }
}

/// The `AccDynamicRange` named `name`, or the message that lists the names.
pub open spec fn acc_range_from_name(name: Seq<char>) -> Result<AccDynamicRange, &'static str> {
    if name == "Dyn1"@ {
        Ok(AccDynamicRange::Dyn1)
    } else if name == "Dyn2"@ {
        Ok(AccDynamicRange::Dyn2)
    } else if name == "Dyn3"@ {
        Ok(AccDynamicRange::Dyn3)
    } else if name == "Dyn4"@ {
        Ok(AccDynamicRange::Dyn4)
    } else {
        Err("Range values are Dyn1/2/3/4")
    }
}

/// The register code of each `AccDynamicRange`.
pub open spec fn acc_range_code(v: AccDynamicRange) -> u8 {
    match v {
        AccDynamicRange::Dyn1 => 1u8,
        AccDynamicRange::Dyn2 => 2u8,
        AccDynamicRange::Dyn3 => 3u8,
        AccDynamicRange::Dyn4 => 4u8,
    }
}

/// The `AccDynamicRange` that a register code stands for, if any.
pub open spec fn acc_range_from_code(code: u8) -> Option<AccDynamicRange> {
    if code == 1 {
        Some(AccDynamicRange::Dyn1)
    } else if code == 2 {
        Some(AccDynamicRange::Dyn2)
    } else if code == 3 {
        Some(AccDynamicRange::Dyn3)
    } else if code == 4 {
        Some(AccDynamicRange::Dyn4)
    } else {
        None
    }
}

impl AccDynamicRange {
    /// The name of the setting, as `Debug` prints it.
    pub fn name(&self) -> (s: &'static str)
        ensures
            s@ == acc_range_name(*self),
    {
        match self {
            AccDynamicRange::Dyn1 => "Dyn1",
            AccDynamicRange::Dyn2 => "Dyn2",
            AccDynamicRange::Dyn3 => "Dyn3",
            AccDynamicRange::Dyn4 => "Dyn4",
        }
    }

    /// The code of the setting in its register field.
    pub fn code(&self) -> (c: u8)
        ensures
            c == acc_range_code(*self),
    {
        match self {
            AccDynamicRange::Dyn1 => 1,
            AccDynamicRange::Dyn2 => 2,
            AccDynamicRange::Dyn3 => 3,
            AccDynamicRange::Dyn4 => 4,
        }
    }

    /// The setting that a register field holds, or `None` for a code that
    /// stands for no setting.
    pub fn from_code(code: u8) -> (r: Option<AccDynamicRange>)
        ensures
            r == acc_range_from_code(code),
    {
        if code == 1 {
            Some(AccDynamicRange::Dyn1)
        } else if code == 2 {
            Some(AccDynamicRange::Dyn2)
        } else if code == 3 {
            Some(AccDynamicRange::Dyn3)
        } else if code == 4 {
            Some(AccDynamicRange::Dyn4)
        } else {
            None
        }
    }
}

impl Default for AccDynamicRange {
    /// The setting after a reset of the sensor.
    fn default() -> (v: Self)
        ensures
            v == AccDynamicRange::Dyn1,
    {
        AccDynamicRange::Dyn1
    }
}

impl vstd::std_specs::convert::TryFromSpecImpl<&str> for AccDynamicRange {
    open spec fn obeys_try_from_spec() -> bool {
        true
    }

    open spec fn try_from_spec(v: &str) -> Result<Self, Self::Error> {
        acc_range_from_name(v@)
    }
}

impl TryFrom<&str> for AccDynamicRange {
    type Error = &'static str;

    fn try_from(value: &str) -> (r: Result<Self, Self::Error>)
        ensures
            r == acc_range_from_name(value@),
    {
        if str_eq(value, "Dyn1") {
            Ok(AccDynamicRange::Dyn1)
        } else if str_eq(value, "Dyn2") {
            Ok(AccDynamicRange::Dyn2)
        } else if str_eq(value, "Dyn3") {
            Ok(AccDynamicRange::Dyn3)
        } else if str_eq(value, "Dyn4") {
            Ok(AccDynamicRange::Dyn4)
        } else {
            Err("Range values are Dyn1/2/3/4")
        }
    }
}

/// Decimation ratio of one axis in decimation mode.
#[derive(Debug, Clone, Copy, PartialEq, Eq, Structural)]
pub enum DecimationRatio {
    Dec1,
    Dec2,
    Dec3,
    Dec4,
    Dec5,
}

/// The name of each `DecimationRatio`, as `Debug` prints it.
pub open spec fn decimation_name(v: DecimationRatio) -> Seq<char> {
    match v {
        DecimationRatio::Dec1 => "Dec1"@,
        DecimationRatio::Dec2 => "Dec2"@,
        DecimationRatio::Dec3 => "Dec3"@,
        DecimationRatio::Dec4 => "Dec4"@,
        DecimationRatio::Dec5 => "Dec5"@,
    }
}

/// The `DecimationRatio` named `name`, or the message that lists the names.
pub open spec fn decimation_from_name(name: Seq<char>) -> Result<DecimationRatio, &'static str> {
    if name == "Dec1"@ {
        Ok(DecimationRatio::Dec1)
    } else if name == "Dec2"@ {
        Ok(DecimationRatio::Dec2)
    } else if name == "Dec3"@ {
        Ok(DecimationRatio::Dec3)
    } else if name == "Dec4"@ {
        Ok(DecimationRatio::Dec4)
    } else if name == "Dec5"@ {
        Ok(DecimationRatio::Dec5)
    } else {
        Err("Decimation ratio values are Dec1/2/3/4/5")
    }
}

/// The register code of each `DecimationRatio`.
pub open spec fn decimation_code(v: DecimationRatio) -> u8 {
    match v {
        DecimationRatio::Dec1 => 0u8,
        DecimationRatio::Dec2 => 1u8,
        DecimationRatio::Dec3 => 2u8,
        DecimationRatio::Dec4 => 3u8,
        DecimationRatio::Dec5 => 4u8,
    }
}

/// The `DecimationRatio` that a register code stands for, if any.
pub open spec fn decimation_from_code(code: u8) -> Option<DecimationRatio> {
    if code == 0 {
        Some(DecimationRatio::Dec1)
    } else if code == 1 {
        Some(DecimationRatio::Dec2)
    } else if code == 2 {
        Some(DecimationRatio::Dec3)
    } else if code == 3 {
        Some(DecimationRatio::Dec4)
    } else if code == 4 {
        Some(DecimationRatio::Dec5)
    } else {
        None
    }
}

impl DecimationRatio {
    /// The name of the setting, as `Debug` prints it.
    pub fn name(&self) -> (s: &'static str)
        ensures
            s@ == decimation_name(*self),
    {
        match self {
            DecimationRatio::Dec1 => "Dec1",
            DecimationRatio::Dec2 => "Dec2",
            DecimationRatio::Dec3 => "Dec3",
            DecimationRatio::Dec4 => "Dec4",
            DecimationRatio::Dec5 => "Dec5",
        }
    }

    /// The code of the setting in its register field.
    pub fn code(&self) -> (c: u8)
        ensures
            c == decimation_code(*self),
    {
        match self {
            DecimationRatio::Dec1 => 0,
            DecimationRatio::Dec2 => 1,
            DecimationRatio::Dec3 => 2,
            DecimationRatio::Dec4 => 3,
            DecimationRatio::Dec5 => 4,
        }
    }

    /// The setting that a register field holds, or `None` for a code that
    /// stands for no setting.
    pub fn from_code(code: u8) -> (r: Option<DecimationRatio>)
        ensures
            r == decimation_from_code(code),
    {
        if code == 0 {
            Some(DecimationRatio::Dec1)
        } else if code == 1 {
            Some(DecimationRatio::Dec2)
        } else if code == 2 {
            Some(DecimationRatio::Dec3)
        } else if code == 3 {
            Some(DecimationRatio::Dec4)
        } else if code == 4 {
            Some(DecimationRatio::Dec5)
        } else {
            None
        }
    }
}

impl Default for DecimationRatio {
    /// The setting after a reset of the sensor.
    fn default() -> (v: Self)
        ensures
            v == DecimationRatio::Dec1,
    {
        DecimationRatio::Dec1
    }
}

impl vstd::std_specs::convert::TryFromSpecImpl<&str> for DecimationRatio {
    open spec fn obeys_try_from_spec() -> bool {
        true
    }

    open spec fn try_from_spec(v: &str) -> Result<Self, Self::Error> {
        decimation_from_name(v@)
    }
}

impl TryFrom<&str> for DecimationRatio {
    type Error = &'static str;

    fn try_from(value: &str) -> (r: Result<Self, Self::Error>)
        ensures
            r == decimation_from_name(value@),
    {
        if str_eq(value, "Dec1") {
            Ok(DecimationRatio::Dec1)
        } else if str_eq(value, "Dec2") {
            Ok(DecimationRatio::Dec2)
        } else if str_eq(value, "Dec3") {
            Ok(DecimationRatio::Dec3)
        } else if str_eq(value, "Dec4") {
            Ok(DecimationRatio::Dec4)
        } else if str_eq(value, "Dec5") {
            Ok(DecimationRatio::Dec5)
        } else {
            Err("Decimation ratio values are Dec1/2/3/4/5")
        }
    }
}

/// Active level of the SYNC and DRY pins.
#[derive(Debug, Clone, Copy, PartialEq, Eq, Structural)]
pub enum Polarity {
    ActiveLow,
    ActiveHigh,
}

/// The name of each `Polarity`, as `Debug` prints it.
pub open spec fn polarity_name(v: Polarity) -> Seq<char> {
    match v {
        Polarity::ActiveLow => "ActiveLow"@,
        Polarity::ActiveHigh => "ActiveHigh"@,
    }
}

/// The `Polarity` named `name`, or the message that lists the names.
pub open spec fn polarity_from_name(name: Seq<char>) -> Result<Polarity, &'static str> {
    if name == "ActiveLow"@ {
        Ok(Polarity::ActiveLow)
    } else if name == "ActiveHigh"@ {
        Ok(Polarity::ActiveHigh)
    } else {
        Err("Polarity values are ActiveLow and ActiveHigh")
    }
}

/// The register code of each `Polarity`.
pub open spec fn polarity_code(v: Polarity) -> u8 {
    match v {
        Polarity::ActiveLow => 1u8,
        Polarity::ActiveHigh => 0u8,
    }
}

/// The `Polarity` that a register code stands for, if any.
pub open spec fn polarity_from_code(code: u8) -> Option<Polarity> {
    if code == 1 {
        Some(Polarity::ActiveLow)
    } else if code == 0 {
        Some(Polarity::ActiveHigh)
    } else {
        None
    }
}

impl Polarity {
    /// The name of the setting, as `Debug` prints it.
    pub fn name(&self) -> (s: &'static str)
        ensures
            s@ == polarity_name(*self),
    {
        match self {
            Polarity::ActiveLow => "ActiveLow",
            Polarity::ActiveHigh => "ActiveHigh",
        }
    }

    /// The code of the setting in its register field.
    pub fn code(&self) -> (c: u8)
        ensures
            c == polarity_code(*self),
    {
        match self {
            Polarity::ActiveLow => 1,
            Polarity::ActiveHigh => 0,
        }
    }

    /// The setting that a register field holds, or `None` for a code that
    /// stands for no setting.
    pub fn from_code(code: u8) -> (r: Option<Polarity>)
        ensures
            r == polarity_from_code(code),
    {
        if code == 1 {
            Some(Polarity::ActiveLow)
        } else if code == 0 {
            Some(Polarity::ActiveHigh)
        } else {
            None
        }
    }
}

impl Default for Polarity {
    /// The setting after a reset of the sensor.
    fn default() -> (v: Self)
        ensures
            v == Polarity::ActiveHigh,
    {
        Polarity::ActiveHigh
    }
}

impl vstd::std_specs::convert::TryFromSpecImpl<&str> for Polarity {
    open spec fn obeys_try_from_spec() -> bool {
        true
    }

    open spec fn try_from_spec(v: &str) -> Result<Self, Self::Error> {
        polarity_from_name(v@)
    }
}

impl TryFrom<&str> for Polarity {
    type Error = &'static str;

    fn try_from(value: &str) -> (r: Result<Self, Self::Error>)
        ensures
            r == polarity_from_name(value@),
    {
        if str_eq(value, "ActiveLow") {
            Ok(Polarity::ActiveLow)
        } else if str_eq(value, "ActiveHigh") {
            Ok(Polarity::ActiveHigh)
        } else {
            Err("Polarity values are ActiveLow and ActiveHigh")
        }
    }
}

/// Drive strength of the MISO and DRY outputs: the SPI clock that they support.
#[derive(Debug, Clone, Copy, PartialEq, Eq, Structural)]
pub enum HiSpd {
    Mhz10,
    Mhz25,
}

/// The name of each `HiSpd`, as `Debug` prints it.
pub open spec fn hi_speed_name(v: HiSpd) -> Seq<char> {
    match v {
        HiSpd::Mhz10 => "Mhz10"@,
        HiSpd::Mhz25 => "Mhz25"@,
    }
}

/// The `HiSpd` named `name`, or the message that lists the names.
pub open spec fn hi_speed_from_name(name: Seq<char>) -> Result<HiSpd, &'static str> {
    if name == "Mhz10"@ {
        Ok(HiSpd::Mhz10)
    } else if name == "Mhz25"@ {
        Ok(HiSpd::Mhz25)
    } else {
        Err("HiSpd values are Mhz10 and Mhz25")
    }
}

/// The register code of each `HiSpd`.
pub open spec fn hi_speed_code(v: HiSpd) -> u8 {
    match v {
        HiSpd::Mhz10 => 0u8,
        HiSpd::Mhz25 => 1u8,
    }
}

/// The `HiSpd` that a register code stands for, if any.
pub open spec fn hi_speed_from_code(code: u8) -> Option<HiSpd> {
    if code == 0 {
        Some(HiSpd::Mhz10)
    } else if code == 1 {
        Some(HiSpd::Mhz25)
    } else {
        None
    }
}

impl HiSpd {
    /// The name of the setting, as `Debug` prints it.
    pub fn name(&self) -> (s: &'static str)
        ensures
            s@ == hi_speed_name(*self),
    {
        match self {
            HiSpd::Mhz10 => "Mhz10",
            HiSpd::Mhz25 => "Mhz25",
        }
    }

    /// The code of the setting in its register field.
    pub fn code(&self) -> (c: u8)
        ensures
            c == hi_speed_code(*self),
    {
        match self {
            HiSpd::Mhz10 => 0,
            HiSpd::Mhz25 => 1,
        }
    }

    /// The setting that a register field holds, or `None` for a code that
    /// stands for no setting.
    pub fn from_code(code: u8) -> (r: Option<HiSpd>)
        ensures
            r == hi_speed_from_code(code),
    {
        if code == 0 {
            Some(HiSpd::Mhz10)
        } else if code == 1 {
            Some(HiSpd::Mhz25)
        } else {
            None
        }
    }
}

impl Default for HiSpd {
    /// The setting after a reset of the sensor.
    fn default() -> (v: Self)
        ensures
            v == HiSpd::Mhz10,
    {
        HiSpd::Mhz10
    }
}

impl vstd::std_specs::convert::TryFromSpecImpl<&str> for HiSpd {
    open spec fn obeys_try_from_spec() -> bool {
        true
    }

    open spec fn try_from_spec(v: &str) -> Result<Self, Self::Error> {
        hi_speed_from_name(v@)
    }
}

impl TryFrom<&str> for HiSpd {
    type Error = &'static str;

    fn try_from(value: &str) -> (r: Result<Self, Self::Error>)
        ensures
            r == hi_speed_from_name(value@),
    {
        if str_eq(value, "Mhz10") {
            Ok(HiSpd::Mhz10)
        } else if str_eq(value, "Mhz25") {
            Ok(HiSpd::Mhz25)
        } else {
            Err("HiSpd values are Mhz10 and Mhz25")
        }
    }
}

/// Supply voltage of the SPI interface logic.
#[derive(Debug, Clone, Copy, PartialEq, Eq, Structural)]
pub enum SpiSupply {
    V18,
    V33,
}

/// The name of each `SpiSupply`, as `Debug` prints it.
pub open spec fn spi_supply_name(v: SpiSupply) -> Seq<char> {
    match v {
        SpiSupply::V18 => "V18"@,
        SpiSupply::V33 => "V33"@,
    }
}

/// The `SpiSupply` named `name`, or the message that lists the names.
pub open spec fn spi_supply_from_name(name: Seq<char>) -> Result<SpiSupply, &'static str> {
    if name == "V18"@ {
        Ok(SpiSupply::V18)
    } else if name == "V33"@ {
        Ok(SpiSupply::V33)
    } else {
        Err("SpiSupply values are V18 and V33")
    }
}

/// The register code of each `SpiSupply`.
pub open spec fn spi_supply_code(v: SpiSupply) -> u8 {
    match v {
        SpiSupply::V18 => 1u8,
        SpiSupply::V33 => 0u8,
    }
}

/// The `SpiSupply` that a register code stands for, if any.
pub open spec fn spi_supply_from_code(code: u8) -> Option<SpiSupply> {
    if code == 1 {
        Some(SpiSupply::V18)
    } else if code == 0 {
        Some(SpiSupply::V33)
    } else {
        None
    }
}

impl SpiSupply {
    /// The name of the setting, as `Debug` prints it.
    pub fn name(&self) -> (s: &'static str)
        ensures
            s@ == spi_supply_name(*self),
    {
        match self {
            SpiSupply::V18 => "V18",
            SpiSupply::V33 => "V33",
        }
    }

    /// The code of the setting in its register field.
    pub fn code(&self) -> (c: u8)
        ensures
            c == spi_supply_code(*self),
    {
        match self {
            SpiSupply::V18 => 1,
            SpiSupply::V33 => 0,
        }
    }

    /// The setting that a register field holds, or `None` for a code that
    /// stands for no setting.
    pub fn from_code(code: u8) -> (r: Option<SpiSupply>)
        ensures
            r == spi_supply_from_code(code),
    {
        if code == 1 {
            Some(SpiSupply::V18)
        } else if code == 0 {
            Some(SpiSupply::V33)
        } else {
            None
        }
    }
}

impl Default for SpiSupply {
    /// The setting after a reset of the sensor.
    fn default() -> (v: Self)
        ensures
            v == SpiSupply::V33,
    {
        SpiSupply::V33
    }
}

impl vstd::std_specs::convert::TryFromSpecImpl<&str> for SpiSupply {
    open spec fn obeys_try_from_spec() -> bool {
        true
    }

    open spec fn try_from_spec(v: &str) -> Result<Self, Self::Error> {
        spi_supply_from_name(v@)
    }
}

impl TryFrom<&str> for SpiSupply {
    type Error = &'static str;

    fn try_from(value: &str) -> (r: Result<Self, Self::Error>)
        ensures
            r == spi_supply_from_name(value@),
    {
        if str_eq(value, "V18") {
            Ok(SpiSupply::V18)
        } else if str_eq(value, "V33") {
            Ok(SpiSupply::V33)
        } else {
            Err("SpiSupply values are V18 and V33")
        }
    }
}

/// Status of the sensor as reported in every response frame.
#[derive(Debug, Clone, Copy, PartialEq, Eq, Structural)]
pub enum SensorStatus {
    Initialization,
    Normal,
    Saturation,
    SensorError,
}

/// The status that a two-bit status field stands for.
pub open spec fn sensor_status_from_code(code: u8) -> SensorStatus {
    if code % 4 == 0 {
        SensorStatus::Initialization
    } else if code % 4 == 1 {
        SensorStatus::Normal
    } else if code % 4 == 2 {
        SensorStatus::Saturation
    } else {
        SensorStatus::SensorError
    }
}

impl SensorStatus {
    /// The status that the two low bits of `code` stand for.
    pub fn from_code(code: u8) -> (s: SensorStatus)
        ensures
            s == sensor_status_from_code(code),
    {
        let c = code % 4;
        if c == 0 {
            SensorStatus::Initialization
        } else if c == 1 {
            SensorStatus::Normal
        } else if c == 2 {
            SensorStatus::Saturation
        } else {
            SensorStatus::SensorError
        }
    }
}

/// Every `Filter` is parsed back from its name.
pub proof fn filter_name_parses_back(v: Filter)
    ensures
        filter_from_name(filter_name(v)) == Ok::<Filter, &'static str>(v),
{
    reveal_strlit("Lpf0");
    reveal_strlit("Lpf1");
    reveal_strlit("Lpf2");
    reveal_strlit("Lpf3");
    reveal_strlit("Lpf4");
    reveal_strlit("Lpf5");
    reveal_strlit("Lpf7");
    match v {
        Filter::Lpf0 => {},
        Filter::Lpf1 => {
            assert("Lpf0"@[3] != "Lpf1"@[3]);
        },
        Filter::Lpf2 => {
            assert("Lpf0"@[3] != "Lpf2"@[3]);
            assert("Lpf1"@[3] != "Lpf2"@[3]);
        },
        Filter::Lpf3 => {
            assert("Lpf0"@[3] != "Lpf3"@[3]);
            assert("Lpf1"@[3] != "Lpf3"@[3]);
            assert("Lpf2"@[3] != "Lpf3"@[3]);
        },
        Filter::Lpf4 => {
            assert("Lpf0"@[3] != "Lpf4"@[3]);
            assert("Lpf1"@[3] != "Lpf4"@[3]);
            assert("Lpf2"@[3] != "Lpf4"@[3]);
            assert("Lpf3"@[3] != "Lpf4"@[3]);
        },
        Filter::Lpf5 => {
            assert("Lpf0"@[3] != "Lpf5"@[3]);
            assert("Lpf1"@[3] != "Lpf5"@[3]);
            assert("Lpf2"@[3] != "Lpf5"@[3]);
            assert("Lpf3"@[3] != "Lpf5"@[3]);
            assert("Lpf4"@[3] != "Lpf5"@[3]);
        },
        Filter::Lpf7 => {
            assert("Lpf0"@[3] != "Lpf7"@[3]);
            assert("Lpf1"@[3] != "Lpf7"@[3]);
            assert("Lpf2"@[3] != "Lpf7"@[3]);
            assert("Lpf3"@[3] != "Lpf7"@[3]);
            assert("Lpf4"@[3] != "Lpf7"@[3]);
            assert("Lpf5"@[3] != "Lpf7"@[3]);
        },
    }
}

/// Every `Filter` is read back from its register code, and a code that is read
/// as a setting is the code of that setting.
pub proof fn filter_code_reads_back(v: Filter, code: u8)
    ensures
        filter_from_code(filter_code(v)) == Some(v),
        filter_code(v) < 8,
        filter_from_code(code) == Some(v) ==> filter_code(v) == code,
{
}

/// Every `RateDynamicRange` is parsed back from its name.
pub proof fn rate_range_name_parses_back(v: RateDynamicRange)
    ensures
        rate_range_from_name(rate_range_name(v)) == Ok::<RateDynamicRange, &'static str>(v),
{
    reveal_strlit("Dyn1");
    reveal_strlit("Dyn2");
    reveal_strlit("Dyn3");
    reveal_strlit("Dyn4");
    match v {
        RateDynamicRange::Dyn1 => {},
        RateDynamicRange::Dyn2 => {
            assert("Dyn1"@[3] != "Dyn2"@[3]);
        },
        RateDynamicRange::Dyn3 => {
            assert("Dyn1"@[3] != "Dyn3"@[3]);
            assert("Dyn2"@[3] != "Dyn3"@[3]);
        },
        RateDynamicRange::Dyn4 => {
            assert("Dyn1"@[3] != "Dyn4"@[3]);
            assert("Dyn2"@[3] != "Dyn4"@[3]);
            assert("Dyn3"@[3] != "Dyn4"@[3]);
        },
    }
}

/// Every `RateDynamicRange` is read back from its register code, and a code that is read
/// as a setting is the code of that setting.
pub proof fn rate_range_code_reads_back(v: RateDynamicRange, code: u8)
    ensures
        rate_range_from_code(rate_range_code(v)) == Some(v),
        rate_range_code(v) < 8,
        rate_range_from_code(code) == Some(v) ==> rate_range_code(v) == code,
{
}

/// Every `AccDynamicRange` is parsed back from its name.
pub proof fn acc_range_name_parses_back(v: AccDynamicRange)
    ensures
        acc_range_from_name(acc_range_name(v)) == Ok::<AccDynamicRange, &'static str>(v),
{
    reveal_strlit("Dyn1");
    reveal_strlit("Dyn2");
    reveal_strlit("Dyn3");
    reveal_strlit("Dyn4");
    match v {
        AccDynamicRange::Dyn1 => {},
        AccDynamicRange::Dyn2 => {
            assert("Dyn1"@[3] != "Dyn2"@[3]);
        },
        AccDynamicRange::Dyn3 => {
            assert("Dyn1"@[3] != "Dyn3"@[3]);
            assert("Dyn2"@[3] != "Dyn3"@[3]);
        },
        AccDynamicRange::Dyn4 => {
            assert("Dyn1"@[3] != "Dyn4"@[3]);
            assert("Dyn2"@[3] != "Dyn4"@[3]);
            assert("Dyn3"@[3] != "Dyn4"@[3]);
        },
    }
}

/// Every `AccDynamicRange` is read back from its register code, and a code that is read
/// as a setting is the code of that setting.
pub proof fn acc_range_code_reads_back(v: AccDynamicRange, code: u8)
    ensures
        acc_range_from_code(acc_range_code(v)) == Some(v),
        acc_range_code(v) < 8,
        acc_range_from_code(code) == Some(v) ==> acc_range_code(v) == code,
{
}

/// Every `DecimationRatio` is parsed back from its name.
pub proof fn decimation_name_parses_back(v: DecimationRatio)
    ensures
        decimation_from_name(decimation_name(v)) == Ok::<DecimationRatio, &'static str>(v),
{
    reveal_strlit("Dec1");
    reveal_strlit("Dec2");
    reveal_strlit("Dec3");
    reveal_strlit("Dec4");
    reveal_strlit("Dec5");
    match v {
        DecimationRatio::Dec1 => {},
        DecimationRatio::Dec2 => {
            assert("Dec1"@[3] != "Dec2"@[3]);
        },
        DecimationRatio::Dec3 => {
            assert("Dec1"@[3] != "Dec3"@[3]);
            assert("Dec2"@[3] != "Dec3"@[3]);
        },
        DecimationRatio::Dec4 => {
            assert("Dec1"@[3] != "Dec4"@[3]);
            assert("Dec2"@[3] != "Dec4"@[3]);
            assert("Dec3"@[3] != "Dec4"@[3]);
        },
        DecimationRatio::Dec5 => {
            assert("Dec1"@[3] != "Dec5"@[3]);
            assert("Dec2"@[3] != "Dec5"@[3]);
            assert("Dec3"@[3] != "Dec5"@[3]);
            assert("Dec4"@[3] != "Dec5"@[3]);
        },
    }
}

/// Every `DecimationRatio` is read back from its register code, and a code that is read
/// as a setting is the code of that setting.
pub proof fn decimation_code_reads_back(v: DecimationRatio, code: u8)
    ensures
        decimation_from_code(decimation_code(v)) == Some(v),
        decimation_code(v) < 8,
        decimation_from_code(code) == Some(v) ==> decimation_code(v) == code,
{
}

/// Every `Polarity` is parsed back from its name.
pub proof fn polarity_name_parses_back(v: Polarity)
    ensures
        polarity_from_name(polarity_name(v)) == Ok::<Polarity, &'static str>(v),
{
    reveal_strlit("ActiveHigh");
    reveal_strlit("ActiveLow");
    match v {
        Polarity::ActiveLow => {},
        Polarity::ActiveHigh => {
            assert("ActiveLow"@.len() != "ActiveHigh"@.len());
        },
    }
}

/// Every `Polarity` is read back from its register code, and a code that is read
/// as a setting is the code of that setting.
pub proof fn polarity_code_reads_back(v: Polarity, code: u8)
    ensures
        polarity_from_code(polarity_code(v)) == Some(v),
        polarity_code(v) < 8,
        polarity_from_code(code) == Some(v) ==> polarity_code(v) == code,
{
}

/// Every `HiSpd` is parsed back from its name.
pub proof fn hi_speed_name_parses_back(v: HiSpd)
    ensures
        hi_speed_from_name(hi_speed_name(v)) == Ok::<HiSpd, &'static str>(v),
{
    reveal_strlit("Mhz10");
    reveal_strlit("Mhz25");
    match v {
        HiSpd::Mhz10 => {},
        HiSpd::Mhz25 => {
            assert("Mhz10"@[3] != "Mhz25"@[3]);
        },
    }
}

/// Every `HiSpd` is read back from its register code, and a code that is read
/// as a setting is the code of that setting.
pub proof fn hi_speed_code_reads_back(v: HiSpd, code: u8)
    ensures
        hi_speed_from_code(hi_speed_code(v)) == Some(v),
        hi_speed_code(v) < 8,
        hi_speed_from_code(code) == Some(v) ==> hi_speed_code(v) == code,
{
}

/// Every `SpiSupply` is parsed back from its name.
pub proof fn spi_supply_name_parses_back(v: SpiSupply)
    ensures
        spi_supply_from_name(spi_supply_name(v)) == Ok::<SpiSupply, &'static str>(v),
{
    reveal_strlit("V18");
    reveal_strlit("V33");
    match v {
        SpiSupply::V18 => {},
        SpiSupply::V33 => {
            assert("V18"@[1] != "V33"@[1]);
        },
    }
}

/// Every `SpiSupply` is read back from its register code, and a code that is read
/// as a setting is the code of that setting.
pub proof fn spi_supply_code_reads_back(v: SpiSupply, code: u8)
    ensures
        spi_supply_from_code(spi_supply_code(v)) == Some(v),
        spi_supply_code(v) < 8,
        spi_supply_from_code(code) == Some(v) ==> spi_supply_code(v) == code,
{
}
/// Each `Filter` is named, and parsed from, the name of its variant.
pub proof fn filter_names_are_variant_names()
    ensures
        filter_name(Filter::Lpf0) == "Lpf0"@,
        filter_from_name("Lpf0"@) == Ok::<Filter, &'static str>(Filter::Lpf0),
        filter_name(Filter::Lpf1) == "Lpf1"@,
        filter_from_name("Lpf1"@) == Ok::<Filter, &'static str>(Filter::Lpf1),
        filter_name(Filter::Lpf2) == "Lpf2"@,
        filter_from_name("Lpf2"@) == Ok::<Filter, &'static str>(Filter::Lpf2),
        filter_name(Filter::Lpf3) == "Lpf3"@,
        filter_from_name("Lpf3"@) == Ok::<Filter, &'static str>(Filter::Lpf3),
        filter_name(Filter::Lpf4) == "Lpf4"@,
        filter_from_name("Lpf4"@) == Ok::<Filter, &'static str>(Filter::Lpf4),
        filter_name(Filter::Lpf5) == "Lpf5"@,
        filter_from_name("Lpf5"@) == Ok::<Filter, &'static str>(Filter::Lpf5),
        filter_name(Filter::Lpf7) == "Lpf7"@,
        filter_from_name("Lpf7"@) == Ok::<Filter, &'static str>(Filter::Lpf7),
{
    filter_name_parses_back(Filter::Lpf0);
    filter_name_parses_back(Filter::Lpf1);
    filter_name_parses_back(Filter::Lpf2);
    filter_name_parses_back(Filter::Lpf3);
    filter_name_parses_back(Filter::Lpf4);
    filter_name_parses_back(Filter::Lpf5);
    filter_name_parses_back(Filter::Lpf7);
}

/// Each `RateDynamicRange` is named, and parsed from, the name of its variant.
pub proof fn rate_range_names_are_variant_names()
    ensures
        rate_range_name(RateDynamicRange::Dyn1) == "Dyn1"@,
        rate_range_from_name("Dyn1"@) == Ok::<RateDynamicRange, &'static str>(RateDynamicRange::Dyn1),
        rate_range_name(RateDynamicRange::Dyn2) == "Dyn2"@,
        rate_range_from_name("Dyn2"@) == Ok::<RateDynamicRange, &'static str>(RateDynamicRange::Dyn2),
        rate_range_name(RateDynamicRange::Dyn3) == "Dyn3"@,
        rate_range_from_name("Dyn3"@) == Ok::<RateDynamicRange, &'static str>(RateDynamicRange::Dyn3),
        rate_range_name(RateDynamicRange::Dyn4) == "Dyn4"@,
        rate_range_from_name("Dyn4"@) == Ok::<RateDynamicRange, &'static str>(RateDynamicRange::Dyn4),
{
    rate_range_name_parses_back(RateDynamicRange::Dyn1);
    rate_range_name_parses_back(RateDynamicRange::Dyn2);
    rate_range_name_parses_back(RateDynamicRange::Dyn3);
    rate_range_name_parses_back(RateDynamicRange::Dyn4);
}

/// Each `AccDynamicRange` is named, and parsed from, the name of its variant.
pub proof fn acc_range_names_are_variant_names()
    ensures
        acc_range_name(AccDynamicRange::Dyn1) == "Dyn1"@,
        acc_range_from_name("Dyn1"@) == Ok::<AccDynamicRange, &'static str>(AccDynamicRange::Dyn1),
        acc_range_name(AccDynamicRange::Dyn2) == "Dyn2"@,
        acc_range_from_name("Dyn2"@) == Ok::<AccDynamicRange, &'static str>(AccDynamicRange::Dyn2),
        acc_range_name(AccDynamicRange::Dyn3) == "Dyn3"@,
        acc_range_from_name("Dyn3"@) == Ok::<AccDynamicRange, &'static str>(AccDynamicRange::Dyn3),
        acc_range_name(AccDynamicRange::Dyn4) == "Dyn4"@,
        acc_range_from_name("Dyn4"@) == Ok::<AccDynamicRange, &'static str>(AccDynamicRange::Dyn4),
{
    acc_range_name_parses_back(AccDynamicRange::Dyn1);
    acc_range_name_parses_back(AccDynamicRange::Dyn2);
    acc_range_name_parses_back(AccDynamicRange::Dyn3);
    acc_range_name_parses_back(AccDynamicRange::Dyn4);
}

/// Each `DecimationRatio` is named, and parsed from, the name of its variant.
pub proof fn decimation_names_are_variant_names()
    ensures
        decimation_name(DecimationRatio::Dec1) == "Dec1"@,
        decimation_from_name("Dec1"@) == Ok::<DecimationRatio, &'static str>(DecimationRatio::Dec1),
        decimation_name(DecimationRatio::Dec2) == "Dec2"@,
        decimation_from_name("Dec2"@) == Ok::<DecimationRatio, &'static str>(DecimationRatio::Dec2),
        decimation_name(DecimationRatio::Dec3) == "Dec3"@,
        decimation_from_name("Dec3"@) == Ok::<DecimationRatio, &'static str>(DecimationRatio::Dec3),
        decimation_name(DecimationRatio::Dec4) == "Dec4"@,
        decimation_from_name("Dec4"@) == Ok::<DecimationRatio, &'static str>(DecimationRatio::Dec4),
        decimation_name(DecimationRatio::Dec5) == "Dec5"@,
        decimation_from_name("Dec5"@) == Ok::<DecimationRatio, &'static str>(DecimationRatio::Dec5),
{
    decimation_name_parses_back(DecimationRatio::Dec1);
    decimation_name_parses_back(DecimationRatio::Dec2);
    decimation_name_parses_back(DecimationRatio::Dec3);
    decimation_name_parses_back(DecimationRatio::Dec4);
    decimation_name_parses_back(DecimationRatio::Dec5);
}

/// Each `Polarity` is named, and parsed from, the name of its variant.
pub proof fn polarity_names_are_variant_names()
    ensures
        polarity_name(Polarity::ActiveLow) == "ActiveLow"@,
        polarity_from_name("ActiveLow"@) == Ok::<Polarity, &'static str>(Polarity::ActiveLow),
        polarity_name(Polarity::ActiveHigh) == "ActiveHigh"@,
        polarity_from_name("ActiveHigh"@) == Ok::<Polarity, &'static str>(Polarity::ActiveHigh),
{
    polarity_name_parses_back(Polarity::ActiveLow);
    polarity_name_parses_back(Polarity::ActiveHigh);
}

/// Each `HiSpd` is named, and parsed from, the name of its variant.
pub proof fn hi_speed_names_are_variant_names()
    ensures
        hi_speed_name(HiSpd::Mhz10) == "Mhz10"@,
        hi_speed_from_name("Mhz10"@) == Ok::<HiSpd, &'static str>(HiSpd::Mhz10),
        hi_speed_name(HiSpd::Mhz25) == "Mhz25"@,
        hi_speed_from_name("Mhz25"@) == Ok::<HiSpd, &'static str>(HiSpd::Mhz25),
{
    hi_speed_name_parses_back(HiSpd::Mhz10);
    hi_speed_name_parses_back(HiSpd::Mhz25);
}

/// Each `SpiSupply` is named, and parsed from, the name of its variant.
pub proof fn spi_supply_names_are_variant_names()
    ensures
        spi_supply_name(SpiSupply::V18) == "V18"@,
        spi_supply_from_name("V18"@) == Ok::<SpiSupply, &'static str>(SpiSupply::V18),
        spi_supply_name(SpiSupply::V33) == "V33"@,
        spi_supply_from_name("V33"@) == Ok::<SpiSupply, &'static str>(SpiSupply::V33),
{
    spi_supply_name_parses_back(SpiSupply::V18);
    spi_supply_name_parses_back(SpiSupply::V33);
}

} // verus!
