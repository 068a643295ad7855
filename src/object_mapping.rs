//! Reading session parameters out of host objects, and building the host
//! objects that report results.
use vstd::prelude::*;

use crate::context::{answer_of, HostValue, JniContext, JniError, BYTE_ARRAY_SIG, INT_SIG};
use crate::notification::{FieldArg, NewObject, HOST_INT_MAX};

verus! {

/// Failures of mapping between host objects and native values.
#[derive(Clone, Copy, Debug, PartialEq, Eq, Structural)]
pub enum MappingError {
    /// Reading the host object failed.
    Jni(JniError),
    /// The host value is out of range or of the wrong size.
    Parse,
}

/// What reading an `int` getter gives, before any range check.
pub open spec fn int_answer(ctx: JniContext, method: Seq<char>) -> Result<i32, MappingError> {
    match answer_of(ctx.answers@, method, INT_SIG@) {
        None => Err(MappingError::Jni(JniError::MethodNotFound)),
        Some(HostValue::Int(v)) => Ok(v),
        Some(_) => Err(MappingError::Jni(JniError::WrongJValueType)),
    }
}

/// What reading an `int` getter into an unsigned field with largest value
/// `max` gives.
pub open spec fn unsigned_field(ctx: JniContext, method: Seq<char>, max: int) -> Result<int, MappingError> {
    match int_answer(ctx, method) {
        Err(e) => Err(e),
        Ok(v) => if 0 <= v <= max {
            Ok(v as int)
        } else {
            Err(MappingError::Parse)
        },
    }
}

/// What reading a `byte[]` getter of exactly `n` bytes gives.
pub open spec fn fixed_bytes(ctx: JniContext, method: Seq<char>, n: int) -> Result<Seq<u8>, MappingError> {
    match answer_of(ctx.answers@, method, BYTE_ARRAY_SIG@) {
        None => Err(MappingError::Jni(JniError::MethodNotFound)),
        Some(HostValue::Bytes(v)) => if v@.len() == n {
            Ok(v@)
        } else {
            Err(MappingError::Parse)
        },
        Some(HostValue::Null) => Err(MappingError::Jni(JniError::NullPtr)),
        Some(_) => Err(MappingError::Jni(JniError::WrongJValueType)),
    }
}

fn read_int(ctx: &JniContext, method: &str) -> (r: Result<i32, MappingError>)
    ensures
        r == int_answer(*ctx, method@),
{
    match ctx.int_getter(method) {
        Ok(v) => Ok(v),
        Err(e) => Err(MappingError::Jni(e)),
    }
}

fn u8_field(ctx: &JniContext, method: &str) -> (r: Result<u8, MappingError>)
    ensures
        match unsigned_field(*ctx, method@, 0xff) {
            Ok(v) => r == Ok::<u8, MappingError>(v as u8),
            Err(e) => r == Err::<u8, MappingError>(e),
        },
{
    let v = read_int(ctx, method)?;
    if 0 <= v && v <= 0xff {
        Ok(v as u8)
    } else {
        Err(MappingError::Parse)
    }
}

fn u16_field(ctx: &JniContext, method: &str) -> (r: Result<u16, MappingError>)
    ensures
        match unsigned_field(*ctx, method@, 0xffff) {
            Ok(v) => r == Ok::<u16, MappingError>(v as u16),
            Err(e) => r == Err::<u16, MappingError>(e),
        },
{
    let v = read_int(ctx, method)?;
    if 0 <= v && v <= 0xffff {
        Ok(v as u16)
    } else {
        Err(MappingError::Parse)
    }
}

fn u32_field(ctx: &JniContext, method: &str) -> (r: Result<u32, MappingError>)
    ensures
        match unsigned_field(*ctx, method@, 0x7fff_ffff) {
            Ok(v) => r == Ok::<u32, MappingError>(v as u32),
            Err(e) => r == Err::<u32, MappingError>(e),
        },
{
    let v = read_int(ctx, method)?;
    if 0 <= v {
        Ok(v as u32)
    } else {
        Err(MappingError::Parse)
    }
}

fn two_bytes(ctx: &JniContext, method: &str) -> (r: Result<[u8; 2], MappingError>)
    ensures
        match fixed_bytes(*ctx, method@, 2) {
            Ok(b) => r matches Ok(a) && a@ == b,
            Err(e) => r == Err::<[u8; 2], MappingError>(e),
        },
{
    let bytes = match ctx.byte_arr_getter(method) {
        Ok(b) => b,
        Err(e) => {
            return Err(MappingError::Jni(e));
        },
    };
    if bytes.len() != 2 {
        return Err(MappingError::Parse);
    }
    let a = [bytes[0], bytes[1]];
    assert(a@ =~= bytes@);
    Ok(a)
}

fn six_bytes(ctx: &JniContext, method: &str) -> (r: Result<[u8; 6], MappingError>)
    ensures
        match fixed_bytes(*ctx, method@, 6) {
            Ok(b) => r matches Ok(a) && a@ == b,
            Err(e) => r == Err::<[u8; 6], MappingError>(e),
        },
{
    let bytes = match ctx.byte_arr_getter(method) {
        Ok(b) => b,
        Err(e) => {
            return Err(MappingError::Jni(e));
        },
    };
    if bytes.len() != 6 {
        return Err(MappingError::Parse);
    }
    let a = [bytes[0], bytes[1], bytes[2], bytes[3], bytes[4], bytes[5]];
    assert(a@ =~= bytes@);
    Ok(a)
}

/// Parameters of a FiRa session, as a host object.
pub struct FiraOpenSessionParamsJni {
    pub jni_context: JniContext,
}

impl FiraOpenSessionParamsJni {
    pub fn new(jni_context: JniContext) -> (r: Self)
        ensures
            r.jni_context == jni_context,
    {
        FiraOpenSessionParamsJni { jni_context }
    }

    /// The two-byte vendor id.
    pub fn vendor_id(&self) -> (r: Result<[u8; 2], MappingError>)
        ensures
            match fixed_bytes(self.jni_context, "getVendorId"@, 2) {
                Ok(b) => r matches Ok(a) && a@ == b,
                Err(e) => r == Err::<[u8; 2], MappingError>(e),
            },
    {
        two_bytes(&self.jni_context, "getVendorId")
    }

    /// The six-byte static STS initialization vector.
    pub fn static_sts_iv(&self) -> (r: Result<[u8; 6], MappingError>)
        ensures
            match fixed_bytes(self.jni_context, "getStaticStsIV"@, 6) {
                Ok(b) => r matches Ok(a) && a@ == b,
                Err(e) => r == Err::<[u8; 6], MappingError>(e),
            },
    {
        six_bytes(&self.jni_context, "getStaticStsIV")
    }

    pub fn slot_duration_rstu(&self) -> (r: Result<u16, MappingError>)
        ensures
            match unsigned_field(self.jni_context, "getSlotDurationRstu"@, 0xffff) {
                Ok(v) => r == Ok::<u16, MappingError>(v as u16),
                Err(e) => r == Err::<u16, MappingError>(e),
            },
    {
        u16_field(&self.jni_context, "getSlotDurationRstu")
    }

    pub fn ranging_interval_ms(&self) -> (r: Result<u32, MappingError>)
        ensures
            match unsigned_field(self.jni_context, "getRangingIntervalMs"@, 0x7fff_ffff) {
                Ok(v) => r == Ok::<u32, MappingError>(v as u32),
                Err(e) => r == Err::<u32, MappingError>(e),
            },
    {
        u32_field(&self.jni_context, "getRangingIntervalMs")
    }

    pub fn preamble_code_index(&self) -> (r: Result<u8, MappingError>)
        ensures
            match unsigned_field(self.jni_context, "getPreambleCodeIndex"@, 0xff) {
                Ok(v) => r == Ok::<u8, MappingError>(v as u8),
                Err(e) => r == Err::<u8, MappingError>(e),
            },
    {
        u8_field(&self.jni_context, "getPreambleCodeIndex")
    }

    pub fn slots_per_rr(&self) -> (r: Result<u8, MappingError>)
        ensures
            match unsigned_field(self.jni_context, "getSlotsPerRangingRound"@, 0xff) {
                Ok(v) => r == Ok::<u8, MappingError>(v as u8),
                Err(e) => r == Err::<u8, MappingError>(e),
            },
    {
        u8_field(&self.jni_context, "getSlotsPerRangingRound")
    }
}

/// Frequency hopping of a CCC session.
#[derive(Clone, Copy, Debug, PartialEq, Eq, Structural)]
pub enum CccHoppingMode {
    Disable,
    ContinuousDefault,
    ContinuousAes,
    AdaptiveDefault,
    AdaptiveAes,
}

/// The hopping mode that a configuration mode and a hopping sequence name.
pub open spec fn hopping_mode_of(config_mode: u8, sequence: u8) -> Option<CccHoppingMode> {
    if config_mode == 0 {
        Some(CccHoppingMode::Disable)
    } else if config_mode == 1 && sequence == 0 {
        Some(CccHoppingMode::ContinuousDefault)
    } else if config_mode == 1 && sequence == 1 {
        Some(CccHoppingMode::ContinuousAes)
    } else if config_mode == 2 && sequence == 0 {
        Some(CccHoppingMode::AdaptiveDefault)
    } else if config_mode == 2 && sequence == 1 {
        Some(CccHoppingMode::AdaptiveAes)
    } else {
        None
    }
}

/// Picks the hopping mode of a configuration mode and a hopping sequence.
pub fn hopping_mode_from(config_mode: u8, sequence: u8) -> (r: Option<CccHoppingMode>)
    ensures
        r == hopping_mode_of(config_mode, sequence),
{
    match (config_mode, sequence) {
        (0, _) => Some(CccHoppingMode::Disable),
        (1, 0) => Some(CccHoppingMode::ContinuousDefault),
        (1, 1) => Some(CccHoppingMode::ContinuousAes),
        (2, 0) => Some(CccHoppingMode::AdaptiveDefault),
        (2, 1) => Some(CccHoppingMode::AdaptiveAes),
        _ => None,
    }
}

/// Parameters of a CCC ranging session, as a host object.
pub struct CccOpenRangingParamsJni {
    pub jni_context: JniContext,
}

impl CccOpenRangingParamsJni {
    pub fn new(jni_context: JniContext) -> (r: Self)
        ensures
            r.jni_context == jni_context,
    {
        CccOpenRangingParamsJni { jni_context }
    }

    pub fn hopping_config_mode(&self) -> (r: Result<u8, MappingError>)
        ensures
            match unsigned_field(self.jni_context, "getHoppingConfigMode"@, 0xff) {
                Ok(v) => r == Ok::<u8, MappingError>(v as u8),
                Err(e) => r == Err::<u8, MappingError>(e),
            },
    {
        u8_field(&self.jni_context, "getHoppingConfigMode")
    }

    pub fn hopping_sequence(&self) -> (r: Result<u8, MappingError>)
        ensures
            match unsigned_field(self.jni_context, "getHoppingSequence"@, 0xff) {
                Ok(v) => r == Ok::<u8, MappingError>(v as u8),
                Err(e) => r == Err::<u8, MappingError>(e),
            },
    {
        u8_field(&self.jni_context, "getHoppingSequence")
    }

    pub fn ran_multiplier(&self) -> (r: Result<u32, MappingError>)
        ensures
            match unsigned_field(self.jni_context, "getRanMultiplier"@, 0x7fff_ffff) {
                Ok(v) => r == Ok::<u32, MappingError>(v as u32),
                Err(e) => r == Err::<u32, MappingError>(e),
            },
    {
        u32_field(&self.jni_context, "getRanMultiplier")
    }

    pub fn num_responder_nodes(&self) -> (r: Result<u8, MappingError>)
        ensures
            match unsigned_field(self.jni_context, "getNumResponderNodes"@, 0xff) {
                Ok(v) => r == Ok::<u8, MappingError>(v as u8),
                Err(e) => r == Err::<u8, MappingError>(e),
            },
    {
        u8_field(&self.jni_context, "getNumResponderNodes")
    }

    pub fn slots_per_rr(&self) -> (r: Result<u8, MappingError>)
        ensures
            match unsigned_field(self.jni_context, "getNumSlotsPerRound"@, 0xff) {
                Ok(v) => r == Ok::<u8, MappingError>(v as u8),
                Err(e) => r == Err::<u8, MappingError>(e),
            },
    {
        u8_field(&self.jni_context, "getNumSlotsPerRound")
    }

    pub fn sync_code_index(&self) -> (r: Result<u8, MappingError>)
        ensures
            match unsigned_field(self.jni_context, "getSyncCodeIndex"@, 0xff) {
                Ok(v) => r == Ok::<u8, MappingError>(v as u8),
                Err(e) => r == Err::<u8, MappingError>(e),
            },
    {
        u8_field(&self.jni_context, "getSyncCodeIndex")
    }

    /// The hopping mode named by the configuration mode and hopping sequence
    /// getters.
    pub fn hopping_mode(&self) -> (r: Result<CccHoppingMode, MappingError>)
        ensures
            match (
                unsigned_field(self.jni_context, "getHoppingConfigMode"@, 0xff),
                unsigned_field(self.jni_context, "getHoppingSequence"@, 0xff),
            ) {
                (Err(e), _) => r == Err::<CccHoppingMode, MappingError>(e),
                (Ok(_), Err(e)) => r == Err::<CccHoppingMode, MappingError>(e),
                (Ok(m), Ok(s)) => match hopping_mode_of(m as u8, s as u8) {
                    Some(h) => r == Ok::<CccHoppingMode, MappingError>(h),
                    None => r == Err::<CccHoppingMode, MappingError>(MappingError::Parse),
                },
            },
    {
        let config_mode = self.hopping_config_mode()?;
        let sequence = self.hopping_sequence()?;
        match hopping_mode_from(config_mode, sequence) {
            Some(h) => Ok(h),
            None => Err(MappingError::Parse),
        }
    }
}

/// A UWB address, as a host object.
pub struct UwbAddressJni {
    pub jni_context: JniContext,
}

/// What reading an address's bytes gives.
pub open spec fn address_bytes_answer(ctx: JniContext) -> Result<Seq<u8>, MappingError> {
    match answer_of(ctx.answers@, "toBytes"@, BYTE_ARRAY_SIG@) {
        None => Err(MappingError::Jni(JniError::MethodNotFound)),
        Some(HostValue::Bytes(v)) => Ok(v@),
        Some(HostValue::Null) => Err(MappingError::Jni(JniError::NullPtr)),
        Some(_) => Err(MappingError::Jni(JniError::WrongJValueType)),
    }
}

impl UwbAddressJni {
    pub fn new(jni_context: JniContext) -> (r: Self)
        ensures
            r.jni_context == jni_context,
    {
        UwbAddressJni { jni_context }
    }

    /// The address bytes.
    pub fn bytes(&self) -> (r: Result<Vec<u8>, MappingError>)
        ensures
            match address_bytes_answer(self.jni_context) {
                Ok(b) => r matches Ok(v) && v@ == b,
                Err(e) => r == Err::<Vec<u8>, MappingError>(e),
            },
    {
        match self.jni_context.byte_arr_getter("toBytes") {
            Ok(v) => Ok(v),
            Err(e) => Err(MappingError::Jni(e)),
        }
    }

    /// The address as a short address: two bytes, least significant first.
    /// An extended address, or bytes of any other length, is refused.
    pub fn short_address(&self) -> (r: Result<u16, MappingError>)
        ensures
            match address_bytes_answer(self.jni_context) {
                Ok(b) => if b.len() == 2 {
                    r == Ok::<u16, MappingError>((b[0] + 256 * b[1]) as u16)
                } else {
                    r == Err::<u16, MappingError>(MappingError::Parse)
                },
                Err(e) => r == Err::<u16, MappingError>(e),
            },
    {
        let b = self.bytes()?;
        if b.len() != 2 {
            return Err(MappingError::Parse);
        }
        Ok(b[0] as u16 + 256 * (b[1] as u16))
    }
}

/// Parameters of a FiRa controlee, as a host object.
pub struct FiraControleeParamsJni {
    pub jni_context: JniContext,
}

impl FiraControleeParamsJni {
    pub fn new(jni_context: JniContext) -> (r: Self)
        ensures
            r.jni_context == jni_context,
    {
        FiraControleeParamsJni { jni_context }
    }
}

/// A country code as the bytes the host passed.
pub struct CountryCodeJni {
    pub country_code_arr: Vec<u8>,
}

impl CountryCodeJni {
    pub fn new(country_code_arr: Vec<u8>) -> (r: Self)
        ensures
            r.country_code_arr == country_code_arr,
    {
        CountryCodeJni { country_code_arr }
    }

    /// The two bytes of the code; any other length is refused.
    pub fn code(&self) -> (r: Result<[u8; 2], MappingError>)
        ensures
            self.country_code_arr@.len() == 2 ==> (r matches Ok(a) && a@ == self.country_code_arr@),
            self.country_code_arr@.len() != 2 ==> r == Err::<[u8; 2], MappingError>(
                MappingError::Parse,
            ),
    {
        if self.country_code_arr.len() != 2 {
            return Err(MappingError::Parse);
        }
        let a = [self.country_code_arr[0], self.country_code_arr[1]];
        assert(a@ =~= self.country_code_arr@);
        Ok(a)
    }
}

/// Power statistics of a chip.
#[derive(Clone, Copy, Debug, PartialEq, Eq, Structural)]
pub struct PowerStats {
    pub tx_time_ms: u32,
    pub rx_time_ms: u32,
    pub idle_time_ms: u32,
    pub total_wake_count: u32,
}

/// The host object that reports power statistics.
pub struct PowerStatsJni {
    pub object: NewObject,
}

/// The power statistics object: four host `int`s in declaration order.
pub open spec fn is_power_stats_object(o: NewObject, ps: PowerStats) -> bool {
    &&& o.class_name@ == "com/android/server/uwb/info/UwbPowerStats"@
    &&& o.ctor_signature@ == "(IIII)V"@
    &&& o.args@.len() == 4
    &&& o.args@[0] matches FieldArg::Int(x) && x == ps.tx_time_ms
    &&& o.args@[1] matches FieldArg::Int(x) && x == ps.rx_time_ms
    &&& o.args@[2] matches FieldArg::Int(x) && x == ps.idle_time_ms
    &&& o.args@[3] matches FieldArg::Int(x) && x == ps.total_wake_count
}

impl PowerStatsJni {
    /// Builds the report; a value that a host `int` cannot hold is refused.
    pub fn from_power_stats(ps: PowerStats) -> (r: Result<PowerStatsJni, MappingError>)
        ensures
            match r {
                Ok(p) => is_power_stats_object(p.object, ps),
                Err(e) => e == MappingError::Parse && (ps.tx_time_ms > HOST_INT_MAX || ps.rx_time_ms
                    > HOST_INT_MAX || ps.idle_time_ms > HOST_INT_MAX || ps.total_wake_count
                    > HOST_INT_MAX),
            },
            ps.tx_time_ms <= HOST_INT_MAX && ps.rx_time_ms <= HOST_INT_MAX && ps.idle_time_ms
                <= HOST_INT_MAX && ps.total_wake_count <= HOST_INT_MAX ==> r is Ok,
    {
        if ps.tx_time_ms as u64 > HOST_INT_MAX || ps.rx_time_ms as u64 > HOST_INT_MAX
            || ps.idle_time_ms as u64 > HOST_INT_MAX || ps.total_wake_count as u64 > HOST_INT_MAX {
            return Err(MappingError::Parse);
        }
        let mut args: Vec<FieldArg> = Vec::new();
        args.push(FieldArg::Int(ps.tx_time_ms as i32));
        args.push(FieldArg::Int(ps.rx_time_ms as i32));
        args.push(FieldArg::Int(ps.idle_time_ms as i32));
        args.push(FieldArg::Int(ps.total_wake_count as i32));
        let object = NewObject {
            class_name: "com/android/server/uwb/info/UwbPowerStats".to_owned(),
            ctor_signature: "(IIII)V".to_owned(),
            args,
        };
        Ok(PowerStatsJni { object })
    }
}

} // verus!
