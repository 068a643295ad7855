use uwb_dispatch::context::{HostValue, JniContext, JniError, MethodAnswer};
use uwb_dispatch::object_mapping::{
    hopping_mode_from, CccHoppingMode, CccOpenRangingParamsJni, CountryCodeJni, FiraControleeParamsJni,
    FiraOpenSessionParamsJni, MappingError, PowerStats, PowerStatsJni, UwbAddressJni,
};
use uwb_dispatch::notification::FieldArg;

fn answer(name: &str, sig: &str, value: HostValue) -> MethodAnswer {
    MethodAnswer { name: name.to_string(), sig: sig.to_string(), value }
}

fn ctx(answers: Vec<MethodAnswer>) -> JniContext {
    JniContext::new(1, answers)
}

#[test]
fn getters_read_typed_answers() {
    let c = ctx(vec![
        answer("getI", "()I", HostValue::Int(-4)),
        answer("getJ", "()J", HostValue::Long(1 << 40)),
        answer("isZ", "()Z", HostValue::Bool(true)),
        answer("getB", "()[B", HostValue::Bytes(vec![1, 2])),
        answer("getO", "()Lx/Y;", HostValue::Object(Some(17))),
        answer("getL", "()Ljava/util/List;", HostValue::List(vec![3, 4])),
    ]);
    assert_eq!(c.int_getter("getI"), Ok(-4));
    assert_eq!(c.long_getter("getJ"), Ok(1 << 40));
    assert_eq!(c.bool_getter("isZ"), Ok(true));
    assert_eq!(c.byte_arr_getter("getB"), Ok(vec![1, 2]));
    assert_eq!(c.object_getter("getO", "()Lx/Y;"), Ok(Some(17)));
    assert_eq!(c.list_getter("getL"), Ok(vec![3, 4]));
}

#[test]
fn getters_report_missing_and_mistyped() {
    let c = ctx(vec![
        answer("getI", "()I", HostValue::Long(3)),
        answer("getB", "()[B", HostValue::Null),
    ]);
    assert_eq!(c.int_getter("getI"), Err(JniError::WrongJValueType));
    assert_eq!(c.long_getter("getI"), Err(JniError::MethodNotFound));
    assert_eq!(c.byte_arr_getter("getB"), Err(JniError::NullPtr));
    assert_eq!(c.list_getter("getB"), Err(JniError::MethodNotFound));
}

#[test]
fn fira_fields_are_range_checked() {
    let p = FiraOpenSessionParamsJni::new(ctx(vec![
        answer("getVendorId", "()[B", HostValue::Bytes(vec![0x12, 0x34])),
        answer("getStaticStsIV", "()[B", HostValue::Bytes(vec![1, 2, 3])),
        answer("getSlotDurationRstu", "()I", HostValue::Int(2400)),
        answer("getRangingIntervalMs", "()I", HostValue::Int(-1)),
        answer("getPreambleCodeIndex", "()I", HostValue::Int(256)),
        answer("getSlotsPerRangingRound", "()I", HostValue::Int(25)),
    ]));
    assert_eq!(p.vendor_id(), Ok([0x12, 0x34]));
    assert_eq!(p.static_sts_iv(), Err(MappingError::Parse));
    assert_eq!(p.slot_duration_rstu(), Ok(2400));
    assert_eq!(p.ranging_interval_ms(), Err(MappingError::Parse));
    assert_eq!(p.preamble_code_index(), Err(MappingError::Parse));
    assert_eq!(p.slots_per_rr(), Ok(25));
}

#[test]
fn static_sts_iv_of_six_bytes() {
    let p = FiraOpenSessionParamsJni::new(ctx(vec![answer("getStaticStsIV", "()[B", HostValue::Bytes(vec![1, 2, 3, 4, 5, 6]))]));
    assert_eq!(p.static_sts_iv(), Ok([1, 2, 3, 4, 5, 6]));
    assert_eq!(p.vendor_id(), Err(MappingError::Jni(JniError::MethodNotFound)));
}

#[test]
fn ccc_hopping_mode_table() {
    assert_eq!(hopping_mode_from(0, 9), Some(CccHoppingMode::Disable));
    assert_eq!(hopping_mode_from(1, 0), Some(CccHoppingMode::ContinuousDefault));
    assert_eq!(hopping_mode_from(1, 1), Some(CccHoppingMode::ContinuousAes));
    assert_eq!(hopping_mode_from(2, 0), Some(CccHoppingMode::AdaptiveDefault));
    assert_eq!(hopping_mode_from(2, 1), Some(CccHoppingMode::AdaptiveAes));
    assert_eq!(hopping_mode_from(2, 2), None);
    assert_eq!(hopping_mode_from(3, 0), None);
}

#[test]
fn ccc_params_read_fields() {
    let p = CccOpenRangingParamsJni::new(ctx(vec![
        answer("getHoppingConfigMode", "()I", HostValue::Int(2)),
        answer("getHoppingSequence", "()I", HostValue::Int(1)),
        answer("getRanMultiplier", "()I", HostValue::Int(4)),
        answer("getNumResponderNodes", "()I", HostValue::Int(1)),
        answer("getNumSlotsPerRound", "()I", HostValue::Int(6)),
        answer("getSyncCodeIndex", "()I", HostValue::Int(9)),
    ]));
    assert_eq!(p.hopping_mode(), Ok(CccHoppingMode::AdaptiveAes));
    assert_eq!(p.ran_multiplier(), Ok(4));
    assert_eq!(p.num_responder_nodes(), Ok(1));
    assert_eq!(p.slots_per_rr(), Ok(6));
    assert_eq!(p.sync_code_index(), Ok(9));
    assert_eq!(p.hopping_config_mode(), Ok(2));
    assert_eq!(p.hopping_sequence(), Ok(1));
}

#[test]
fn ccc_invalid_hopping_pair_is_a_parse_error() {
    let p = CccOpenRangingParamsJni::new(ctx(vec![
        answer("getHoppingConfigMode", "()I", HostValue::Int(1)),
        answer("getHoppingSequence", "()I", HostValue::Int(5)),
    ]));
    assert_eq!(p.hopping_mode(), Err(MappingError::Parse));
}

#[test]
fn controlee_params_keep_context() {
    let p = FiraControleeParamsJni::new(ctx(vec![]));
    assert_eq!(p.jni_context.obj, 1);
}

#[test]
fn country_code_needs_two_bytes() {
    assert_eq!(CountryCodeJni::new(b"US".to_vec()).code(), Ok(*b"US"));
    assert_eq!(CountryCodeJni::new(b"USA".to_vec()).code(), Err(MappingError::Parse));
    assert_eq!(CountryCodeJni::new(vec![]).code(), Err(MappingError::Parse));
}

#[test]
fn power_stats_object() {
    let ps = PowerStats { tx_time_ms: 1, rx_time_ms: 2, idle_time_ms: 3, total_wake_count: 4 };
    let o = PowerStatsJni::from_power_stats(ps).ok().unwrap().object;
    assert_eq!(o.class_name, "com/android/server/uwb/info/UwbPowerStats");
    assert_eq!(o.ctor_signature, "(IIII)V");
    let vals: Vec<i32> = o
        .args
        .iter()
        .map(|a| match a {
            FieldArg::Int(v) => *v,
            _ => panic!("int expected"),
        })
        .collect();
    assert_eq!(vals, vec![1, 2, 3, 4]);
    let big = PowerStats { tx_time_ms: u32::MAX, ..ps };
    assert!(matches!(PowerStatsJni::from_power_stats(big), Err(MappingError::Parse)));
}

#[test]
fn short_address_is_little_endian() {
    let a = UwbAddressJni::new(ctx(vec![answer("toBytes", "()[B", HostValue::Bytes(vec![0x34, 0x12]))]));
    assert_eq!(a.bytes(), Ok(vec![0x34, 0x12]));
    assert_eq!(a.short_address(), Ok(0x1234));
    let e = UwbAddressJni::new(ctx(vec![answer("toBytes", "()[B", HostValue::Bytes(vec![0; 8]))]));
    assert_eq!(e.short_address(), Err(MappingError::Parse));
    let n = UwbAddressJni::new(ctx(vec![]));
    assert_eq!(n.short_address(), Err(MappingError::Jni(JniError::MethodNotFound)));
}
