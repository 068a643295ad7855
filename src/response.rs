//! The host objects that answer vendor commands, ranging-round updates and
//! power statistics requests.
use vstd::prelude::*;

use crate::notification::{copy_bytes, FieldArg, NewObject, HOST_INT_MAX};
use crate::object_mapping::PowerStats;
use crate::status::{status_value, StatusCode};

verus! {

/// The answer to a vendor command that succeeded: success status, the
/// response's group and opcode ids, and its payload.
pub fn create_vendor_response(gid: u32, oid: u32, payload: &Vec<u8>) -> (o: NewObject)
    ensures
        o.class_name@ == "com/android/server/uwb/data/UwbVendorUciResponse"@,
        o.ctor_signature@ == "(BII[B)V"@,
        o.args@.len() == 4,
        o.args@[0] matches FieldArg::Byte(x) && x == status_value(StatusCode::UciStatusOk),
        o.args@[1] matches FieldArg::Int(x) && x == gid as i32,
        o.args@[2] matches FieldArg::Int(x) && x == oid as i32,
        o.args@[3] matches FieldArg::Bytes(b) && b@ == payload@,
{
    let mut args: Vec<FieldArg> = Vec::new();
    args.push(FieldArg::Byte(StatusCode::UciStatusOk.to_i8()));
    args.push(FieldArg::Int(gid as i32));
    args.push(FieldArg::Int(oid as i32));
    args.push(FieldArg::Bytes(copy_bytes(payload)));
    NewObject {
        class_name: "com/android/server/uwb/data/UwbVendorUciResponse".to_owned(),
        ctor_signature: "(BII[B)V".to_owned(),
        args,
    }
}

/// The answer to a vendor command that failed: the generic failure status,
/// -1 for both ids and no payload.
pub fn create_invalid_vendor_response() -> (o: NewObject)
    ensures
        o.class_name@ == "com/android/server/uwb/data/UwbVendorUciResponse"@,
        o.ctor_signature@ == "(BII[B)V"@,
        o.args@.len() == 4,
        o.args@[0] matches FieldArg::Byte(x) && x == status_value(StatusCode::UciStatusFailed),
        o.args@[1] matches FieldArg::Int(x) && x == -1,
        o.args@[2] matches FieldArg::Int(x) && x == -1,
        o.args@[3] is Null,
{
    let mut args: Vec<FieldArg> = Vec::new();
    args.push(FieldArg::Byte(StatusCode::UciStatusFailed.to_i8()));
    args.push(FieldArg::Int(-1));
    args.push(FieldArg::Int(-1));
    args.push(FieldArg::Null);
    NewObject {
        class_name: "com/android/server/uwb/data/UwbVendorUciResponse".to_owned(),
        ctor_signature: "(BII[B)V".to_owned(),
        args,
    }
}

/// The answer to an update of a tag's active ranging rounds: the device's
/// status byte, the number of round indexes and the indexes.
pub fn create_ranging_round_status(status: u8, indexes: &Vec<u8>) -> (o: NewObject)
    requires
        indexes@.len() <= HOST_INT_MAX,
    ensures
        o.class_name@ == "com/android/server/uwb/data/DtTagUpdateRangingRoundsStatus"@,
        o.ctor_signature@ == "(II[B)V"@,
        o.args@.len() == 3,
        o.args@[0] matches FieldArg::Int(x) && x == status,
        o.args@[1] matches FieldArg::Int(x) && x == indexes@.len(),
        o.args@[2] matches FieldArg::Bytes(b) && b@ == indexes@,
{
    let mut args: Vec<FieldArg> = Vec::new();
    args.push(FieldArg::Int(status as i32));
    args.push(FieldArg::Int(indexes.len() as i32));
    args.push(FieldArg::Bytes(copy_bytes(indexes)));
    NewObject {
        class_name: "com/android/server/uwb/data/DtTagUpdateRangingRoundsStatus".to_owned(),
        ctor_signature: "(II[B)V".to_owned(),
        args,
    }
}

/// The power statistics report of the dispatcher's interface: idle, transmit
/// and receive times and the wake count, each as the host `int` with the same
/// 32 bits.
pub fn create_power_stats(ps: PowerStats) -> (o: NewObject)
    ensures
        o.class_name@ == "com/android/server/uwb/info/UwbPowerStats"@,
        o.ctor_signature@ == "(IIII)V"@,
        o.args@.len() == 4,
        o.args@[0] matches FieldArg::Int(x) && x == ps.idle_time_ms as i32,
        o.args@[1] matches FieldArg::Int(x) && x == ps.tx_time_ms as i32,
        o.args@[2] matches FieldArg::Int(x) && x == ps.rx_time_ms as i32,
        o.args@[3] matches FieldArg::Int(x) && x == ps.total_wake_count as i32,
{
    let mut args: Vec<FieldArg> = Vec::new();
    args.push(FieldArg::Int(ps.idle_time_ms as i32));
    args.push(FieldArg::Int(ps.tx_time_ms as i32));
    args.push(FieldArg::Int(ps.rx_time_ms as i32));
    args.push(FieldArg::Int(ps.total_wake_count as i32));
    NewObject {
        class_name: "com/android/server/uwb/info/UwbPowerStats".to_owned(),
        ctor_signature: "(IIII)V".to_owned(),
        args,
    }
}

} // verus!
