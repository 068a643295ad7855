//! Notification events of a chip and the host callback that each becomes.
//!
//! Each kind of event has its own encoder with a fixed, versioned argument
//! layout, so delivery needs no reflection beyond resolving the callback
//! method once.
use vstd::prelude::*;
use vstd::string::StringExecFns;

use crate::status::UwbError;

verus! {

/// Largest value of a host `int`.
pub const HOST_INT_MAX: u64 = 0x7fff_ffff;

/// Outcome of one controlee in a multicast list update.
#[derive(Clone, Copy, Debug, PartialEq, Eq, Structural)]
pub struct ControleeStatus {
    pub mac_address: u16,
    pub subsession_id: u32,
    pub status: u8,
}

/// An asynchronous event produced by a chip's protocol worker.
pub enum NotificationEvent {
    ServiceReset { success: bool },
    DeviceStatus { state: u8 },
    GenericError { status: u8 },
    SessionStatus { session_id: u32, state: u8, reason: u8 },
    MulticastListUpdate { session_id: u32, remaining: usize, status_list: Vec<ControleeStatus> },
    Vendor { gid: u32, oid: u32, payload: Vec<u8> },
    DataReceive {
        session_id: u32,
        status: u8,
        sequence: u32,
        source_address: Vec<u8>,
        source_component: u8,
        dest_component: u8,
        payload: Vec<u8>,
    },
    /// Two-way ranging results of one ranging round.
    TwoWayRangeData {
        sequence_number: u32,
        session_id: u32,
        rcr_indicator: u8,
        current_ranging_interval_ms: u32,
        ranging_measurement_type: u8,
        extended_addresses: bool,
        measurements: Vec<TwoWayRangingMeasurement>,
        raw_ranging_data: Vec<u8>,
    },
    /// The one-way angle-of-arrival result of one ranging round.
    OwrAoaRangeData {
        sequence_number: u32,
        session_id: u32,
        rcr_indicator: u8,
        current_ranging_interval_ms: u32,
        ranging_measurement_type: u8,
        extended_addresses: bool,
        measurement: OwrAoaRangingMeasurement,
        raw_ranging_data: Vec<u8>,
    },
    /// Downlink time-difference-of-arrival results of one ranging round.
    DlTdoaRangeData {
        sequence_number: u32,
        session_id: u32,
        rcr_indicator: u8,
        current_ranging_interval_ms: u32,
        ranging_measurement_type: u8,
        extended_addresses: bool,
        measurements: Vec<DlTdoaRangingMeasurement>,
        raw_ranging_data: Vec<u8>,
    },
    /// Handled inside the protocol manager; never reaches the host.
    DataCredit { session_id: u32, available: bool },
    /// Handled inside the protocol manager; never reaches the host.
    DataTransferStatus { session_id: u32, sequence: u32, status: u8 },
}

/// One measurement of a two-way ranging round.
#[derive(Clone, Copy, Debug, PartialEq, Eq, Structural)]
pub struct TwoWayRangingMeasurement {
    /// The peer's address; a short address uses the low 16 bits.
    pub mac_address: u64,
    pub status: u8,
    pub nlos: u8,
    pub distance: u16,
    pub aoa_azimuth: u16,
    pub aoa_azimuth_fom: u8,
    pub aoa_elevation: u16,
    pub aoa_elevation_fom: u8,
    pub aoa_destination_azimuth: u16,
    pub aoa_destination_azimuth_fom: u8,
    pub aoa_destination_elevation: u16,
    pub aoa_destination_elevation_fom: u8,
    pub slot_index: u8,
    pub rssi: u8,
}

/// The one-way angle-of-arrival measurement of a ranging round.
#[derive(Clone, Copy, Debug, PartialEq, Eq, Structural)]
pub struct OwrAoaRangingMeasurement {
    /// The peer's address; a short address uses the low 16 bits.
    pub mac_address: u64,
    pub status: u8,
    pub nlos: u8,
    pub frame_sequence_number: u8,
    pub block_index: u16,
    pub aoa_azimuth: u16,
    pub aoa_azimuth_fom: u8,
    pub aoa_elevation: u16,
    pub aoa_elevation_fom: u8,
}

/// One downlink time-difference-of-arrival measurement.
pub struct DlTdoaRangingMeasurement {
    /// The anchor's address; a short address uses the low 16 bits.
    pub mac_address: u64,
    pub status: u8,
    pub message_type: u8,
    pub message_control: u16,
    pub block_index: u16,
    pub round_index: u8,
    pub nlos: u8,
    pub aoa_azimuth: u16,
    pub aoa_azimuth_fom: u8,
    pub aoa_elevation: u16,
    pub aoa_elevation_fom: u8,
    pub rssi: u8,
    pub tx_timestamp: u64,
    pub rx_timestamp: u64,
    pub anchor_cfo: u16,
    pub cfo: u16,
    pub initiator_reply_time: u32,
    pub responder_reply_time: u32,
    pub initiator_responder_tof: u16,
    pub dt_anchor_location: Vec<u8>,
    pub ranging_rounds: Vec<u8>,
}

/// A scalar or byte-array argument of a measurement object's constructor.
pub enum ScalarArg {
    Int(i32),
    Long(i64),
    Bytes(Vec<u8>),
}

/// A host object built from an address followed by further fields, as an
/// element of an object array or on its own.
pub struct ElementObject {
    pub address: Vec<u8>,
    pub fields: Vec<ScalarArg>,
}

/// Fields that are exactly the given `int`s, in order.
pub open spec fn ints_match(f: Seq<ScalarArg>, v: Seq<i32>) -> bool {
    &&& f.len() == v.len()
    &&& forall|i: int| 0 <= i < v.len() ==> (#[trigger] f[i] matches ScalarArg::Int(x) && x == v[i])
}

/// The fields of a list of `int`s.
fn int_fields(v: Vec<i32>) -> (r: Vec<ScalarArg>)
    ensures
        ints_match(r@, v@),
{
    let mut r: Vec<ScalarArg> = Vec::new();
    let mut i: usize = 0;
    while i < v.len()
        invariant
            i <= v@.len(),
            r@.len() == i,
            forall|j: int| 0 <= j < i ==> (#[trigger] r@[j] matches ScalarArg::Int(x) && x == v@[j]),
        decreases v@.len() - i,
    {
        r.push(ScalarArg::Int(v[i]));
        i = i + 1;
    }
    r
}

/// A host object array whose elements share one class and constructor.
pub struct ObjectArray {
    pub class_name: String,
    pub ctor_signature: String,
    pub elements: Vec<ElementObject>,
}

/// A single host object built from an address and a list of `int`s.
pub struct SingleObject {
    pub class_name: String,
    pub ctor_signature: String,
    pub object: ElementObject,
}

/// An argument of a host object's constructor.
pub enum FieldArg {
    Int(i32),
    Long(i64),
    IntArray(Vec<i32>),
    LongArray(Vec<i64>),
    Bytes(Vec<u8>),
    Objects(ObjectArray),
    Single(SingleObject),
    Byte(i8),
    /// A null object reference.
    Null,
}

/// A host object to construct and pass to a callback.
pub struct NewObject {
    pub class_name: String,
    pub ctor_signature: String,
    pub args: Vec<FieldArg>,
}

/// An argument of a host callback.
pub enum CallbackArg {
    Bool(bool),
    Int(i32),
    Long(i64),
    Str(String),
    Bytes(Vec<u8>),
    Object(NewObject),
}

/// One invocation of a host callback method.
pub struct CallbackCall {
    pub method: String,
    pub signature: String,
    pub args: Vec<CallbackArg>,
}

pub open spec fn is_int(a: CallbackArg, v: int) -> bool {
    a matches CallbackArg::Int(x) && x == v
}

pub open spec fn is_long(a: CallbackArg, v: int) -> bool {
    a matches CallbackArg::Long(x) && x == v
}

pub open spec fn is_bytes(a: CallbackArg, v: Seq<u8>) -> bool {
    a matches CallbackArg::Bytes(x) && x@ == v
}

/// Why an event cannot be encoded: a count or an id that a host `int`
/// cannot hold.
pub open spec fn encode_error(e: NotificationEvent) -> Option<UwbError> {
    match e {
        NotificationEvent::MulticastListUpdate { remaining, status_list, .. } => {
            if remaining > HOST_INT_MAX || status_list@.len() > HOST_INT_MAX {
                Some(UwbError::BadParameters)
            } else {
                None
            }
        },
        NotificationEvent::Vendor { gid, oid, .. } => {
            if gid > HOST_INT_MAX || oid > HOST_INT_MAX {
                Some(UwbError::BadParameters)
            } else {
                None
            }
        },
        NotificationEvent::TwoWayRangeData { ranging_measurement_type, measurements, .. } => {
            if ranging_measurement_type != TWO_WAY_MEASUREMENT || measurements@.len() > HOST_INT_MAX {
                Some(UwbError::ForeignFunctionInterface)
            } else {
                None
            }
        },
        NotificationEvent::DlTdoaRangeData { measurements, .. } => {
            if measurements@.len() > HOST_INT_MAX {
                Some(UwbError::BadParameters)
            } else {
                None
            }
        },
        NotificationEvent::OwrAoaRangeData { ranging_measurement_type, .. } => {
            if ranging_measurement_type != OWR_AOA_MEASUREMENT {
                Some(UwbError::ForeignFunctionInterface)
            } else {
                None
            }
        },
        _ => None,
    }
}

/// Whether an event is reported to the host at all.
pub open spec fn reaches_host(e: NotificationEvent) -> bool {
    !(e is DataCredit || e is DataTransferStatus)
}

/// The multicast status object: session, remaining size, count, and the
/// controlees' addresses, sub-session ids and statuses in list order.
pub open spec fn is_multicast_status(
    o: NewObject,
    session_id: u32,
    remaining: usize,
    list: Seq<ControleeStatus>,
) -> bool {
    &&& o.class_name@ == "com/android/server/uwb/data/UwbMulticastListUpdateStatus"@
    &&& o.ctor_signature@ == "(JII[I[J[I)V"@
    &&& o.args@.len() == 6
    &&& o.args@[0] matches FieldArg::Long(x) && x == session_id
    &&& o.args@[1] matches FieldArg::Int(x) && x == remaining
    &&& o.args@[2] matches FieldArg::Int(x) && x == list.len()
    &&& o.args@[3] matches FieldArg::IntArray(v) && v@.len() == list.len() && forall|i: int|
        0 <= i < list.len() ==> v@[i] == list[i].mac_address
    &&& o.args@[4] matches FieldArg::LongArray(v) && v@.len() == list.len() && forall|i: int|
        0 <= i < list.len() ==> v@[i] == list[i].subsession_id
    &&& o.args@[5] matches FieldArg::IntArray(v) && v@.len() == list.len() && forall|i: int|
        0 <= i < list.len() ==> v@[i] == list[i].status
}

/// The callback that an event becomes on the given chip.
pub open spec fn encodes(e: NotificationEvent, chip_id: Seq<char>, c: CallbackCall) -> bool {
    match e {
        NotificationEvent::ServiceReset { success } => {
            &&& c.method@ == "onServiceResetReceived"@
            &&& c.signature@ == "(Z)V"@
            &&& c.args@.len() == 1
            &&& c.args@[0] matches CallbackArg::Bool(x) && x == success
        },
        NotificationEvent::DeviceStatus { state } => {
            &&& c.method@ == "onDeviceStatusNotificationReceived"@
            &&& c.signature@ == "(ILjava/lang/String;)V"@
            &&& c.args@.len() == 2
            &&& is_int(c.args@[0], state as int)
            &&& c.args@[1] matches CallbackArg::Str(s) && s@ == chip_id
        },
        NotificationEvent::GenericError { status } => {
            &&& c.method@ == "onCoreGenericErrorNotificationReceived"@
            &&& c.signature@ == "(ILjava/lang/String;)V"@
            &&& c.args@.len() == 2
            &&& is_int(c.args@[0], status as int)
            &&& c.args@[1] matches CallbackArg::Str(s) && s@ == chip_id
        },
        NotificationEvent::SessionStatus { session_id, state, reason } => {
            &&& c.method@ == "onSessionStatusNotificationReceived"@
            &&& c.signature@ == "(JII)V"@
            &&& c.args@.len() == 3
            &&& is_long(c.args@[0], session_id as int)
            &&& is_int(c.args@[1], state as int)
            &&& is_int(c.args@[2], reason as int)
        },
        NotificationEvent::MulticastListUpdate { session_id, remaining, status_list } => {
            &&& c.method@ == "onMulticastListUpdateNotificationReceived"@
            &&& c.signature@ == "(Lcom/android/server/uwb/data/UwbMulticastListUpdateStatus;)V"@
            &&& c.args@.len() == 1
            &&& c.args@[0] matches CallbackArg::Object(o) && is_multicast_status(
                o,
                session_id,
                remaining,
                status_list@,
            )
        },
        NotificationEvent::Vendor { gid, oid, payload } => {
            &&& c.method@ == "onVendorUciNotificationReceived"@
            &&& c.signature@ == "(II[B)V"@
            &&& c.args@.len() == 3
            &&& is_int(c.args@[0], gid as int)
            &&& is_int(c.args@[1], oid as int)
            &&& is_bytes(c.args@[2], payload@)
        },
        NotificationEvent::DataReceive {
            session_id,
            status,
            sequence,
            source_address,
            source_component,
            dest_component,
            payload,
        } => {
            &&& c.method@ == "onDataReceived"@
            &&& c.signature@ == "(JIJ[BII[B)V"@
            &&& c.args@.len() == 7
            &&& is_long(c.args@[0], session_id as int)
            &&& is_int(c.args@[1], status as int)
            &&& is_long(c.args@[2], sequence as int)
            &&& is_bytes(c.args@[3], source_address@)
            &&& is_int(c.args@[4], source_component as int)
            &&& is_int(c.args@[5], dest_component as int)
            &&& is_bytes(c.args@[6], payload@)
        },
        NotificationEvent::TwoWayRangeData {
            sequence_number,
            session_id,
            rcr_indicator,
            current_ranging_interval_ms,
            ranging_measurement_type,
            extended_addresses,
            measurements,
            raw_ranging_data,
        } => {
            &&& c.method@ == "onRangeDataNotificationReceived"@
            &&& c.signature@ == "(Lcom/android/server/uwb/data/UwbRangingData;)V"@
            &&& c.args@.len() == 1
            &&& c.args@[0] matches CallbackArg::Object(o) && {
                &&& o.class_name@ == "com/android/server/uwb/data/UwbRangingData"@
                &&& o.ctor_signature@
                    == "(JJIJIII[Lcom/android/server/uwb/data/UwbTwoWayMeasurement;[B)V"@
                &&& o.args@.len() == 9
                &&& o.args@[0] matches FieldArg::Long(x) && x == sequence_number
                &&& o.args@[1] matches FieldArg::Long(x) && x == session_id
                &&& o.args@[2] matches FieldArg::Int(x) && x == rcr_indicator
                &&& o.args@[3] matches FieldArg::Long(x) && x == current_ranging_interval_ms
                &&& o.args@[4] matches FieldArg::Int(x) && x == ranging_measurement_type
                &&& o.args@[5] matches FieldArg::Int(x) && x == (if extended_addresses { 1int } else { 0 })
                &&& o.args@[6] matches FieldArg::Int(x) && x == measurements@.len()
                &&& o.args@[7] matches FieldArg::Objects(a) && is_two_way_array(a, extended_addresses, measurements@)
                &&& o.args@[8] matches FieldArg::Bytes(b) && b@ == raw_ranging_data@
            }
        },
        NotificationEvent::OwrAoaRangeData {
            sequence_number,
            session_id,
            rcr_indicator,
            current_ranging_interval_ms,
            ranging_measurement_type,
            extended_addresses,
            measurement,
            raw_ranging_data,
        } => {
            &&& c.method@ == "onRangeDataNotificationReceived"@
            &&& c.signature@ == "(Lcom/android/server/uwb/data/UwbRangingData;)V"@
            &&& c.args@.len() == 1
            &&& c.args@[0] matches CallbackArg::Object(o) && {
                &&& o.class_name@ == "com/android/server/uwb/data/UwbRangingData"@
                &&& o.ctor_signature@
                    == "(JJIJIIILcom/android/server/uwb/data/UwbOwrAoaMeasurement;[B)V"@
                &&& o.args@.len() == 9
                &&& o.args@[0] matches FieldArg::Long(x) && x == sequence_number
                &&& o.args@[1] matches FieldArg::Long(x) && x == session_id
                &&& o.args@[2] matches FieldArg::Int(x) && x == rcr_indicator
                &&& o.args@[3] matches FieldArg::Long(x) && x == current_ranging_interval_ms
                &&& o.args@[4] matches FieldArg::Int(x) && x == ranging_measurement_type
                &&& o.args@[5] matches FieldArg::Int(x) && x == (if extended_addresses { 1int } else { 0 })
                &&& o.args@[6] matches FieldArg::Int(x) && x == 1
                &&& o.args@[7] matches FieldArg::Single(m) && {
                    &&& m.class_name@ == "com/android/server/uwb/data/UwbOwrAoaMeasurement"@
                    &&& m.ctor_signature@ == "([BIIIIIIII)V"@
                    &&& m.object.address@ == le_bytes(measurement.mac_address as nat, address_len(extended_addresses))
                    &&& ints_match(m.object.fields@, owr_aoa_ints(measurement))
                }
                &&& o.args@[8] matches FieldArg::Bytes(b) && b@ == raw_ranging_data@
            }
        },
        NotificationEvent::DlTdoaRangeData {
            sequence_number,
            session_id,
            rcr_indicator,
            current_ranging_interval_ms,
            ranging_measurement_type,
            extended_addresses,
            measurements,
            raw_ranging_data,
        } => {
            &&& c.method@ == "onRangeDataNotificationReceived"@
            &&& c.signature@ == "(Lcom/android/server/uwb/data/UwbRangingData;)V"@
            &&& c.args@.len() == 1
            &&& c.args@[0] matches CallbackArg::Object(o) && {
                &&& o.class_name@ == "com/android/server/uwb/data/UwbRangingData"@
                &&& o.ctor_signature@
                    == "(JJIJIII[Lcom/android/server/uwb/data/UwbDlTDoAMeasurement;[B)V"@
                &&& o.args@.len() == 9
                &&& o.args@[0] matches FieldArg::Long(x) && x == sequence_number
                &&& o.args@[1] matches FieldArg::Long(x) && x == session_id
                &&& o.args@[2] matches FieldArg::Int(x) && x == rcr_indicator
                &&& o.args@[3] matches FieldArg::Long(x) && x == current_ranging_interval_ms
                &&& o.args@[4] matches FieldArg::Int(x) && x == ranging_measurement_type
                &&& o.args@[5] matches FieldArg::Int(x) && x == (if extended_addresses { 1int } else { 0 })
                &&& o.args@[6] matches FieldArg::Int(x) && x == measurements@.len()
                &&& o.args@[7] matches FieldArg::Objects(a) && is_dl_tdoa_array(a, extended_addresses, measurements@)
                &&& o.args@[8] matches FieldArg::Bytes(b) && b@ == raw_ranging_data@
            }
        },
        _ => false,
    }
}

/// The fields of a downlink TDoA measurement object after the address, in
/// constructor order.
pub open spec fn is_dl_tdoa_fields(f: Seq<ScalarArg>, m: DlTdoaRangingMeasurement) -> bool {
    &&& f.len() == 20
    &&& f[0] matches ScalarArg::Int(x) && x == m.status
    &&& f[1] matches ScalarArg::Int(x) && x == m.message_type
    &&& f[2] matches ScalarArg::Int(x) && x == m.message_control
    &&& f[3] matches ScalarArg::Int(x) && x == m.block_index
    &&& f[4] matches ScalarArg::Int(x) && x == m.round_index
    &&& f[5] matches ScalarArg::Int(x) && x == m.nlos
    &&& f[6] matches ScalarArg::Int(x) && x == m.aoa_azimuth
    &&& f[7] matches ScalarArg::Int(x) && x == m.aoa_azimuth_fom
    &&& f[8] matches ScalarArg::Int(x) && x == m.aoa_elevation
    &&& f[9] matches ScalarArg::Int(x) && x == m.aoa_elevation_fom
    &&& f[10] matches ScalarArg::Int(x) && x == m.rssi
    &&& f[11] matches ScalarArg::Long(x) && x == m.tx_timestamp as i64
    &&& f[12] matches ScalarArg::Long(x) && x == m.rx_timestamp as i64
    &&& f[13] matches ScalarArg::Int(x) && x == m.anchor_cfo
    &&& f[14] matches ScalarArg::Int(x) && x == m.cfo
    &&& f[15] matches ScalarArg::Long(x) && x == m.initiator_reply_time
    &&& f[16] matches ScalarArg::Long(x) && x == m.responder_reply_time
    &&& f[17] matches ScalarArg::Int(x) && x == m.initiator_responder_tof
    &&& f[18] matches ScalarArg::Bytes(b) && b@ == m.dt_anchor_location@
    &&& f[19] matches ScalarArg::Bytes(b) && b@ == m.ranging_rounds@
}

/// The array of downlink TDoA measurement objects, one per measurement in
/// order.
pub open spec fn is_dl_tdoa_array(a: ObjectArray, extended: bool, ms: Seq<DlTdoaRangingMeasurement>) -> bool {
    &&& a.class_name@ == "com/android/server/uwb/data/UwbDlTDoAMeasurement"@
    &&& a.ctor_signature@ == "([BIIIIIIIIIIIJJIIJJI[B[B)V"@
    &&& a.elements@.len() == ms.len()
    &&& forall|i: int|
        0 <= i < ms.len() ==> {
            &&& (#[trigger] a.elements@[i]).address@ == le_bytes(ms[i].mac_address as nat, address_len(extended))
            &&& is_dl_tdoa_fields(a.elements@[i].fields@, ms[i])
        }
}

/// Measurement type of two-way ranging.
pub const TWO_WAY_MEASUREMENT: u8 = 1;

/// Measurement type of one-way angle-of-arrival ranging.
pub const OWR_AOA_MEASUREMENT: u8 = 3;

/// The `int` fields of a one-way angle-of-arrival measurement object, in
/// constructor order.
pub open spec fn owr_aoa_ints(m: OwrAoaRangingMeasurement) -> Seq<i32> {
    seq![
        m.status as i32,
        m.nlos as i32,
        m.frame_sequence_number as i32,
        m.block_index as i32,
        m.aoa_azimuth as i32,
        m.aoa_azimuth_fom as i32,
        m.aoa_elevation as i32,
        m.aoa_elevation_fom as i32,
    ]
}

/// The `n` low-order bytes of `v`, least significant first.
pub open spec fn le_bytes(v: nat, n: nat) -> Seq<u8>
    decreases n,
{
    if n == 0 {
        Seq::empty()
    } else {
        seq![(v % 256) as u8] + le_bytes(v / 256, (n - 1) as nat)
    }
}

/// Address width in bytes: 8 for extended addresses, 2 for short ones.
pub open spec fn address_len(extended: bool) -> nat {
    if extended { 8 } else { 2 }
}

/// The `int` fields of a two-way measurement object, in constructor order.
pub open spec fn two_way_ints(m: TwoWayRangingMeasurement) -> Seq<i32> {
    seq![
        m.status as i32,
        m.nlos as i32,
        m.distance as i32,
        m.aoa_azimuth as i32,
        m.aoa_azimuth_fom as i32,
        m.aoa_elevation as i32,
        m.aoa_elevation_fom as i32,
        m.aoa_destination_azimuth as i32,
        m.aoa_destination_azimuth_fom as i32,
        m.aoa_destination_elevation as i32,
        m.aoa_destination_elevation_fom as i32,
        m.slot_index as i32,
        m.rssi as i32,
    ]
}

/// The array of two-way measurement objects, one per measurement in order.
pub open spec fn is_two_way_array(a: ObjectArray, extended: bool, ms: Seq<TwoWayRangingMeasurement>) -> bool {
    &&& a.class_name@ == "com/android/server/uwb/data/UwbTwoWayMeasurement"@
    &&& a.ctor_signature@ == "([BIIIIIIIIIIIII)V"@
    &&& a.elements@.len() == ms.len()
    &&& forall|i: int|
        0 <= i < ms.len() ==> {
            &&& (#[trigger] a.elements@[i]).address@ == le_bytes(ms[i].mac_address as nat, address_len(extended))
            &&& ints_match(a.elements@[i].fields@, two_way_ints(ms[i]))
        }
}

/// What encoding an event gives: the error, nothing for an event that stays
/// inside the protocol manager, or a call that `encodes` the event.
pub open spec fn encode_ok(e: NotificationEvent, chip_id: Seq<char>, r: Result<Option<CallbackCall>, UwbError>) -> bool {
    match r {
        Err(x) => encode_error(e) == Some(x),
        Ok(None) => encode_error(e) is None && !reaches_host(e),
        Ok(Some(c)) => encode_error(e) is None && reaches_host(e) && encodes(e, chip_id, c),
    }
}

fn call(method: &str, signature: &str, args: Vec<CallbackArg>) -> (c: CallbackCall)
    ensures
        c.method@ == method@,
        c.signature@ == signature@,
        c.args == args,
{
    CallbackCall { method: method.to_owned(), signature: signature.to_owned(), args }
}

/// Builds the multicast status object from a controlee list.
fn multicast_status(session_id: u32, remaining: usize, status_list: &Vec<ControleeStatus>) -> (o: NewObject)
    requires
        remaining <= HOST_INT_MAX,
        status_list@.len() <= HOST_INT_MAX,
    ensures
        is_multicast_status(o, session_id, remaining, status_list@),
{
    let mut macs: Vec<i32> = Vec::new();
    let mut subsessions: Vec<i64> = Vec::new();
    let mut statuses: Vec<i32> = Vec::new();
    let mut i: usize = 0;
    while i < status_list.len()
        invariant
            i <= status_list@.len(),
            macs@.len() == i,
            subsessions@.len() == i,
            statuses@.len() == i,
            forall|j: int| 0 <= j < i ==> macs@[j] == status_list@[j].mac_address,
            forall|j: int| 0 <= j < i ==> subsessions@[j] == status_list@[j].subsession_id,
            forall|j: int| 0 <= j < i ==> statuses@[j] == status_list@[j].status,
        decreases status_list@.len() - i,
    {
        let cs = status_list[i];
        macs.push(cs.mac_address as i32);
        subsessions.push(cs.subsession_id as i64);
        statuses.push(cs.status as i32);
        i = i + 1;
    }
    let count = status_list.len() as i32;
    let mut args: Vec<FieldArg> = Vec::new();
    args.push(FieldArg::Long(session_id as i64));
    args.push(FieldArg::Int(remaining as i32));
    args.push(FieldArg::Int(count));
    args.push(FieldArg::IntArray(macs));
    args.push(FieldArg::LongArray(subsessions));
    args.push(FieldArg::IntArray(statuses));
    NewObject {
        class_name: "com/android/server/uwb/data/UwbMulticastListUpdateStatus".to_owned(),
        ctor_signature: "(JII[I[J[I)V".to_owned(),
        args,
    }
}

/// The `n` low-order bytes of an address, least significant first.
pub fn address_bytes(mac_address: u64, n: usize) -> (r: Vec<u8>)
    requires
        n <= 8,
    ensures
        r@ == le_bytes(mac_address as nat, n as nat),
{
    let mut out: Vec<u8> = Vec::new();
    let mut x: u64 = mac_address;
    let mut i: usize = 0;
    while i < n
        invariant
            i <= n,
            out@ + le_bytes(x as nat, (n - i) as nat) == le_bytes(mac_address as nat, n as nat),
        decreases n - i,
    {
        let ghost rest = le_bytes((x / 256) as nat, (n - i - 1) as nat);
        assert(le_bytes(x as nat, (n - i) as nat) == seq![(x % 256) as u8] + rest);
        out.push((x % 256) as u8);
        assert(out@ + rest =~= out@.drop_last() + (seq![(x % 256) as u8] + rest));
        x = x / 256;
        i = i + 1;
    }
    assert(out@ + Seq::<u8>::empty() =~= out@);
    out
}

fn two_way_element(m: &TwoWayRangingMeasurement, n: usize) -> (e: ElementObject)
    requires
        n <= 8,
    ensures
        e.address@ == le_bytes(m.mac_address as nat, n as nat),
        ints_match(e.fields@, two_way_ints(*m)),
{
    let mut ints: Vec<i32> = Vec::new();
    ints.push(m.status as i32);
    ints.push(m.nlos as i32);
    ints.push(m.distance as i32);
    ints.push(m.aoa_azimuth as i32);
    ints.push(m.aoa_azimuth_fom as i32);
    ints.push(m.aoa_elevation as i32);
    ints.push(m.aoa_elevation_fom as i32);
    ints.push(m.aoa_destination_azimuth as i32);
    ints.push(m.aoa_destination_azimuth_fom as i32);
    ints.push(m.aoa_destination_elevation as i32);
    ints.push(m.aoa_destination_elevation_fom as i32);
    ints.push(m.slot_index as i32);
    ints.push(m.rssi as i32);
    assert(ints@ =~= two_way_ints(*m));
    ElementObject { address: address_bytes(m.mac_address, n), fields: int_fields(ints) }
}

fn owr_aoa_object(m: &OwrAoaRangingMeasurement, extended: bool) -> (o: SingleObject)
    ensures
        o.class_name@ == "com/android/server/uwb/data/UwbOwrAoaMeasurement"@,
        o.ctor_signature@ == "([BIIIIIIII)V"@,
        o.object.address@ == le_bytes(m.mac_address as nat, address_len(extended)),
        ints_match(o.object.fields@, owr_aoa_ints(*m)),
{
    let mut ints: Vec<i32> = Vec::new();
    ints.push(m.status as i32);
    ints.push(m.nlos as i32);
    ints.push(m.frame_sequence_number as i32);
    ints.push(m.block_index as i32);
    ints.push(m.aoa_azimuth as i32);
    ints.push(m.aoa_azimuth_fom as i32);
    ints.push(m.aoa_elevation as i32);
    ints.push(m.aoa_elevation_fom as i32);
    assert(ints@ =~= owr_aoa_ints(*m));
    let n: usize = if extended { 8 } else { 2 };
    SingleObject {
        class_name: "com/android/server/uwb/data/UwbOwrAoaMeasurement".to_owned(),
        ctor_signature: "([BIIIIIIII)V".to_owned(),
        object: ElementObject { address: address_bytes(m.mac_address, n), fields: int_fields(ints) },
    }
}

/// A copy of a byte vector.
pub(crate) fn copy_bytes(v: &Vec<u8>) -> (r: Vec<u8>)
    ensures
        r@ == v@,
{
    let mut r: Vec<u8> = Vec::new();
    let mut i: usize = 0;
    while i < v.len()
        invariant
            i <= v@.len(),
            r@ == v@.subrange(0, i as int),
        decreases v@.len() - i,
    {
        r.push(v[i]);
        i = i + 1;
        assert(r@ =~= v@.subrange(0, i as int));
    }
    assert(v@.subrange(0, v@.len() as int) =~= v@);
    r
}

fn dl_tdoa_element(m: &DlTdoaRangingMeasurement, n: usize) -> (e: ElementObject)
    requires
        n <= 8,
    ensures
        e.address@ == le_bytes(m.mac_address as nat, n as nat),
        is_dl_tdoa_fields(e.fields@, *m),
{
    let mut f: Vec<ScalarArg> = Vec::new();
    f.push(ScalarArg::Int(m.status as i32));
    f.push(ScalarArg::Int(m.message_type as i32));
    f.push(ScalarArg::Int(m.message_control as i32));
    f.push(ScalarArg::Int(m.block_index as i32));
    f.push(ScalarArg::Int(m.round_index as i32));
    f.push(ScalarArg::Int(m.nlos as i32));
    f.push(ScalarArg::Int(m.aoa_azimuth as i32));
    f.push(ScalarArg::Int(m.aoa_azimuth_fom as i32));
    f.push(ScalarArg::Int(m.aoa_elevation as i32));
    f.push(ScalarArg::Int(m.aoa_elevation_fom as i32));
    f.push(ScalarArg::Int(m.rssi as i32));
    f.push(ScalarArg::Long(m.tx_timestamp as i64));
    f.push(ScalarArg::Long(m.rx_timestamp as i64));
    f.push(ScalarArg::Int(m.anchor_cfo as i32));
    f.push(ScalarArg::Int(m.cfo as i32));
    f.push(ScalarArg::Long(m.initiator_reply_time as i64));
    f.push(ScalarArg::Long(m.responder_reply_time as i64));
    f.push(ScalarArg::Int(m.initiator_responder_tof as i32));
    f.push(ScalarArg::Bytes(copy_bytes(&m.dt_anchor_location)));
    f.push(ScalarArg::Bytes(copy_bytes(&m.ranging_rounds)));
    ElementObject { address: address_bytes(m.mac_address, n), fields: f }
}

fn dl_tdoa_array(extended: bool, measurements: &Vec<DlTdoaRangingMeasurement>) -> (a: ObjectArray)
    ensures
        is_dl_tdoa_array(a, extended, measurements@),
{
    let n: usize = if extended { 8 } else { 2 };
    let mut elements: Vec<ElementObject> = Vec::new();
    let mut i: usize = 0;
    while i < measurements.len()
        invariant
            i <= measurements@.len(),
            n == address_len(extended),
            elements@.len() == i,
            forall|j: int|
                0 <= j < i ==> {
                    &&& (#[trigger] elements@[j]).address@ == le_bytes(
                        measurements@[j].mac_address as nat,
                        address_len(extended),
                    )
                    &&& is_dl_tdoa_fields(elements@[j].fields@, measurements@[j])
                },
        decreases measurements@.len() - i,
    {
        let e = dl_tdoa_element(&measurements[i], n);
        elements.push(e);
        i = i + 1;
    }
    ObjectArray {
        class_name: "com/android/server/uwb/data/UwbDlTDoAMeasurement".to_owned(),
        ctor_signature: "([BIIIIIIIIIIIJJIIJJI[B[B)V".to_owned(),
        elements,
    }
}

/// Builds the array of measurement objects of a two-way ranging round.
fn two_way_array(extended: bool, measurements: &Vec<TwoWayRangingMeasurement>) -> (a: ObjectArray)
    ensures
        is_two_way_array(a, extended, measurements@),
{
    let n: usize = if extended { 8 } else { 2 };
    let mut elements: Vec<ElementObject> = Vec::new();
    let mut i: usize = 0;
    while i < measurements.len()
        invariant
            i <= measurements@.len(),
            n == address_len(extended),
            elements@.len() == i,
            forall|j: int|
                0 <= j < i ==> {
                    &&& (#[trigger] elements@[j]).address@ == le_bytes(
                        measurements@[j].mac_address as nat,
                        address_len(extended),
                    )
                    &&& ints_match(elements@[j].fields@, two_way_ints(measurements@[j]))
                },
        decreases measurements@.len() - i,
    {
        let e = two_way_element(&measurements[i], n);
        elements.push(e);
        i = i + 1;
    }
    ObjectArray {
        class_name: "com/android/server/uwb/data/UwbTwoWayMeasurement".to_owned(),
        ctor_signature: "([BIIIIIIIIIIIII)V".to_owned(),
        elements,
    }
}

/// Encodes one event of a chip as the host callback that reports it.
pub fn encode_event(event: NotificationEvent, chip_id: &str) -> (r: Result<Option<CallbackCall>, UwbError>)
    ensures
        encode_ok(event, chip_id@, r),
{
    let mut args: Vec<CallbackArg> = Vec::new();
    match event {
        NotificationEvent::ServiceReset { success } => {
            args.push(CallbackArg::Bool(success));
            Ok(Some(call("onServiceResetReceived", "(Z)V", args)))
        },
        NotificationEvent::DeviceStatus { state } => {
            args.push(CallbackArg::Int(state as i32));
            args.push(CallbackArg::Str(chip_id.to_owned()));
            Ok(Some(call("onDeviceStatusNotificationReceived", "(ILjava/lang/String;)V", args)))
        },
        NotificationEvent::GenericError { status } => {
            args.push(CallbackArg::Int(status as i32));
            args.push(CallbackArg::Str(chip_id.to_owned()));
            Ok(Some(call("onCoreGenericErrorNotificationReceived", "(ILjava/lang/String;)V", args)))
        },
        NotificationEvent::SessionStatus { session_id, state, reason } => {
            args.push(CallbackArg::Long(session_id as i64));
            args.push(CallbackArg::Int(state as i32));
            args.push(CallbackArg::Int(reason as i32));
            Ok(Some(call("onSessionStatusNotificationReceived", "(JII)V", args)))
        },
        NotificationEvent::MulticastListUpdate { session_id, remaining, status_list } => {
            if remaining as u64 > HOST_INT_MAX || status_list.len() as u64 > HOST_INT_MAX {
                return Err(UwbError::BadParameters);
            }
            let o = multicast_status(session_id, remaining, &status_list);
            args.push(CallbackArg::Object(o));
            Ok(
                Some(
                    call(
                        "onMulticastListUpdateNotificationReceived",
                        "(Lcom/android/server/uwb/data/UwbMulticastListUpdateStatus;)V",
                        args,
                    ),
                ),
            )
        },
        NotificationEvent::Vendor { gid, oid, payload } => {
            if gid as u64 > HOST_INT_MAX || oid as u64 > HOST_INT_MAX {
                return Err(UwbError::BadParameters);
            }
            args.push(CallbackArg::Int(gid as i32));
            args.push(CallbackArg::Int(oid as i32));
            args.push(CallbackArg::Bytes(payload));
            Ok(Some(call("onVendorUciNotificationReceived", "(II[B)V", args)))
        },
        NotificationEvent::DataReceive {
            session_id,
            status,
            sequence,
            source_address,
            source_component,
            dest_component,
            payload,
        } => {
            args.push(CallbackArg::Long(session_id as i64));
            args.push(CallbackArg::Int(status as i32));
            args.push(CallbackArg::Long(sequence as i64));
            args.push(CallbackArg::Bytes(source_address));
            args.push(CallbackArg::Int(source_component as i32));
            args.push(CallbackArg::Int(dest_component as i32));
            args.push(CallbackArg::Bytes(payload));
            Ok(Some(call("onDataReceived", "(JIJ[BII[B)V", args)))
        },
        NotificationEvent::TwoWayRangeData {
            sequence_number,
            session_id,
            rcr_indicator,
            current_ranging_interval_ms,
            ranging_measurement_type,
            extended_addresses,
            measurements,
            raw_ranging_data,
        } => {
            if ranging_measurement_type != TWO_WAY_MEASUREMENT || measurements.len() as u64 > HOST_INT_MAX {
                return Err(UwbError::ForeignFunctionInterface);
            }
            let mut fields: Vec<FieldArg> = Vec::new();
            fields.push(FieldArg::Long(sequence_number as i64));
            fields.push(FieldArg::Long(session_id as i64));
            fields.push(FieldArg::Int(rcr_indicator as i32));
            fields.push(FieldArg::Long(current_ranging_interval_ms as i64));
            fields.push(FieldArg::Int(ranging_measurement_type as i32));
            fields.push(FieldArg::Int(if extended_addresses { 1 } else { 0 }));
            fields.push(FieldArg::Int(measurements.len() as i32));
            fields.push(FieldArg::Objects(two_way_array(extended_addresses, &measurements)));
            fields.push(FieldArg::Bytes(raw_ranging_data));
            let o = NewObject {
                class_name: "com/android/server/uwb/data/UwbRangingData".to_owned(),
                ctor_signature: "(JJIJIII[Lcom/android/server/uwb/data/UwbTwoWayMeasurement;[B)V".to_owned(),
                args: fields,
            };
            args.push(CallbackArg::Object(o));
            Ok(
                Some(
                    call(
                        "onRangeDataNotificationReceived",
                        "(Lcom/android/server/uwb/data/UwbRangingData;)V",
                        args,
                    ),
                ),
            )
        },
        NotificationEvent::OwrAoaRangeData {
            sequence_number,
            session_id,
            rcr_indicator,
            current_ranging_interval_ms,
            ranging_measurement_type,
            extended_addresses,
            measurement,
            raw_ranging_data,
        } => {
            if ranging_measurement_type != OWR_AOA_MEASUREMENT {
                return Err(UwbError::ForeignFunctionInterface);
            }
            let mut fields: Vec<FieldArg> = Vec::new();
            fields.push(FieldArg::Long(sequence_number as i64));
            fields.push(FieldArg::Long(session_id as i64));
            fields.push(FieldArg::Int(rcr_indicator as i32));
            fields.push(FieldArg::Long(current_ranging_interval_ms as i64));
            fields.push(FieldArg::Int(ranging_measurement_type as i32));
            fields.push(FieldArg::Int(if extended_addresses { 1 } else { 0 }));
            fields.push(FieldArg::Int(1));
            fields.push(FieldArg::Single(owr_aoa_object(&measurement, extended_addresses)));
            fields.push(FieldArg::Bytes(raw_ranging_data));
            let o = NewObject {
                class_name: "com/android/server/uwb/data/UwbRangingData".to_owned(),
                ctor_signature: "(JJIJIIILcom/android/server/uwb/data/UwbOwrAoaMeasurement;[B)V".to_owned(),
                args: fields,
            };
            args.push(CallbackArg::Object(o));
            Ok(
                Some(
                    call(
                        "onRangeDataNotificationReceived",
                        "(Lcom/android/server/uwb/data/UwbRangingData;)V",
                        args,
                    ),
                ),
            )
        },
        NotificationEvent::DlTdoaRangeData {
            sequence_number,
            session_id,
            rcr_indicator,
            current_ranging_interval_ms,
            ranging_measurement_type,
            extended_addresses,
            measurements,
            raw_ranging_data,
        } => {
            if measurements.len() as u64 > HOST_INT_MAX {
                return Err(UwbError::BadParameters);
            }
            let mut fields: Vec<FieldArg> = Vec::new();
            fields.push(FieldArg::Long(sequence_number as i64));
            fields.push(FieldArg::Long(session_id as i64));
            fields.push(FieldArg::Int(rcr_indicator as i32));
            fields.push(FieldArg::Long(current_ranging_interval_ms as i64));
            fields.push(FieldArg::Int(ranging_measurement_type as i32));
            fields.push(FieldArg::Int(if extended_addresses { 1 } else { 0 }));
            fields.push(FieldArg::Int(measurements.len() as i32));
            fields.push(FieldArg::Objects(dl_tdoa_array(extended_addresses, &measurements)));
            fields.push(FieldArg::Bytes(raw_ranging_data));
            let o = NewObject {
                class_name: "com/android/server/uwb/data/UwbRangingData".to_owned(),
                ctor_signature: "(JJIJIII[Lcom/android/server/uwb/data/UwbDlTDoAMeasurement;[B)V".to_owned(),
                args: fields,
            };
            args.push(CallbackArg::Object(o));
            Ok(
                Some(
                    call(
                        "onRangeDataNotificationReceived",
                        "(Lcom/android/server/uwb/data/UwbRangingData;)V",
                        args,
                    ),
                ),
            )
        },
        NotificationEvent::DataCredit { .. } => Ok(None),
        NotificationEvent::DataTransferStatus { .. } => Ok(None),
    }
}


/// Encodes a chip's events in the order its worker produced them: the `i`-th
/// outcome is that of the `i`-th event, so the host observes the events in
/// order. A failed event is reported in its place and never retried.
pub fn encode_in_order(events: Vec<NotificationEvent>, chip_id: &str) -> (r: Vec<
    Result<Option<CallbackCall>, UwbError>,
>)
    ensures
        r@.len() == events@.len(),
        forall|i: int| 0 <= i < events@.len() ==> encode_ok(#[trigger] events@[i], chip_id@, r@[i]),
{
    encode_rest(events, Ghost(events@), chip_id)
}

fn encode_rest(
    mut pending: Vec<NotificationEvent>,
    Ghost(events): Ghost<Seq<NotificationEvent>>,
    chip_id: &str,
) -> (r: Vec<Result<Option<CallbackCall>, UwbError>>)
    requires
        pending@ == events,
    ensures
        r@.len() == events.len(),
        forall|i: int| 0 <= i < events.len() ==> encode_ok(#[trigger] events[i], chip_id@, r@[i]),
{
    let mut out: Vec<Result<Option<CallbackCall>, UwbError>> = Vec::new();
    while pending.len() > 0
        invariant
            out@.len() + pending@.len() == events.len(),
            pending@ == events.subrange(out@.len() as int, events.len() as int),
            forall|i: int| 0 <= i < out@.len() ==> encode_ok(#[trigger] events[i], chip_id@, out@[i]),
        decreases pending@.len(),
    {
        let ghost k = out@.len() as int;
        let ghost before = pending@;
        let event = pending.remove(0);
        assert(events[k] == before[0]);
        let outcome = encode_event(event, chip_id);
        out.push(outcome);
        assert(pending@ =~= events.subrange(k + 1, events.len() as int));
    }
    out
}

} // verus!
