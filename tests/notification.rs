use uwb_dispatch::notification::{
    encode_event, encode_in_order, CallbackArg, CallbackCall, ControleeStatus, FieldArg, NotificationEvent,
};
use uwb_dispatch::status::UwbError;

fn int_arg(a: &CallbackArg) -> i32 {
    match a {
        CallbackArg::Int(v) => *v,
        _ => panic!("int expected"),
    }
}

fn long_arg(a: &CallbackArg) -> i64 {
    match a {
        CallbackArg::Long(v) => *v,
        _ => panic!("long expected"),
    }
}

fn bytes(a: &CallbackArg) -> Vec<u8> {
    match a {
        CallbackArg::Bytes(v) => v.clone(),
        _ => panic!("bytes expected"),
    }
}

fn some(r: Result<Option<CallbackCall>, UwbError>) -> CallbackCall {
    r.unwrap().unwrap()
}

#[test]
fn device_status_carries_chip_id() {
    let c = some(encode_event(NotificationEvent::DeviceStatus { state: 1 }, "chip0"));
    assert_eq!(c.method, "onDeviceStatusNotificationReceived");
    assert_eq!(c.signature, "(ILjava/lang/String;)V");
    assert_eq!(int_arg(&c.args[0]), 1);
    match &c.args[1] {
        CallbackArg::Str(s) => assert_eq!(s, "chip0"),
        _ => panic!("string expected"),
    }
}

#[test]
fn generic_error_layout() {
    let c = some(encode_event(NotificationEvent::GenericError { status: 0x0a }, "c1"));
    assert_eq!(c.method, "onCoreGenericErrorNotificationReceived");
    assert_eq!(int_arg(&c.args[0]), 10);
}

#[test]
fn session_status_layout() {
    let ev = NotificationEvent::SessionStatus { session_id: 0xffff_fffe, state: 2, reason: 0x21 };
    let c = some(encode_event(ev, "c"));
    assert_eq!(c.method, "onSessionStatusNotificationReceived");
    assert_eq!(c.signature, "(JII)V");
    assert_eq!(long_arg(&c.args[0]), 0xffff_fffe);
    assert_eq!(int_arg(&c.args[1]), 2);
    assert_eq!(int_arg(&c.args[2]), 0x21);
}

#[test]
fn service_reset_layout() {
    let c = some(encode_event(NotificationEvent::ServiceReset { success: true }, "c"));
    assert_eq!(c.method, "onServiceResetReceived");
    assert_eq!(c.signature, "(Z)V");
    assert!(matches!(c.args[0], CallbackArg::Bool(true)));
}

#[test]
fn multicast_update_builds_status_object() {
    let list = vec![
        ControleeStatus { mac_address: 0x1234, subsession_id: 7, status: 0 },
        ControleeStatus { mac_address: 0x0002, subsession_id: 8, status: 3 },
    ];
    let ev = NotificationEvent::MulticastListUpdate { session_id: 9, remaining: 4, status_list: list };
    let c = some(encode_event(ev, "c"));
    assert_eq!(c.method, "onMulticastListUpdateNotificationReceived");
    assert_eq!(c.signature, "(Lcom/android/server/uwb/data/UwbMulticastListUpdateStatus;)V");
    match &c.args[0] {
        CallbackArg::Object(o) => {
            assert_eq!(o.class_name, "com/android/server/uwb/data/UwbMulticastListUpdateStatus");
            assert_eq!(o.ctor_signature, "(JII[I[J[I)V");
            assert!(matches!(o.args[0], FieldArg::Long(9)));
            assert!(matches!(o.args[1], FieldArg::Int(4)));
            assert!(matches!(o.args[2], FieldArg::Int(2)));
            match (&o.args[3], &o.args[4], &o.args[5]) {
                (FieldArg::IntArray(m), FieldArg::LongArray(s), FieldArg::IntArray(st)) => {
                    assert_eq!(m, &vec![0x1234, 2]);
                    assert_eq!(s, &vec![7, 8]);
                    assert_eq!(st, &vec![0, 3]);
                }
                _ => panic!("arrays expected"),
            }
        }
        _ => panic!("object expected"),
    }
}

#[test]
fn multicast_update_with_oversized_remaining_fails() {
    let ev = NotificationEvent::MulticastListUpdate { session_id: 1, remaining: 0x8000_0000, status_list: vec![] };
    assert_eq!(encode_event(ev, "c").err(), Some(UwbError::BadParameters));
}

#[test]
fn vendor_notification_layout() {
    let c = some(encode_event(NotificationEvent::Vendor { gid: 9, oid: 1, payload: vec![5, 6] }, "c"));
    assert_eq!(c.method, "onVendorUciNotificationReceived");
    assert_eq!(c.signature, "(II[B)V");
    assert_eq!(int_arg(&c.args[0]), 9);
    assert_eq!(int_arg(&c.args[1]), 1);
    assert_eq!(bytes(&c.args[2]), vec![5, 6]);
}

#[test]
fn vendor_notification_with_large_gid_fails() {
    let ev = NotificationEvent::Vendor { gid: 0x8000_0000, oid: 1, payload: vec![] };
    assert_eq!(encode_event(ev, "c").err(), Some(UwbError::BadParameters));
}

#[test]
fn data_receive_layout() {
    let ev = NotificationEvent::DataReceive {
        session_id: 3,
        status: 0,
        sequence: 11,
        source_address: vec![0x12, 0x34],
        source_component: 1,
        dest_component: 2,
        payload: vec![9, 9, 9],
    };
    let c = some(encode_event(ev, "c"));
    assert_eq!(c.method, "onDataReceived");
    assert_eq!(c.signature, "(JIJ[BII[B)V");
    assert_eq!(long_arg(&c.args[0]), 3);
    assert_eq!(int_arg(&c.args[1]), 0);
    assert_eq!(long_arg(&c.args[2]), 11);
    assert_eq!(bytes(&c.args[3]), vec![0x12, 0x34]);
    assert_eq!(int_arg(&c.args[4]), 1);
    assert_eq!(int_arg(&c.args[5]), 2);
    assert_eq!(bytes(&c.args[6]), vec![9, 9, 9]);
}

#[test]
fn internal_events_do_not_reach_host() {
    assert!(encode_event(NotificationEvent::DataCredit { session_id: 1, available: true }, "c").unwrap().is_none());
    let ev = NotificationEvent::DataTransferStatus { session_id: 1, sequence: 2, status: 0 };
    assert!(encode_event(ev, "c").unwrap().is_none());
}

#[test]
fn events_are_encoded_in_order() {
    let events: Vec<NotificationEvent> =
        (0..5u32).map(|i| NotificationEvent::SessionStatus { session_id: i, state: 0, reason: 0 }).collect();
    let out = encode_in_order(events, "A");
    assert_eq!(out.len(), 5);
    for (i, r) in out.into_iter().enumerate() {
        let c = r.unwrap().unwrap();
        assert_eq!(long_arg(&c.args[0]), i as i64);
    }
}

#[test]
fn failed_event_keeps_its_place() {
    let events = vec![
        NotificationEvent::DeviceStatus { state: 1 },
        NotificationEvent::Vendor { gid: u32::MAX, oid: 0, payload: vec![] },
        NotificationEvent::DeviceStatus { state: 2 },
    ];
    let out = encode_in_order(events, "A");
    assert_eq!(out.len(), 3);
    assert!(out[1].is_err());
    assert_eq!(int_arg(&out[2].as_ref().unwrap().as_ref().unwrap().args[0]), 2);
}

use uwb_dispatch::notification::{address_bytes, TwoWayRangingMeasurement};

fn measurement(mac: u64, distance: u16) -> TwoWayRangingMeasurement {
    TwoWayRangingMeasurement {
        mac_address: mac,
        status: 0,
        nlos: 1,
        distance,
        aoa_azimuth: 2,
        aoa_azimuth_fom: 3,
        aoa_elevation: 4,
        aoa_elevation_fom: 5,
        aoa_destination_azimuth: 6,
        aoa_destination_azimuth_fom: 7,
        aoa_destination_elevation: 8,
        aoa_destination_elevation_fom: 9,
        slot_index: 10,
        rssi: 11,
    }
}

#[test]
fn address_bytes_are_little_endian() {
    assert_eq!(address_bytes(0x1234, 2), vec![0x34, 0x12]);
    assert_eq!(address_bytes(0x0102030405060708, 8), vec![8, 7, 6, 5, 4, 3, 2, 1]);
    assert_eq!(address_bytes(0xabcdef, 2), vec![0xef, 0xcd]);
}

#[test]
fn two_way_range_data_layout() {
    let ev = NotificationEvent::TwoWayRangeData {
        sequence_number: 4,
        session_id: 77,
        rcr_indicator: 1,
        current_ranging_interval_ms: 200,
        ranging_measurement_type: 1,
        extended_addresses: false,
        measurements: vec![measurement(0x0a0b, 150), measurement(0x0c0d, 42)],
        raw_ranging_data: vec![0xde, 0xad],
    };
    let c = some(encode_event(ev, "c"));
    assert_eq!(c.method, "onRangeDataNotificationReceived");
    assert_eq!(c.signature, "(Lcom/android/server/uwb/data/UwbRangingData;)V");
    let o = match &c.args[0] {
        CallbackArg::Object(o) => o,
        _ => panic!("object expected"),
    };
    assert_eq!(o.class_name, "com/android/server/uwb/data/UwbRangingData");
    assert!(matches!(o.args[0], FieldArg::Long(4)));
    assert!(matches!(o.args[1], FieldArg::Long(77)));
    assert!(matches!(o.args[3], FieldArg::Long(200)));
    assert!(matches!(o.args[5], FieldArg::Int(0)));
    assert!(matches!(o.args[6], FieldArg::Int(2)));
    match &o.args[7] {
        FieldArg::Objects(a) => {
            assert_eq!(a.class_name, "com/android/server/uwb/data/UwbTwoWayMeasurement");
            assert_eq!(a.elements.len(), 2);
            assert_eq!(a.elements[0].address, vec![0x0b, 0x0a]);
            assert_eq!(ints_of(&a.elements[1].fields), vec![0, 1, 42, 2, 3, 4, 5, 6, 7, 8, 9, 10, 11]);
        }
        _ => panic!("objects expected"),
    }
    match &o.args[8] {
        FieldArg::Bytes(b) => assert_eq!(b, &vec![0xde, 0xad]),
        _ => panic!("bytes expected"),
    }
}

#[test]
fn range_data_of_other_type_fails() {
    let ev = NotificationEvent::TwoWayRangeData {
        sequence_number: 0,
        session_id: 0,
        rcr_indicator: 0,
        current_ranging_interval_ms: 0,
        ranging_measurement_type: 3,
        extended_addresses: true,
        measurements: vec![],
        raw_ranging_data: vec![],
    };
    assert_eq!(encode_event(ev, "c").err(), Some(UwbError::ForeignFunctionInterface));
}

use uwb_dispatch::notification::OwrAoaRangingMeasurement;

#[test]
fn owr_aoa_range_data_layout() {
    let m = OwrAoaRangingMeasurement {
        mac_address: 0x0102030405060708,
        status: 0,
        nlos: 1,
        frame_sequence_number: 2,
        block_index: 3,
        aoa_azimuth: 4,
        aoa_azimuth_fom: 5,
        aoa_elevation: 6,
        aoa_elevation_fom: 7,
    };
    let ev = NotificationEvent::OwrAoaRangeData {
        sequence_number: 1,
        session_id: 2,
        rcr_indicator: 0,
        current_ranging_interval_ms: 100,
        ranging_measurement_type: 3,
        extended_addresses: true,
        measurement: m,
        raw_ranging_data: vec![1],
    };
    let c = some(encode_event(ev, "c"));
    let o = match &c.args[0] {
        CallbackArg::Object(o) => o,
        _ => panic!("object expected"),
    };
    assert_eq!(o.ctor_signature, "(JJIJIIILcom/android/server/uwb/data/UwbOwrAoaMeasurement;[B)V");
    assert!(matches!(o.args[5], FieldArg::Int(1)));
    assert!(matches!(o.args[6], FieldArg::Int(1)));
    match &o.args[7] {
        FieldArg::Single(s) => {
            assert_eq!(s.class_name, "com/android/server/uwb/data/UwbOwrAoaMeasurement");
            assert_eq!(s.object.address, vec![8, 7, 6, 5, 4, 3, 2, 1]);
            assert_eq!(ints_of(&s.object.fields), vec![0, 1, 2, 3, 4, 5, 6, 7]);
        }
        _ => panic!("single object expected"),
    }
}

use uwb_dispatch::notification::{DlTdoaRangingMeasurement, ScalarArg};

fn ints_of(fields: &[ScalarArg]) -> Vec<i32> {
    fields
        .iter()
        .map(|f| match f {
            ScalarArg::Int(v) => *v,
            _ => panic!("int expected"),
        })
        .collect()
}

#[test]
fn dl_tdoa_range_data_layout() {
    let m = DlTdoaRangingMeasurement {
        mac_address: 0xbeef,
        status: 0,
        message_type: 1,
        message_control: 2,
        block_index: 3,
        round_index: 4,
        nlos: 5,
        aoa_azimuth: 6,
        aoa_azimuth_fom: 7,
        aoa_elevation: 8,
        aoa_elevation_fom: 9,
        rssi: 10,
        tx_timestamp: u64::MAX,
        rx_timestamp: 12,
        anchor_cfo: 13,
        cfo: 14,
        initiator_reply_time: 15,
        responder_reply_time: 16,
        initiator_responder_tof: 17,
        dt_anchor_location: vec![1, 2, 3],
        ranging_rounds: vec![4],
    };
    let ev = NotificationEvent::DlTdoaRangeData {
        sequence_number: 1,
        session_id: 2,
        rcr_indicator: 0,
        current_ranging_interval_ms: 100,
        ranging_measurement_type: 2,
        extended_addresses: false,
        measurements: vec![m],
        raw_ranging_data: vec![],
    };
    let c = some(encode_event(ev, "c"));
    let o = match &c.args[0] {
        CallbackArg::Object(o) => o,
        _ => panic!("object expected"),
    };
    assert_eq!(o.ctor_signature, "(JJIJIII[Lcom/android/server/uwb/data/UwbDlTDoAMeasurement;[B)V");
    match &o.args[7] {
        FieldArg::Objects(a) => {
            assert_eq!(a.ctor_signature, "([BIIIIIIIIIIIJJIIJJI[B[B)V");
            let e = &a.elements[0];
            assert_eq!(e.address, vec![0xef, 0xbe]);
            assert_eq!(e.fields.len(), 20);
            assert!(matches!(e.fields[11], ScalarArg::Long(-1)));
            assert!(matches!(e.fields[16], ScalarArg::Long(16)));
            assert!(matches!(e.fields[17], ScalarArg::Int(17)));
            match (&e.fields[18], &e.fields[19]) {
                (ScalarArg::Bytes(a), ScalarArg::Bytes(r)) => {
                    assert_eq!(a, &vec![1, 2, 3]);
                    assert_eq!(r, &vec![4]);
                }
                _ => panic!("bytes expected"),
            }
        }
        _ => panic!("objects expected"),
    }
}
