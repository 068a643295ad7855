use uwb_dispatch::notification::FieldArg;
use uwb_dispatch::status::UwbError;
use uwb_dispatch::tlv::{
    create_set_config_response, create_tlv_response, encode_tlv_bytes, parse_app_config_tlv_vec, ConfigStatus, Tlv,
};

/// A manager that accepts exactly one expected configuration.
struct ExpectingManager {
    session_id: u32,
    expected: Vec<(u8, Vec<u8>)>,
}

impl ExpectingManager {
    fn session_set_app_config(&self, session_id: u32, tlvs: Vec<Tlv>) -> Result<(), UwbError> {
        let got: Vec<(u8, Vec<u8>)> = tlvs.into_iter().map(|t| (t.t, t.v)).collect();
        if session_id == self.session_id && got == self.expected {
            Ok(())
        } else {
            Err(UwbError::BadParameters)
        }
    }
}

#[test]
fn test_native_set_app_configurations() {
    let manager = ExpectingManager {
        session_id: 42,
        expected: vec![(0, vec![1]), (1, vec![1])],
    };
    let app_config_byte_array: Vec<u8> = vec![
        0, 1, 1, // DeviceType: controller
        1, 1, 1, // RangingRoundUsage: DS_TWR
    ];
    let tlvs = parse_app_config_tlv_vec(2, &app_config_byte_array).unwrap();
    assert!(manager.session_set_app_config(42, tlvs).is_ok());
}

#[test]
fn parse_rejects_short_and_leftover_bytes() {
    assert_eq!(parse_app_config_tlv_vec(1, &vec![0, 2, 1]).err(), Some(UwbError::BadParameters));
    assert_eq!(parse_app_config_tlv_vec(1, &vec![0]).err(), Some(UwbError::BadParameters));
    assert_eq!(parse_app_config_tlv_vec(1, &vec![0, 1, 1, 9]).err(), Some(UwbError::BadParameters));
    assert_eq!(parse_app_config_tlv_vec(2, &vec![0, 1, 1]).err(), Some(UwbError::BadParameters));
    assert!(parse_app_config_tlv_vec(0, &vec![]).unwrap().is_empty());
    assert!(parse_app_config_tlv_vec(-3, &vec![]).unwrap().is_empty());
    assert_eq!(parse_app_config_tlv_vec(-1, &vec![1]).err(), Some(UwbError::BadParameters));
}

#[test]
fn parse_reads_empty_payload() {
    let tlvs = parse_app_config_tlv_vec(2, &vec![7, 0, 8, 2, 0xaa, 0xbb]).unwrap();
    assert_eq!(tlvs.len(), 2);
    assert_eq!((tlvs[0].t, tlvs[0].v.clone()), (7, vec![]));
    assert_eq!((tlvs[1].t, tlvs[1].v.clone()), (8, vec![0xaa, 0xbb]));
}

#[test]
fn encode_then_parse_gives_records_back() {
    let tlvs = vec![Tlv { t: 3, v: vec![1, 2, 3] }, Tlv { t: 9, v: vec![] }];
    let bytes = encode_tlv_bytes(&tlvs);
    assert_eq!(bytes, vec![3, 3, 1, 2, 3, 9, 0]);
    let back = parse_app_config_tlv_vec(2, &bytes).unwrap();
    assert_eq!(back.len(), 2);
    assert_eq!(back[0].v, vec![1, 2, 3]);
    assert_eq!(back[1].t, 9);
}

#[test]
fn config_status_response_layout() {
    let statuses = vec![ConfigStatus { cfg_id: 1, status: 0 }, ConfigStatus { cfg_id: 5, status: 4 }];
    let o = create_set_config_response(4, &statuses);
    assert_eq!(o.class_name, "com/android/server/uwb/data/UwbConfigStatusData");
    assert_eq!(o.ctor_signature, "(II[B)V");
    assert!(matches!(o.args[0], FieldArg::Int(4)));
    assert!(matches!(o.args[1], FieldArg::Int(2)));
    match &o.args[2] {
        FieldArg::Bytes(b) => assert_eq!(b, &vec![1, 0, 5, 4]),
        _ => panic!("bytes expected"),
    }
}

#[test]
fn tlv_response_layout() {
    let o = create_tlv_response(&vec![Tlv { t: 0xe3, v: vec![1] }]);
    assert_eq!(o.class_name, "com/android/server/uwb/data/UwbTlvData");
    assert!(matches!(o.args[0], FieldArg::Int(0)));
    assert!(matches!(o.args[1], FieldArg::Int(1)));
    match &o.args[2] {
        FieldArg::Bytes(b) => assert_eq!(b, &vec![0xe3, 1, 1]),
        _ => panic!("bytes expected"),
    }
}
