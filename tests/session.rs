use uwb_dispatch::session::{byte_or_failure, session_id_from_host, session_type_from_host, SessionType};
use uwb_dispatch::status::UwbError;

#[test]
fn session_types_from_host_bytes() {
    assert_eq!(session_type_from_host(0), Ok(SessionType::FiraRangingSession));
    assert_eq!(session_type_from_host(5), Ok(SessionType::FiraRangingWithDataPhase));
    assert_eq!(session_type_from_host(0xa0u8 as i8), Ok(SessionType::Ccc));
    assert_eq!(session_type_from_host(0xd0u8 as i8), Ok(SessionType::DeviceTestMode));
    assert_eq!(session_type_from_host(6), Err(UwbError::BadParameters));
    assert_eq!(SessionType::from_u8(0xff), None);
}

#[test]
fn session_ids_keep_their_bits() {
    assert_eq!(session_id_from_host(1234), 1234);
    assert_eq!(session_id_from_host(-1), u32::MAX);
}

#[test]
fn count_or_failure_byte() {
    assert_eq!(byte_or_failure(Ok(5)), 5);
    assert_eq!(byte_or_failure(Err(UwbError::Timeout)), -1);
}

use uwb_dispatch::session::{build_controlees, UpdateMulticastListAction};

#[test]
fn controlees_without_keys() {
    let (a, list) = build_controlees(0, 2, &vec![0x0102, -1], &vec![5, -2], &vec![]).ok().unwrap();
    assert_eq!(a, UpdateMulticastListAction::AddControlee);
    assert_eq!(list.len(), 2);
    assert_eq!((list[0].short_address, list[0].subsession_id), (0x0102, 5));
    assert_eq!((list[1].short_address, list[1].subsession_id), (0xffff, u32::MAX - 1));
    assert!(list[1].subsession_key.is_empty());
}

#[test]
fn controlees_with_short_keys() {
    let keys: Vec<u8> = (0..32).collect();
    let (a, list) = build_controlees(2, 2, &vec![1, 2], &vec![3, 4], &keys).ok().unwrap();
    assert_eq!(a, UpdateMulticastListAction::AddControleeWithShortSubSessionKey);
    assert_eq!(list[0].subsession_key, (0..16).collect::<Vec<u8>>());
    assert_eq!(list[1].subsession_key, (16..32).collect::<Vec<u8>>());
}

#[test]
fn controlees_with_partial_long_key_are_refused() {
    let keys: Vec<u8> = vec![0; 40];
    assert!(build_controlees(3, 2, &vec![1, 2], &vec![3, 4], &keys).is_err());
    assert!(build_controlees(3, 1, &vec![1], &vec![3], &vec![0; 32]).is_ok());
}

#[test]
fn controlee_arrays_must_agree() {
    assert_eq!(build_controlees(0, 2, &vec![1], &vec![3, 4], &vec![]).err(), Some(UwbError::BadParameters));
    assert_eq!(build_controlees(0, 1, &vec![1, 2], &vec![3, 4], &vec![]).err(), Some(UwbError::BadParameters));
    assert_eq!(build_controlees(0, -1, &vec![], &vec![], &vec![]).err(), Some(UwbError::BadParameters));
    assert_eq!(build_controlees(7, 0, &vec![], &vec![], &vec![]).err(), Some(UwbError::BadParameters));
}

use uwb_dispatch::session::{session_state_byte, SessionState};

#[test]
fn session_state_bytes() {
    assert_eq!(session_state_byte(Ok(SessionState::SessionStateInit)), 0);
    assert_eq!(session_state_byte(Ok(SessionState::SessionStateIdle)), 3);
    assert_eq!(session_state_byte(Err(UwbError::BadParameters)), -1);
}
