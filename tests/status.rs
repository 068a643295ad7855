use uwb_dispatch::status::{
    boolean_result_helper, byte_result_helper, option_result_helper, result_to_status_code, StatusCode,
    UwbError,
};

#[test]
fn test_boolean_result_helper() {
    assert_eq!(true, boolean_result_helper(Ok(()), "Foo"));
    assert_eq!(false, boolean_result_helper::<()>(Err(UwbError::Unknown), "Foo"));
}

#[test]
fn test_byte_result_helper() {
    assert_eq!(StatusCode::UciStatusOk.to_i8(), byte_result_helper(Ok(()), "Foo"));
    assert_eq!(StatusCode::UciStatusFailed.to_i8(), byte_result_helper::<()>(Err(UwbError::Unknown), "Foo"));
    // An error that carries a device status collapses to the generic failure.
    assert_eq!(
        StatusCode::UciStatusFailed.to_i8(),
        byte_result_helper::<()>(Err(UwbError::ProtocolSpecific), "Foo")
    );
}

#[test]
fn status_code_values() {
    assert_eq!(StatusCode::UciStatusOk.to_i8(), 0);
    assert_eq!(StatusCode::UciStatusFailed.to_i8(), 2);
    assert_eq!(StatusCode::UciStatusInvalidParam.to_i8(), 4);
    assert_eq!(StatusCode::UciStatusCommandRetry.to_i8(), 0x0a);
    assert_eq!(StatusCode::UciStatusMaxSessionsExceeded.to_i8(), 0x14);
}

#[test]
fn classified_errors_keep_their_codes() {
    assert_eq!(byte_result_helper::<()>(Err(UwbError::BadParameters), "x"), 4);
    assert_eq!(byte_result_helper::<()>(Err(UwbError::MaxSessionsExceeded), "x"), 0x14);
    assert_eq!(byte_result_helper::<()>(Err(UwbError::CommandRetry), "x"), 0x0a);
    assert_eq!(byte_result_helper::<()>(Err(UwbError::Timeout), "x"), 2);
    assert_eq!(result_to_status_code::<u8>(&Err(UwbError::DuplicatedSessionId)), StatusCode::UciStatusFailed);
}

#[test]
fn option_helper_keeps_value() {
    assert_eq!(option_result_helper(Ok(5u8), "x"), Some(5));
    assert_eq!(option_result_helper::<u8>(Err(UwbError::Unknown), "x"), None);
}
