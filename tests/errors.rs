use ads_client::{AdsError, AdsErrorCode, AdsTimeout, ADSERR_CLIENT_SYNCTIMEOUT};

#[test]
fn error_codes_round_trip() {
    assert_eq!(AdsErrorCode::ERR_NOERROR.code(), 0);
    assert_eq!(AdsErrorCode::ERR_PORTDISABLED.code(), 18);
    assert_eq!(AdsErrorCode::ADSERR_CLIENT_SYNCTIMEOUT.code(), ADSERR_CLIENT_SYNCTIMEOUT);
    assert_eq!(AdsErrorCode::WSAEHOSTUNREACH.code(), 10065);
    assert_eq!(AdsErrorCode::from_code(1798), AdsErrorCode::ADSERR_DEVICE_INVALIDDATA);
    assert_eq!(AdsErrorCode::from_code(4122), AdsErrorCode::RTERR_VMXENABLEFAILS);
    assert_eq!(AdsErrorCode::from_code(31), AdsErrorCode::UNKNOWN);
    assert_eq!(AdsErrorCode::from_code(10062), AdsErrorCode::UNKNOWN);
}

#[test]
fn error_code_from_error() {
    let e = AdsError::new(0x745, "Timeout");
    assert_eq!(AdsErrorCode::from(e), AdsErrorCode::ADSERR_CLIENT_SYNCTIMEOUT);
    let e = AdsError::new(99999, "?");
    assert_eq!(AdsErrorCode::from(e), AdsErrorCode::UNKNOWN);
}

#[test]
fn timeout_seconds() {
    assert_eq!(AdsTimeout::DefaultTimeout.seconds(), 5);
    assert_eq!(AdsTimeout::CustomTimeout(12).seconds(), 12);
}
