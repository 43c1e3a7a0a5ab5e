use dev_core::wire::SERVICE_NAME;
use dev_core::{AppError, AppErrorCode, ErrorProtoExt, WireError};

#[test]
fn wire_round_trip_keeps_message_and_code() {
    for (message, code) in [("x", 4001), ("", 0), ("db down", 6001), ("odd", -3), ("s", 3002)] {
        let e = AppError { message: message.to_string(), code: AppErrorCode(code) };
        let back: AppError = WireError::from(&e).into();
        assert_eq!(back.message, e.message);
        assert_eq!(back.code, e.code);
    }
}

#[test]
fn wire_envelope_fields() {
    let e = AppErrorCode(9001).message("nope".to_string());
    let w = e.to_proto();
    assert_eq!(w.message, "nope");
    assert_eq!(w.code, 9001);
    assert_eq!(w.service_name, SERVICE_NAME);
    assert_eq!(w.service_name, "dev_core");
    assert_eq!(w.error_type, "PERMISSION_DENIED");
    assert!(w.details.is_empty());
    assert!(w.metadata.is_empty());
    let w = WireError::from(AppErrorCode(12).message("m".to_string()));
    assert_eq!(w.error_type, "UNKNOWN");
}

#[test]
fn from_proto_drops_envelope_fields() {
    let mut w = AppErrorCode(7001).message("dup".to_string()).to_proto();
    w.service_name = "other".to_string();
    w.error_type = "WHATEVER".to_string();
    w.details.push("d".to_string());
    w.metadata.insert("k".to_string(), "v".to_string());
    let e = AppError::from_proto(w);
    assert_eq!(e.message, "dup");
    assert_eq!(e.code, AppErrorCode(7001));
}

#[test]
fn envelope_unknown_codes_and_forms_agree() {
    for code in [3002, 0, 12345, i32::MIN, i32::MAX] {
        let e = AppErrorCode(code).message("m".to_string());
        let by_ref = WireError::from(&e);
        assert_eq!(by_ref.error_type, "UNKNOWN");
        let by_value = WireError::from(AppErrorCode(code).message("m".to_string()));
        assert_eq!(by_value.message, by_ref.message);
        assert_eq!(by_value.code, by_ref.code);
        assert_eq!(by_value.service_name, by_ref.service_name);
        assert_eq!(by_value.error_type, by_ref.error_type);
        let back = AppError::from(by_ref);
        assert_eq!(back.message, "m");
        assert_eq!(back.code, AppErrorCode(code));
    }
}
