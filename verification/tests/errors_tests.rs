use origin_sdk::protocol::errors::{make_err, make_wrn, ErrorArea, ErrorLevel, OriginError};

#[test]
fn test_code_values() {
    assert_eq!(OriginError::Success.code(), 0);
    assert_eq!(OriginError::Pending.code(), 1);
    assert_eq!(OriginError::General.code(), -1);
    assert_eq!(OriginError::InvalidUser.code(), -1577058301);
    assert_eq!(OriginError::SdkNotInitialized.code(), -1610547200);
    assert_eq!(OriginError::WarningSdkAlreadyInitialized.code(), 1107361793);
    assert_eq!(OriginError::ProxyNotFound.code(), -1576468076);
    assert_eq!(OriginError::CoreAuthenticationFailed.code(), -1593704446);
}

#[test]
fn test_make_err_and_wrn() {
    assert_eq!(
        make_err(ErrorLevel::L2, ErrorArea::General, 3),
        OriginError::InvalidUser.code()
    );
    assert_eq!(
        make_wrn(ErrorLevel::L2, ErrorArea::Sdk, 1),
        OriginError::WarningSdkAlreadyInitialized.code()
    );
}

#[test]
fn test_classes() {
    assert!(OriginError::Success.is_success());
    assert!(OriginError::Pending.is_success());
    assert!(!OriginError::General.is_success());
    assert!(!OriginError::Success.is_warning());
    assert!(OriginError::WarningSdkAlreadyInitialized.is_warning());
    assert!(OriginError::SuccessProxyOk.is_warning());
    assert!(OriginError::General.is_error());
    assert!(OriginError::InvalidUser.is_error());
    assert!(!OriginError::WarningSdkAlreadyInitialized.is_error());
}

#[test]
fn test_field_extraction() {
    let e = OriginError::CoreAuthenticationFailed;
    assert_eq!(e.error_area(), Some(ErrorArea::Core));
    assert_eq!(e.error_level(), Some(ErrorLevel::L1));
    assert_eq!(e.error_code(), 2);

    let w = OriginError::ProxyNotFound;
    assert_eq!(w.error_area(), Some(ErrorArea::Proxy));
    assert_eq!(w.error_level(), Some(ErrorLevel::L2));
    assert_eq!(w.error_code(), 404);

    assert_eq!(
        OriginError::InvalidUser.error_area(),
        Some(ErrorArea::General)
    );
    assert_eq!(
        OriginError::InvalidUser.error_level(),
        Some(ErrorLevel::L2)
    );
    assert_eq!(OriginError::InvalidUser.error_code(), 3);
}
