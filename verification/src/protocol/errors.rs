//! The platform's signed 32-bit status codes.
//!
//! A code packs an error/warning base, a level, an area and a small code into
//! one `i32`. Zero is success, one is pending, other positive values are
//! warnings, negative values are hard errors.

use vstd::prelude::*;

verus! {

/// The base of every hard error code.
pub const ERR_BASE: i32 = -0x60000000;

/// The base of every warning code.
pub const WRN_BASE: i32 = 0x40000000;

/// The service area a status code belongs to, held in bits 16 to 23.
#[derive(Debug, Clone, Copy, PartialEq, Eq, Structural)]
pub enum ErrorArea {
    General,
    Sdk,
    Core,
    Igo,
    Friends,
    Presence,
    Commerce,
    Achievements,
    Lsx,
    Proxy,
}

impl ErrorArea {
    /// The bit pattern of this area.
    pub open spec fn spec_value(&self) -> i32 {
        match self {
            ErrorArea::General => 0,
            ErrorArea::Sdk => 0x00010000,
            ErrorArea::Core => 0x00020000,
            ErrorArea::Igo => 0x00030000,
            ErrorArea::Friends => 0x00040000,
            ErrorArea::Presence => 0x00050000,
            ErrorArea::Commerce => 0x00060000,
            ErrorArea::Achievements => 0x00070000,
            ErrorArea::Lsx => 0x00080000,
            ErrorArea::Proxy => 0x00090000,
        }
    }

    /// Returns the bit pattern of this area.
    pub fn value(&self) -> (r: i32)
        ensures
            r == self.spec_value(),
    {
        match self {
            ErrorArea::General => 0,
            ErrorArea::Sdk => 0x00010000,
            ErrorArea::Core => 0x00020000,
            ErrorArea::Igo => 0x00030000,
            ErrorArea::Friends => 0x00040000,
            ErrorArea::Presence => 0x00050000,
            ErrorArea::Commerce => 0x00060000,
            ErrorArea::Achievements => 0x00070000,
            ErrorArea::Lsx => 0x00080000,
            ErrorArea::Proxy => 0x00090000,
        }
    }
}

/// The severity level of a status code, held in bits 24 to 27.
#[derive(Debug, Clone, Copy, PartialEq, Eq, Structural)]
pub enum ErrorLevel {
    L0,
    L1,
    L2,
    L3,
    L4,
}

impl ErrorLevel {
    /// The bit pattern of this level.
    pub open spec fn spec_value(&self) -> i32 {
        match self {
            ErrorLevel::L0 => 0,
            ErrorLevel::L1 => 0x01000000,
            ErrorLevel::L2 => 0x02000000,
            ErrorLevel::L3 => 0x03000000,
            ErrorLevel::L4 => 0x04000000,
        }
    }

    /// Returns the bit pattern of this level.
    pub fn value(&self) -> (r: i32)
        ensures
            r == self.spec_value(),
    {
        match self {
            ErrorLevel::L0 => 0,
            ErrorLevel::L1 => 0x01000000,
            ErrorLevel::L2 => 0x02000000,
            ErrorLevel::L3 => 0x03000000,
            ErrorLevel::L4 => 0x04000000,
        }
    }
}

/// The error code packing level, area and code onto the error base.
pub open spec fn spec_make_err(level: ErrorLevel, area: ErrorArea, code: i32) -> i32 {
    ERR_BASE | level.spec_value() | area.spec_value() | code
}

/// The warning code packing level, area and code onto the warning base.
pub open spec fn spec_make_wrn(level: ErrorLevel, area: ErrorArea, code: i32) -> i32 {
    WRN_BASE | level.spec_value() | area.spec_value() | code
}

/// Packs a hard error code from its level, area and small code.
pub fn make_err(level: ErrorLevel, area: ErrorArea, code: i32) -> (r: i32)
    ensures
        r == spec_make_err(level, area, code),
{
    ERR_BASE | level.value() | area.value() | code
}

/// Packs a warning code from its level, area and small code.
pub fn make_wrn(level: ErrorLevel, area: ErrorArea, code: i32) -> (r: i32)
    ensures
        r == spec_make_wrn(level, area, code),
{
    WRN_BASE | level.value() | area.value() | code
}

/// Every status code the platform is known to emit.
#[derive(Debug, Clone, Copy, PartialEq, Eq, Structural)]
pub enum OriginError {
    Success,
    Pending,
    General,
    InvalidHandle,
    OutOfMemory,
    NotImplemented,
    InvalidUser,
    InvalidArgument,
    NoCallbackSpecified,
    BufferTooSmall,
    TooManyValuesInList,
    NotFound,
    InvalidPersona,
    NoNetwork,
    NoService,
    NotLoggedIn,
    MandatoryOriginUpdatePending,
    AccountInUse,
    TooManyInstances,
    AlreadyExists,
    InvalidOperation,
    AgeRestricted,
    Banned,
    NotReady,
    SdkNotInitialized,
    SdkInvalidAllocatorDeallocatorCombination,
    SdkIsRunning,
    SdkNotAllResourcesReleased,
    SdkInvalidResource,
    SdkInternalError,
    SdkInternalBufferTooSmall,
    WarningSdkAlreadyInitialized,
    WarningSdkStillRunning,
    WarningSdkEnumeratorInUse,
    WarningSdkEnumeratorTerminated,
    CoreNotloaded,
    CoreLoginFailed,
    CoreAuthenticationFailed,
    CoreSendFailed,
    CoreReceiveFailed,
    CoreResourceNotFound,
    CoreIncompatibleVersion,
    CoreNotInstalled,
    WarningIgoNotloaded,
    WarningIgoSupportNotloaded,
    IgoIllegalAnchorPoint,
    IgoIllegalDockPoint,
    IgoNotAvailable,
    NoMultiplayerId,
    LsxInvalidResponse,
    LsxNoResponse,
    LsxInvalidRequest,
    CommerceNoSuchStore,
    CommerceNoSuchCatalog,
    CommerceInvalidReply,
    CommerceNoCategories,
    CommerceNoProducts,
    CommerceUnderageUser,
    CommerceDeprecatedStore,
    Proxy,
    SuccessProxyOk,
    SuccessProxyCreated,
    SuccessProxyAccepted,
    SuccessProxyNonAuthInfo,
    SuccessProxyNoContent,
    SuccessResetContent,
    SuccessPartialContent,
    ProxyBadRequest,
    ProxyUnauthorized,
    ProxyPaymentRequired,
    ProxyForbidden,
    ProxyNotFound,
    ProxyMethodNotAllowed,
    ProxyNotAcceptable,
    ProxyRequestTimeout,
    ProxyConflict,
    ProxyInternalError,
    ProxyNotImplemented,
    ProxyBadGateway,
    ProxyServiceUnavailable,
    ProxyGatewayTimeout,
}

impl OriginError {
    /// The numeric value of this status code.
    pub open spec fn spec_code(&self) -> i32 {
        match self {
            OriginError::Success => 0,
            OriginError::Pending => 1,
            OriginError::General => -1i32,
            OriginError::InvalidHandle => spec_make_err(ErrorLevel::L1, ErrorArea::General, 0),
            OriginError::OutOfMemory => spec_make_err(ErrorLevel::L0, ErrorArea::General, 1),
            OriginError::NotImplemented => spec_make_err(ErrorLevel::L1, ErrorArea::General, 2),
            OriginError::InvalidUser => spec_make_err(ErrorLevel::L2, ErrorArea::General, 3),
            OriginError::InvalidArgument => spec_make_err(ErrorLevel::L2, ErrorArea::General, 4),
            OriginError::NoCallbackSpecified => spec_make_err(ErrorLevel::L2, ErrorArea::General, 5),
            OriginError::BufferTooSmall => spec_make_err(ErrorLevel::L2, ErrorArea::General, 6),
            OriginError::TooManyValuesInList => spec_make_err(ErrorLevel::L2, ErrorArea::General, 7),
            OriginError::NotFound => spec_make_err(ErrorLevel::L2, ErrorArea::General, 8),
            OriginError::InvalidPersona => spec_make_err(ErrorLevel::L2, ErrorArea::General, 9),
            OriginError::NoNetwork => spec_make_err(ErrorLevel::L2, ErrorArea::General, 10),
            OriginError::NoService => spec_make_err(ErrorLevel::L2, ErrorArea::General, 11),
            OriginError::NotLoggedIn => spec_make_err(ErrorLevel::L2, ErrorArea::General, 12),
            OriginError::MandatoryOriginUpdatePending => spec_make_err(
                ErrorLevel::L2,
                ErrorArea::General,
                13,
            ),
            OriginError::AccountInUse => spec_make_err(ErrorLevel::L2, ErrorArea::General, 14),
            OriginError::TooManyInstances => spec_make_err(ErrorLevel::L1, ErrorArea::General, 15),
            OriginError::AlreadyExists => spec_make_err(ErrorLevel::L3, ErrorArea::General, 16),
            OriginError::InvalidOperation => spec_make_err(ErrorLevel::L2, ErrorArea::General, 17),
            OriginError::AgeRestricted => spec_make_err(ErrorLevel::L2, ErrorArea::General, 18),
            OriginError::Banned => spec_make_err(ErrorLevel::L2, ErrorArea::General, 19),
            OriginError::NotReady => spec_make_err(ErrorLevel::L2, ErrorArea::General, 20),
            OriginError::SdkNotInitialized => spec_make_err(ErrorLevel::L0, ErrorArea::Sdk, 0),
            OriginError::SdkInvalidAllocatorDeallocatorCombination => spec_make_err(
                ErrorLevel::L1,
                ErrorArea::Sdk,
                1,
            ),
            OriginError::SdkIsRunning => spec_make_err(ErrorLevel::L2, ErrorArea::Sdk, 2),
            OriginError::SdkNotAllResourcesReleased => spec_make_err(
                ErrorLevel::L3,
                ErrorArea::Sdk,
                3,
            ),
            OriginError::SdkInvalidResource => spec_make_err(ErrorLevel::L2, ErrorArea::Sdk, 4),
            OriginError::SdkInternalError => spec_make_err(ErrorLevel::L1, ErrorArea::Sdk, 5),
            OriginError::SdkInternalBufferTooSmall => spec_make_err(
                ErrorLevel::L1,
                ErrorArea::Sdk,
                6,
            ),
            OriginError::WarningSdkAlreadyInitialized => spec_make_wrn(
                ErrorLevel::L2,
                ErrorArea::Sdk,
                1,
            ),
            OriginError::WarningSdkStillRunning => spec_make_wrn(ErrorLevel::L2, ErrorArea::Sdk, 2),
            OriginError::WarningSdkEnumeratorInUse => spec_make_wrn(
                ErrorLevel::L2,
                ErrorArea::Sdk,
                3,
            ),
            OriginError::WarningSdkEnumeratorTerminated => spec_make_wrn(
                ErrorLevel::L2,
                ErrorArea::Sdk,
                4,
            ),
            OriginError::CoreNotloaded => spec_make_err(ErrorLevel::L0, ErrorArea::Core, 0),
            OriginError::CoreLoginFailed => spec_make_err(ErrorLevel::L1, ErrorArea::Core, 1),
            OriginError::CoreAuthenticationFailed => spec_make_err(
                ErrorLevel::L1,
                ErrorArea::Core,
                2,
            ),
            OriginError::CoreSendFailed => spec_make_err(ErrorLevel::L1, ErrorArea::Core, 4),
            OriginError::CoreReceiveFailed => spec_make_err(ErrorLevel::L1, ErrorArea::Core, 5),
            OriginError::CoreResourceNotFound => spec_make_err(ErrorLevel::L1, ErrorArea::Core, 6),
            OriginError::CoreIncompatibleVersion => spec_make_err(
                ErrorLevel::L0,
                ErrorArea::Core,
                7,
            ),
            OriginError::CoreNotInstalled => spec_make_err(ErrorLevel::L0, ErrorArea::Core, 8),
            OriginError::WarningIgoNotloaded => spec_make_wrn(ErrorLevel::L1, ErrorArea::Igo, 0),
            OriginError::WarningIgoSupportNotloaded => spec_make_wrn(
                ErrorLevel::L1,
                ErrorArea::Igo,
                1,
            ),
            OriginError::IgoIllegalAnchorPoint => spec_make_err(ErrorLevel::L3, ErrorArea::Igo, 2),
            OriginError::IgoIllegalDockPoint => spec_make_err(ErrorLevel::L3, ErrorArea::Igo, 3),
            OriginError::IgoNotAvailable => spec_make_err(ErrorLevel::L3, ErrorArea::Igo, 4),
            OriginError::NoMultiplayerId => spec_make_err(ErrorLevel::L2, ErrorArea::Presence, 0),
            OriginError::LsxInvalidResponse => spec_make_err(ErrorLevel::L2, ErrorArea::Lsx, 0),
            OriginError::LsxNoResponse => spec_make_err(ErrorLevel::L1, ErrorArea::Lsx, 1),
            OriginError::LsxInvalidRequest => spec_make_err(ErrorLevel::L2, ErrorArea::Lsx, 2),
            OriginError::CommerceNoSuchStore => spec_make_err(
                ErrorLevel::L1,
                ErrorArea::Commerce,
                0,
            ),
            OriginError::CommerceNoSuchCatalog => spec_make_err(
                ErrorLevel::L1,
                ErrorArea::Commerce,
                1,
            ),
            OriginError::CommerceInvalidReply => spec_make_err(
                ErrorLevel::L1,
                ErrorArea::Commerce,
                2,
            ),
            OriginError::CommerceNoCategories => spec_make_err(
                ErrorLevel::L2,
                ErrorArea::Commerce,
                3,
            ),
            OriginError::CommerceNoProducts => spec_make_err(ErrorLevel::L2, ErrorArea::Commerce, 4),
            OriginError::CommerceUnderageUser => spec_make_err(
                ErrorLevel::L2,
                ErrorArea::Commerce,
                5,
            ),
            OriginError::CommerceDeprecatedStore => spec_make_err(
                ErrorLevel::L2,
                ErrorArea::Commerce,
                6,
            ),
            OriginError::Proxy => spec_make_err(ErrorLevel::L2, ErrorArea::Proxy, 0),
            OriginError::SuccessProxyOk => spec_make_wrn(ErrorLevel::L4, ErrorArea::Proxy, 200),
            OriginError::SuccessProxyCreated => spec_make_wrn(ErrorLevel::L4, ErrorArea::Proxy, 201),
            OriginError::SuccessProxyAccepted => spec_make_wrn(
                ErrorLevel::L4,
                ErrorArea::Proxy,
                202,
            ),
            OriginError::SuccessProxyNonAuthInfo => spec_make_wrn(
                ErrorLevel::L4,
                ErrorArea::Proxy,
                203,
            ),
            OriginError::SuccessProxyNoContent => spec_make_wrn(
                ErrorLevel::L4,
                ErrorArea::Proxy,
                204,
            ),
            OriginError::SuccessResetContent => spec_make_wrn(ErrorLevel::L4, ErrorArea::Proxy, 205),
            OriginError::SuccessPartialContent => spec_make_wrn(
                ErrorLevel::L4,
                ErrorArea::Proxy,
                206,
            ),
            OriginError::ProxyBadRequest => spec_make_err(ErrorLevel::L2, ErrorArea::Proxy, 400),
            OriginError::ProxyUnauthorized => spec_make_err(ErrorLevel::L2, ErrorArea::Proxy, 401),
            OriginError::ProxyPaymentRequired => spec_make_err(
                ErrorLevel::L2,
                ErrorArea::Proxy,
                402,
            ),
            OriginError::ProxyForbidden => spec_make_err(ErrorLevel::L2, ErrorArea::Proxy, 403),
            OriginError::ProxyNotFound => spec_make_err(ErrorLevel::L2, ErrorArea::Proxy, 404),
            OriginError::ProxyMethodNotAllowed => spec_make_err(
                ErrorLevel::L2,
                ErrorArea::Proxy,
                405,
            ),
            OriginError::ProxyNotAcceptable => spec_make_err(ErrorLevel::L2, ErrorArea::Proxy, 406),
            OriginError::ProxyRequestTimeout => spec_make_err(ErrorLevel::L2, ErrorArea::Proxy, 408),
            OriginError::ProxyConflict => spec_make_err(ErrorLevel::L2, ErrorArea::Proxy, 409),
            OriginError::ProxyInternalError => spec_make_err(ErrorLevel::L2, ErrorArea::Proxy, 500),
            OriginError::ProxyNotImplemented => spec_make_err(ErrorLevel::L2, ErrorArea::Proxy, 501),
            OriginError::ProxyBadGateway => spec_make_err(ErrorLevel::L2, ErrorArea::Proxy, 502),
            OriginError::ProxyServiceUnavailable => spec_make_err(
                ErrorLevel::L2,
                ErrorArea::Proxy,
                503,
            ),
            OriginError::ProxyGatewayTimeout => spec_make_err(ErrorLevel::L2, ErrorArea::Proxy, 504),
        }
    }

    /// Returns the numeric value of this status code.
    pub fn code(&self) -> (r: i32)
        ensures
            r == self.spec_code(),
    {
        match self {
            OriginError::Success => 0,
            OriginError::Pending => 1,
            OriginError::General => -1i32,
            OriginError::InvalidHandle => make_err(ErrorLevel::L1, ErrorArea::General, 0),
            OriginError::OutOfMemory => make_err(ErrorLevel::L0, ErrorArea::General, 1),
            OriginError::NotImplemented => make_err(ErrorLevel::L1, ErrorArea::General, 2),
            OriginError::InvalidUser => make_err(ErrorLevel::L2, ErrorArea::General, 3),
            OriginError::InvalidArgument => make_err(ErrorLevel::L2, ErrorArea::General, 4),
            OriginError::NoCallbackSpecified => make_err(ErrorLevel::L2, ErrorArea::General, 5),
            OriginError::BufferTooSmall => make_err(ErrorLevel::L2, ErrorArea::General, 6),
            OriginError::TooManyValuesInList => make_err(ErrorLevel::L2, ErrorArea::General, 7),
            OriginError::NotFound => make_err(ErrorLevel::L2, ErrorArea::General, 8),
            OriginError::InvalidPersona => make_err(ErrorLevel::L2, ErrorArea::General, 9),
            OriginError::NoNetwork => make_err(ErrorLevel::L2, ErrorArea::General, 10),
            OriginError::NoService => make_err(ErrorLevel::L2, ErrorArea::General, 11),
            OriginError::NotLoggedIn => make_err(ErrorLevel::L2, ErrorArea::General, 12),
            OriginError::MandatoryOriginUpdatePending => make_err(
                ErrorLevel::L2,
                ErrorArea::General,
                13,
            ),
            OriginError::AccountInUse => make_err(ErrorLevel::L2, ErrorArea::General, 14),
            OriginError::TooManyInstances => make_err(ErrorLevel::L1, ErrorArea::General, 15),
            OriginError::AlreadyExists => make_err(ErrorLevel::L3, ErrorArea::General, 16),
            OriginError::InvalidOperation => make_err(ErrorLevel::L2, ErrorArea::General, 17),
            OriginError::AgeRestricted => make_err(ErrorLevel::L2, ErrorArea::General, 18),
            OriginError::Banned => make_err(ErrorLevel::L2, ErrorArea::General, 19),
            OriginError::NotReady => make_err(ErrorLevel::L2, ErrorArea::General, 20),
            OriginError::SdkNotInitialized => make_err(ErrorLevel::L0, ErrorArea::Sdk, 0),
            OriginError::SdkInvalidAllocatorDeallocatorCombination => make_err(
                ErrorLevel::L1,
                ErrorArea::Sdk,
                1,
            ),
            OriginError::SdkIsRunning => make_err(ErrorLevel::L2, ErrorArea::Sdk, 2),
            OriginError::SdkNotAllResourcesReleased => make_err(ErrorLevel::L3, ErrorArea::Sdk, 3),
            OriginError::SdkInvalidResource => make_err(ErrorLevel::L2, ErrorArea::Sdk, 4),
            OriginError::SdkInternalError => make_err(ErrorLevel::L1, ErrorArea::Sdk, 5),
            OriginError::SdkInternalBufferTooSmall => make_err(ErrorLevel::L1, ErrorArea::Sdk, 6),
            OriginError::WarningSdkAlreadyInitialized => make_wrn(ErrorLevel::L2, ErrorArea::Sdk, 1),
            OriginError::WarningSdkStillRunning => make_wrn(ErrorLevel::L2, ErrorArea::Sdk, 2),
            OriginError::WarningSdkEnumeratorInUse => make_wrn(ErrorLevel::L2, ErrorArea::Sdk, 3),
            OriginError::WarningSdkEnumeratorTerminated => make_wrn(
                ErrorLevel::L2,
                ErrorArea::Sdk,
                4,
            ),
            OriginError::CoreNotloaded => make_err(ErrorLevel::L0, ErrorArea::Core, 0),
            OriginError::CoreLoginFailed => make_err(ErrorLevel::L1, ErrorArea::Core, 1),
            OriginError::CoreAuthenticationFailed => make_err(ErrorLevel::L1, ErrorArea::Core, 2),
            OriginError::CoreSendFailed => make_err(ErrorLevel::L1, ErrorArea::Core, 4),
            OriginError::CoreReceiveFailed => make_err(ErrorLevel::L1, ErrorArea::Core, 5),
            OriginError::CoreResourceNotFound => make_err(ErrorLevel::L1, ErrorArea::Core, 6),
            OriginError::CoreIncompatibleVersion => make_err(ErrorLevel::L0, ErrorArea::Core, 7),
            OriginError::CoreNotInstalled => make_err(ErrorLevel::L0, ErrorArea::Core, 8),
            OriginError::WarningIgoNotloaded => make_wrn(ErrorLevel::L1, ErrorArea::Igo, 0),
            OriginError::WarningIgoSupportNotloaded => make_wrn(ErrorLevel::L1, ErrorArea::Igo, 1),
            OriginError::IgoIllegalAnchorPoint => make_err(ErrorLevel::L3, ErrorArea::Igo, 2),
            OriginError::IgoIllegalDockPoint => make_err(ErrorLevel::L3, ErrorArea::Igo, 3),
            OriginError::IgoNotAvailable => make_err(ErrorLevel::L3, ErrorArea::Igo, 4),
            OriginError::NoMultiplayerId => make_err(ErrorLevel::L2, ErrorArea::Presence, 0),
            OriginError::LsxInvalidResponse => make_err(ErrorLevel::L2, ErrorArea::Lsx, 0),
            OriginError::LsxNoResponse => make_err(ErrorLevel::L1, ErrorArea::Lsx, 1),
            OriginError::LsxInvalidRequest => make_err(ErrorLevel::L2, ErrorArea::Lsx, 2),
            OriginError::CommerceNoSuchStore => make_err(ErrorLevel::L1, ErrorArea::Commerce, 0),
            OriginError::CommerceNoSuchCatalog => make_err(ErrorLevel::L1, ErrorArea::Commerce, 1),
            OriginError::CommerceInvalidReply => make_err(ErrorLevel::L1, ErrorArea::Commerce, 2),
            OriginError::CommerceNoCategories => make_err(ErrorLevel::L2, ErrorArea::Commerce, 3),
            OriginError::CommerceNoProducts => make_err(ErrorLevel::L2, ErrorArea::Commerce, 4),
            OriginError::CommerceUnderageUser => make_err(ErrorLevel::L2, ErrorArea::Commerce, 5),
            OriginError::CommerceDeprecatedStore => make_err(ErrorLevel::L2, ErrorArea::Commerce, 6),
            OriginError::Proxy => make_err(ErrorLevel::L2, ErrorArea::Proxy, 0),
            OriginError::SuccessProxyOk => make_wrn(ErrorLevel::L4, ErrorArea::Proxy, 200),
            OriginError::SuccessProxyCreated => make_wrn(ErrorLevel::L4, ErrorArea::Proxy, 201),
            OriginError::SuccessProxyAccepted => make_wrn(ErrorLevel::L4, ErrorArea::Proxy, 202),
            OriginError::SuccessProxyNonAuthInfo => make_wrn(ErrorLevel::L4, ErrorArea::Proxy, 203),
            OriginError::SuccessProxyNoContent => make_wrn(ErrorLevel::L4, ErrorArea::Proxy, 204),
            OriginError::SuccessResetContent => make_wrn(ErrorLevel::L4, ErrorArea::Proxy, 205),
            OriginError::SuccessPartialContent => make_wrn(ErrorLevel::L4, ErrorArea::Proxy, 206),
            OriginError::ProxyBadRequest => make_err(ErrorLevel::L2, ErrorArea::Proxy, 400),
            OriginError::ProxyUnauthorized => make_err(ErrorLevel::L2, ErrorArea::Proxy, 401),
            OriginError::ProxyPaymentRequired => make_err(ErrorLevel::L2, ErrorArea::Proxy, 402),
            OriginError::ProxyForbidden => make_err(ErrorLevel::L2, ErrorArea::Proxy, 403),
            OriginError::ProxyNotFound => make_err(ErrorLevel::L2, ErrorArea::Proxy, 404),
            OriginError::ProxyMethodNotAllowed => make_err(ErrorLevel::L2, ErrorArea::Proxy, 405),
            OriginError::ProxyNotAcceptable => make_err(ErrorLevel::L2, ErrorArea::Proxy, 406),
            OriginError::ProxyRequestTimeout => make_err(ErrorLevel::L2, ErrorArea::Proxy, 408),
            OriginError::ProxyConflict => make_err(ErrorLevel::L2, ErrorArea::Proxy, 409),
            OriginError::ProxyInternalError => make_err(ErrorLevel::L2, ErrorArea::Proxy, 500),
            OriginError::ProxyNotImplemented => make_err(ErrorLevel::L2, ErrorArea::Proxy, 501),
            OriginError::ProxyBadGateway => make_err(ErrorLevel::L2, ErrorArea::Proxy, 502),
            OriginError::ProxyServiceUnavailable => make_err(ErrorLevel::L2, ErrorArea::Proxy, 503),
            OriginError::ProxyGatewayTimeout => make_err(ErrorLevel::L2, ErrorArea::Proxy, 504),
        }
    }

    /// True exactly of the codes treated as success: success proper and
    /// pending.
    pub fn is_success(&self) -> (r: bool)
        ensures
            r <==> (self is Success || self is Pending),
    {
        matches!(self, OriginError::Success | OriginError::Pending)
    }

    /// True exactly when the numeric code is above one: a warning.
    pub fn is_warning(&self) -> (r: bool)
        ensures
            r <==> self.spec_code() > 1,
    {
        self.code() > 1
    }

    /// True exactly when the numeric code is negative: a hard error.
    pub fn is_error(&self) -> (r: bool)
        ensures
            r <==> self.spec_code() < 0,
    {
        self.code() < 0
    }

    /// The area encoded in bits 16 to 23 of a numeric code, when those bits
    /// name one.
    pub open spec fn spec_area_of_bits(v: i32) -> Option<ErrorArea> {
        if v == 0 {
            Some(ErrorArea::General)
        } else if v == 0x00010000 {
            Some(ErrorArea::Sdk)
        } else if v == 0x00020000 {
            Some(ErrorArea::Core)
        } else if v == 0x00030000 {
            Some(ErrorArea::Igo)
        } else if v == 0x00040000 {
            Some(ErrorArea::Friends)
        } else if v == 0x00050000 {
            Some(ErrorArea::Presence)
        } else if v == 0x00060000 {
            Some(ErrorArea::Commerce)
        } else if v == 0x00070000 {
            Some(ErrorArea::Achievements)
        } else if v == 0x00080000 {
            Some(ErrorArea::Lsx)
        } else if v == 0x00090000 {
            Some(ErrorArea::Proxy)
        } else {
            None
        }
    }

    /// Extracts the error area encoded in this status code, if its area bits
    /// name one.
    pub fn error_area(&self) -> (r: Option<ErrorArea>)
        ensures
            r == Self::spec_area_of_bits(self.spec_code() & 0x00FF0000),
    {
        let v = self.code() & 0x00FF0000;
        if v == 0 {
            Some(ErrorArea::General)
        } else if v == 0x00010000 {
            Some(ErrorArea::Sdk)
        } else if v == 0x00020000 {
            Some(ErrorArea::Core)
        } else if v == 0x00030000 {
            Some(ErrorArea::Igo)
        } else if v == 0x00040000 {
            Some(ErrorArea::Friends)
        } else if v == 0x00050000 {
            Some(ErrorArea::Presence)
        } else if v == 0x00060000 {
            Some(ErrorArea::Commerce)
        } else if v == 0x00070000 {
            Some(ErrorArea::Achievements)
        } else if v == 0x00080000 {
            Some(ErrorArea::Lsx)
        } else if v == 0x00090000 {
            Some(ErrorArea::Proxy)
        } else {
            None
        }
    }

    /// The level encoded in bits 24 to 27 of a numeric code, when those bits
    /// name one.
    pub open spec fn spec_level_of_bits(v: i32) -> Option<ErrorLevel> {
        if v == 0 {
            Some(ErrorLevel::L0)
        } else if v == 0x01000000 {
            Some(ErrorLevel::L1)
        } else if v == 0x02000000 {
            Some(ErrorLevel::L2)
        } else if v == 0x03000000 {
            Some(ErrorLevel::L3)
        } else if v == 0x04000000 {
            Some(ErrorLevel::L4)
        } else {
            None
        }
    }

    /// Extracts the severity level encoded in this status code, if its level
    /// bits name one.
    pub fn error_level(&self) -> (r: Option<ErrorLevel>)
        ensures
            r == Self::spec_level_of_bits(self.spec_code() & 0x0F000000),
    {
        let v = self.code() & 0x0F000000;
        if v == 0 {
            Some(ErrorLevel::L0)
        } else if v == 0x01000000 {
            Some(ErrorLevel::L1)
        } else if v == 0x02000000 {
            Some(ErrorLevel::L2)
        } else if v == 0x03000000 {
            Some(ErrorLevel::L3)
        } else if v == 0x04000000 {
            Some(ErrorLevel::L4)
        } else {
            None
        }
    }

    /// Extracts the small code within the area: the low 16 bits.
    pub fn error_code(&self) -> (r: i32)
        ensures
            r == self.spec_code() & 0x0000FFFF,
    {
        self.code() & 0x0000FFFF
    }
}

} // verus!
