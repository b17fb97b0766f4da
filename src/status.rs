//! The registry of status codes.

use vstd::prelude::*;
use crate::error::ParseError;

verus! {

/// The closed set of status codes, each with its numeric code in its doc line.
#[derive(PartialEq, Eq, Structural, Clone, Copy, Debug)]
pub enum StatusCode {
    /// 100 Continue
    Continue,
    /// 101 Switching Protocols
    SwitchingProtocols,
    /// 102 Processing
    Processing,
    /// 103 Early Hints
    EarlyHints,
    /// 200 OK
    OK,
    /// 201 Created
    Created,
    /// 202 Accepted
    Accepted,
    /// 203 Non-Authoritative Information
    NonAuthoritativeInformation,
    /// 204 No Content
    NoContent,
    /// 205 Reset Content
    ResetContent,
    /// 206 Partial Content
    PartialContent,
    /// 207 Multi-Status
    MultiStatus,
    /// 208 Already Reported
    AlreadyReported,
    /// 218 This Is Fine
    ThisIsFine,
    /// 226 IM Used
    IMUsed,
    /// 300 Multiple Choices
    MultipleChoices,
    /// 301 Moved Permanently
    MovedPermanently,
    /// 302 Found
    Found,
    /// 303 See Other
    SeeOther,
    /// 304 Not Modified
    NotModified,
    /// 305 Use Proxy
    UseProxy,
    /// 306 Switch Proxy
    SwitchProxy,
    /// 307 Temporary Redirect
    TemporaryRedirect,
    /// 308 Permanent Redirect
    PermanentRedirect,
    /// 400 Bad Request
    BadRequest,
    /// 401 Unauthorized
    Unauthorized,
    /// 402 Payment Required
    PaymentRequired,
    /// 403 Forbidden
    Forbidden,
    /// 404 Not Found
    NotFound,
    /// 405 Method Not Allowed
    MethodNotAllowed,
    /// 406 Not Acceptable
    NotAcceptable,
    /// 407 Proxy Authentication Required
    ProxyAuthenticationRequired,
    /// 408 Request Timeout
    RequestTimeout,
    /// 409 Conflict
    Conflict,
    /// 410 Gone
    Gone,
    /// 411 Length Required
    LengthRequired,
    /// 412 Precondition Failed
    PreconditionFailed,
    /// 413 Payload Too Large
    PayloadTooLarge,
    /// 414 URI Too Long
    URITooLong,
    /// 415 Unsupported Media Type
    UnsupportedMediaType,
    /// 416 Range Not Satisfiable
    RangeNotSatisfiable,
    /// 417 Expectation Failed
    ExpectationFailed,
    /// 418 I'm a teapot
    ImATeapot,
    /// 419 Page Expired
    PageExpired,
    /// 420 Enhance Your Calm
    EnhanceYourCalm,
    /// 421 Misdirected Request
    MisdirectedRequest,
    /// 422 Unprocessable Entity
    UnprocessableEntity,
    /// 423 Locked
    Locked,
    /// 424 Failed Dependency
    FailedDependency,
    /// 425 Too Early
    TooEarly,
    /// 426 Upgrade Required
    UpgradeRequired,
    /// 428 Precondition Required
    PreconditionRequired,
    /// 429 Too Many Requests
    TooManyRequests,
    /// 430 Request Header Fields Too Large
    RequestHeaderFieldsTooLargeShopify,
    /// 431 Request Header Fields Too Large
    RequestHeaderFieldsTooLarge,
    /// 440 Login Time-out
    LoginTimeout,
    /// 444 No Response
    NoResponse,
    /// 449 Retry With
    RetryWith,
    /// 450 Blocked by Windows Parental Controls
    BlockedByWindowsParentalControls,
    /// 451 Unavailable For Legal Reasons
    UnavailableForLegalReasons,
    /// 460 Client Closed Connection
    ClientClosedConnection,
    /// 463 Too Many Forwarded Addresses
    TooManyForwardedAddresses,
    /// 494 Request Header Too Large
    RequestHeaderTooLarge,
    /// 495 SSL Certificate Error
    SSLCertificateError,
    /// 496 SSL Certificate Required
    SSLCertificateRequired,
    /// 497 HTTP Request Sent to HTTPS Port
    HTTPRequestSentToHTTPSPort,
    /// 498 Invalid Token
    InvalidToken,
    /// 499 Client Closed Request
    ClientClosedRequest,
    /// 500 Internal Server Error
    InternalServerError,
    /// 501 Not Implemented
    NotImplemented,
    /// 502 Bad Gateway
    BadGateway,
    /// 503 Service Unavailable
    ServiceUnavailable,
    /// 504 Gateway Timeout
    GatewayTimeout,
    /// 505 HTTP Version Not Supported
    HTTPVersionNotSupported,
    /// 506 Variant Also Negotiates
    VariantAlsoNegotiates,
    /// 507 Insufficient Storage
    InsufficientStorage,
    /// 508 Loop Detected
    LoopDetected,
    /// 509 Bandwidth Limit Exceeded
    BandwidthLimitExceeded,
    /// 510 Not Extended
    NotExtended,
    /// 511 Network Authentication Required
    NetworkAuthenticationRequired,
    /// 520 Web Server Returned an Unknown Error
    WebServerReturnedUnknownError,
    /// 521 Web Server Is Down
    WebServerIsDown,
    /// 522 Connection Timed Out
    ConnectionTimedOut,
    /// 523 Origin Is Unreachable
    OriginIsUnreachable,
    /// 524 A Timeout Occurred
    ATimeoutOccurred,
    /// 525 SSL Handshake Failed
    SSLHandshakeFailed,
    /// 526 Invalid SSL Certificate
    InvalidSSLCertificate,
    /// 527 Railgun Error
    RailgunError,
    /// 529 Site is overloaded
    SiteIsOverloaded,
    /// 530 Site is frozen
    SiteIsFrozen,
    /// 561 Unauthorized
    UnauthorizedAuthentication,
    /// 598 Network read timeout error
    NetworkReadTimeoutError,
}

/// The numeric code of a status.
pub open spec fn status_number(s: StatusCode) -> u16 {
    match s {
        StatusCode::Continue => 100,
        StatusCode::SwitchingProtocols => 101,
        StatusCode::Processing => 102,
        StatusCode::EarlyHints => 103,
        StatusCode::OK => 200,
        StatusCode::Created => 201,
        StatusCode::Accepted => 202,
        StatusCode::NonAuthoritativeInformation => 203,
        StatusCode::NoContent => 204,
        StatusCode::ResetContent => 205,
        StatusCode::PartialContent => 206,
        StatusCode::MultiStatus => 207,
        StatusCode::AlreadyReported => 208,
        StatusCode::ThisIsFine => 218,
        StatusCode::IMUsed => 226,
        StatusCode::MultipleChoices => 300,
        StatusCode::MovedPermanently => 301,
        StatusCode::Found => 302,
        StatusCode::SeeOther => 303,
        StatusCode::NotModified => 304,
        StatusCode::UseProxy => 305,
        StatusCode::SwitchProxy => 306,
        StatusCode::TemporaryRedirect => 307,
        StatusCode::PermanentRedirect => 308,
        StatusCode::BadRequest => 400,
        StatusCode::Unauthorized => 401,
        StatusCode::PaymentRequired => 402,
        StatusCode::Forbidden => 403,
        StatusCode::NotFound => 404,
        StatusCode::MethodNotAllowed => 405,
        StatusCode::NotAcceptable => 406,
        StatusCode::ProxyAuthenticationRequired => 407,
        StatusCode::RequestTimeout => 408,
        StatusCode::Conflict => 409,
        StatusCode::Gone => 410,
        StatusCode::LengthRequired => 411,
        StatusCode::PreconditionFailed => 412,
        StatusCode::PayloadTooLarge => 413,
        StatusCode::URITooLong => 414,
        StatusCode::UnsupportedMediaType => 415,
        StatusCode::RangeNotSatisfiable => 416,
        StatusCode::ExpectationFailed => 417,
        StatusCode::ImATeapot => 418,
        StatusCode::PageExpired => 419,
        StatusCode::EnhanceYourCalm => 420,
        StatusCode::MisdirectedRequest => 421,
        StatusCode::UnprocessableEntity => 422,
        StatusCode::Locked => 423,
        StatusCode::FailedDependency => 424,
        StatusCode::TooEarly => 425,
        StatusCode::UpgradeRequired => 426,
        StatusCode::PreconditionRequired => 428,
        StatusCode::TooManyRequests => 429,
        StatusCode::RequestHeaderFieldsTooLargeShopify => 430,
        StatusCode::RequestHeaderFieldsTooLarge => 431,
        StatusCode::LoginTimeout => 440,
        StatusCode::NoResponse => 444,
        StatusCode::RetryWith => 449,
        StatusCode::BlockedByWindowsParentalControls => 450,
        StatusCode::UnavailableForLegalReasons => 451,
        StatusCode::ClientClosedConnection => 460,
        StatusCode::TooManyForwardedAddresses => 463,
        StatusCode::RequestHeaderTooLarge => 494,
        StatusCode::SSLCertificateError => 495,
        StatusCode::SSLCertificateRequired => 496,
        StatusCode::HTTPRequestSentToHTTPSPort => 497,
        StatusCode::InvalidToken => 498,
        StatusCode::ClientClosedRequest => 499,
        StatusCode::InternalServerError => 500,
        StatusCode::NotImplemented => 501,
        StatusCode::BadGateway => 502,
        StatusCode::ServiceUnavailable => 503,
        StatusCode::GatewayTimeout => 504,
        StatusCode::HTTPVersionNotSupported => 505,
        StatusCode::VariantAlsoNegotiates => 506,
        StatusCode::InsufficientStorage => 507,
        StatusCode::LoopDetected => 508,
        StatusCode::BandwidthLimitExceeded => 509,
        StatusCode::NotExtended => 510,
        StatusCode::NetworkAuthenticationRequired => 511,
        StatusCode::WebServerReturnedUnknownError => 520,
        StatusCode::WebServerIsDown => 521,
        StatusCode::ConnectionTimedOut => 522,
        StatusCode::OriginIsUnreachable => 523,
        StatusCode::ATimeoutOccurred => 524,
        StatusCode::SSLHandshakeFailed => 525,
        StatusCode::InvalidSSLCertificate => 526,
        StatusCode::RailgunError => 527,
        StatusCode::SiteIsOverloaded => 529,
        StatusCode::SiteIsFrozen => 530,
        StatusCode::UnauthorizedAuthentication => 561,
        StatusCode::NetworkReadTimeoutError => 598,
    }
}

/// The status whose numeric code is `n`, if any.
pub open spec fn status_of_number(n: u16) -> Option<StatusCode> {
    if n == 100 {
        Some(StatusCode::Continue)
    } else if n == 101 {
        Some(StatusCode::SwitchingProtocols)
    } else if n == 102 {
        Some(StatusCode::Processing)
    } else if n == 103 {
        Some(StatusCode::EarlyHints)
    } else if n == 200 {
        Some(StatusCode::OK)
    } else if n == 201 {
        Some(StatusCode::Created)
    } else if n == 202 {
        Some(StatusCode::Accepted)
    } else if n == 203 {
        Some(StatusCode::NonAuthoritativeInformation)
    } else if n == 204 {
        Some(StatusCode::NoContent)
    } else if n == 205 {
        Some(StatusCode::ResetContent)
    } else if n == 206 {
        Some(StatusCode::PartialContent)
    } else if n == 207 {
        Some(StatusCode::MultiStatus)
    } else if n == 208 {
        Some(StatusCode::AlreadyReported)
    } else if n == 218 {
        Some(StatusCode::ThisIsFine)
    } else if n == 226 {
        Some(StatusCode::IMUsed)
    } else if n == 300 {
        Some(StatusCode::MultipleChoices)
    } else if n == 301 {
        Some(StatusCode::MovedPermanently)
    } else if n == 302 {
        Some(StatusCode::Found)
    } else if n == 303 {
        Some(StatusCode::SeeOther)
    } else if n == 304 {
        Some(StatusCode::NotModified)
    } else if n == 305 {
        Some(StatusCode::UseProxy)
    } else if n == 306 {
        Some(StatusCode::SwitchProxy)
    } else if n == 307 {
        Some(StatusCode::TemporaryRedirect)
    } else if n == 308 {
        Some(StatusCode::PermanentRedirect)
    } else if n == 400 {
        Some(StatusCode::BadRequest)
    } else if n == 401 {
        Some(StatusCode::Unauthorized)
    } else if n == 402 {
        Some(StatusCode::PaymentRequired)
    } else if n == 403 {
        Some(StatusCode::Forbidden)
    } else if n == 404 {
        Some(StatusCode::NotFound)
    } else if n == 405 {
        Some(StatusCode::MethodNotAllowed)
    } else if n == 406 {
        Some(StatusCode::NotAcceptable)
    } else if n == 407 {
        Some(StatusCode::ProxyAuthenticationRequired)
    } else if n == 408 {
        Some(StatusCode::RequestTimeout)
    } else if n == 409 {
        Some(StatusCode::Conflict)
    } else if n == 410 {
        Some(StatusCode::Gone)
    } else if n == 411 {
        Some(StatusCode::LengthRequired)
    } else if n == 412 {
        Some(StatusCode::PreconditionFailed)
    } else if n == 413 {
        Some(StatusCode::PayloadTooLarge)
    } else if n == 414 {
        Some(StatusCode::URITooLong)
    } else if n == 415 {
        Some(StatusCode::UnsupportedMediaType)
    } else if n == 416 {
        Some(StatusCode::RangeNotSatisfiable)
    } else if n == 417 {
        Some(StatusCode::ExpectationFailed)
    } else if n == 418 {
        Some(StatusCode::ImATeapot)
    } else if n == 419 {
        Some(StatusCode::PageExpired)
    } else if n == 420 {
        Some(StatusCode::EnhanceYourCalm)
    } else if n == 421 {
        Some(StatusCode::MisdirectedRequest)
    } else if n == 422 {
        Some(StatusCode::UnprocessableEntity)
    } else if n == 423 {
        Some(StatusCode::Locked)
    } else if n == 424 {
        Some(StatusCode::FailedDependency)
    } else if n == 425 {
        Some(StatusCode::TooEarly)
    } else if n == 426 {
        Some(StatusCode::UpgradeRequired)
    } else if n == 428 {
        Some(StatusCode::PreconditionRequired)
    } else if n == 429 {
        Some(StatusCode::TooManyRequests)
    } else if n == 430 {
        Some(StatusCode::RequestHeaderFieldsTooLargeShopify)
    } else if n == 431 {
        Some(StatusCode::RequestHeaderFieldsTooLarge)
    } else if n == 440 {
        Some(StatusCode::LoginTimeout)
    } else if n == 444 {
        Some(StatusCode::NoResponse)
    } else if n == 449 {
        Some(StatusCode::RetryWith)
    } else if n == 450 {
        Some(StatusCode::BlockedByWindowsParentalControls)
    } else if n == 451 {
        Some(StatusCode::UnavailableForLegalReasons)
    } else if n == 460 {
        Some(StatusCode::ClientClosedConnection)
    } else if n == 463 {
        Some(StatusCode::TooManyForwardedAddresses)
    } else if n == 494 {
        Some(StatusCode::RequestHeaderTooLarge)
    } else if n == 495 {
        Some(StatusCode::SSLCertificateError)
    } else if n == 496 {
        Some(StatusCode::SSLCertificateRequired)
    } else if n == 497 {
        Some(StatusCode::HTTPRequestSentToHTTPSPort)
    } else if n == 498 {
        Some(StatusCode::InvalidToken)
    } else if n == 499 {
        Some(StatusCode::ClientClosedRequest)
    } else if n == 500 {
        Some(StatusCode::InternalServerError)
    } else if n == 501 {
        Some(StatusCode::NotImplemented)
    } else if n == 502 {
        Some(StatusCode::BadGateway)
    } else if n == 503 {
        Some(StatusCode::ServiceUnavailable)
    } else if n == 504 {
        Some(StatusCode::GatewayTimeout)
    } else if n == 505 {
        Some(StatusCode::HTTPVersionNotSupported)
    } else if n == 506 {
        Some(StatusCode::VariantAlsoNegotiates)
    } else if n == 507 {
        Some(StatusCode::InsufficientStorage)
    } else if n == 508 {
        Some(StatusCode::LoopDetected)
    } else if n == 509 {
        Some(StatusCode::BandwidthLimitExceeded)
    } else if n == 510 {
        Some(StatusCode::NotExtended)
    } else if n == 511 {
        Some(StatusCode::NetworkAuthenticationRequired)
    } else if n == 520 {
        Some(StatusCode::WebServerReturnedUnknownError)
    } else if n == 521 {
        Some(StatusCode::WebServerIsDown)
    } else if n == 522 {
        Some(StatusCode::ConnectionTimedOut)
    } else if n == 523 {
        Some(StatusCode::OriginIsUnreachable)
    } else if n == 524 {
        Some(StatusCode::ATimeoutOccurred)
    } else if n == 525 {
        Some(StatusCode::SSLHandshakeFailed)
    } else if n == 526 {
        Some(StatusCode::InvalidSSLCertificate)
    } else if n == 527 {
        Some(StatusCode::RailgunError)
    } else if n == 529 {
        Some(StatusCode::SiteIsOverloaded)
    } else if n == 530 {
        Some(StatusCode::SiteIsFrozen)
    } else if n == 561 {
        Some(StatusCode::UnauthorizedAuthentication)
    } else if n == 598 {
        Some(StatusCode::NetworkReadTimeoutError)
    } else {
        None
    }
}

/// The reason phrase of a status.
pub open spec fn reason_text(s: StatusCode) -> Seq<char> {
    match s {
        StatusCode::Continue => "Continue"@,
        StatusCode::SwitchingProtocols => "Switching Protocols"@,
        StatusCode::Processing => "Processing"@,
        StatusCode::EarlyHints => "Early Hints"@,
        StatusCode::OK => "OK"@,
        StatusCode::Created => "Created"@,
        StatusCode::Accepted => "Accepted"@,
        StatusCode::NonAuthoritativeInformation => "Non-Authoritative Information"@,
        StatusCode::NoContent => "No Content"@,
        StatusCode::ResetContent => "Reset Content"@,
        StatusCode::PartialContent => "Partial Content"@,
        StatusCode::MultiStatus => "Multi-Status"@,
        StatusCode::AlreadyReported => "Already Reported"@,
        StatusCode::ThisIsFine => "This Is Fine"@,
        StatusCode::IMUsed => "IM Used"@,
        StatusCode::MultipleChoices => "Multiple Choices"@,
        StatusCode::MovedPermanently => "Moved Permanently"@,
        StatusCode::Found => "Found"@,
        StatusCode::SeeOther => "See Other"@,
        StatusCode::NotModified => "Not Modified"@,
        StatusCode::UseProxy => "Use Proxy"@,
        StatusCode::SwitchProxy => "Switch Proxy"@,
        StatusCode::TemporaryRedirect => "Temporary Redirect"@,
        StatusCode::PermanentRedirect => "Permanent Redirect"@,
        StatusCode::BadRequest => "Bad Request"@,
        StatusCode::Unauthorized => "Unauthorized"@,
        StatusCode::PaymentRequired => "Payment Required"@,
        StatusCode::Forbidden => "Forbidden"@,
        StatusCode::NotFound => "Not Found"@,
        StatusCode::MethodNotAllowed => "Method Not Allowed"@,
        StatusCode::NotAcceptable => "Not Acceptable"@,
        StatusCode::ProxyAuthenticationRequired => "Proxy Authentication Required"@,
        StatusCode::RequestTimeout => "Request Timeout"@,
        StatusCode::Conflict => "Conflict"@,
        StatusCode::Gone => "Gone"@,
        StatusCode::LengthRequired => "Length Required"@,
        StatusCode::PreconditionFailed => "Precondition Failed"@,
        StatusCode::PayloadTooLarge => "Payload Too Large"@,
        StatusCode::URITooLong => "URI Too Long"@,
        StatusCode::UnsupportedMediaType => "Unsupported Media Type"@,
        StatusCode::RangeNotSatisfiable => "Range Not Satisfiable"@,
        StatusCode::ExpectationFailed => "Expectation Failed"@,
        StatusCode::ImATeapot => "I'm a teapot"@,
        StatusCode::PageExpired => "Page Expired"@,
        StatusCode::EnhanceYourCalm => "Enhance Your Calm"@,
        StatusCode::MisdirectedRequest => "Misdirected Request"@,
        StatusCode::UnprocessableEntity => "Unprocessable Entity"@,
        StatusCode::Locked => "Locked"@,
        StatusCode::FailedDependency => "Failed Dependency"@,
        StatusCode::TooEarly => "Too Early"@,
        StatusCode::UpgradeRequired => "Upgrade Required"@,
        StatusCode::PreconditionRequired => "Precondition Required"@,
        StatusCode::TooManyRequests => "Too Many Requests"@,
        StatusCode::RequestHeaderFieldsTooLargeShopify => "Request Header Fields Too Large"@,
        StatusCode::RequestHeaderFieldsTooLarge => "Request Header Fields Too Large"@,
        StatusCode::LoginTimeout => "Login Time-out"@,
        StatusCode::NoResponse => "No Response"@,
        StatusCode::RetryWith => "Retry With"@,
        StatusCode::BlockedByWindowsParentalControls => "Blocked by Windows Parental Controls"@,
        StatusCode::UnavailableForLegalReasons => "Unavailable For Legal Reasons"@,
        StatusCode::ClientClosedConnection => "Client Closed Connection"@,
        StatusCode::TooManyForwardedAddresses => "Too Many Forwarded Addresses"@,
        StatusCode::RequestHeaderTooLarge => "Request Header Too Large"@,
        StatusCode::SSLCertificateError => "SSL Certificate Error"@,
        StatusCode::SSLCertificateRequired => "SSL Certificate Required"@,
        StatusCode::HTTPRequestSentToHTTPSPort => "HTTP Request Sent to HTTPS Port"@,
        StatusCode::InvalidToken => "Invalid Token"@,
        StatusCode::ClientClosedRequest => "Client Closed Request"@,
        StatusCode::InternalServerError => "Internal Server Error"@,
        StatusCode::NotImplemented => "Not Implemented"@,
        StatusCode::BadGateway => "Bad Gateway"@,
        StatusCode::ServiceUnavailable => "Service Unavailable"@,
        StatusCode::GatewayTimeout => "Gateway Timeout"@,
        StatusCode::HTTPVersionNotSupported => "HTTP Version Not Supported"@,
        StatusCode::VariantAlsoNegotiates => "Variant Also Negotiates"@,
        StatusCode::InsufficientStorage => "Insufficient Storage"@,
        StatusCode::LoopDetected => "Loop Detected"@,
        StatusCode::BandwidthLimitExceeded => "Bandwidth Limit Exceeded"@,
        StatusCode::NotExtended => "Not Extended"@,
        StatusCode::NetworkAuthenticationRequired => "Network Authentication Required"@,
        StatusCode::WebServerReturnedUnknownError => "Web Server Returned an Unknown Error"@,
        StatusCode::WebServerIsDown => "Web Server Is Down"@,
        StatusCode::ConnectionTimedOut => "Connection Timed Out"@,
        StatusCode::OriginIsUnreachable => "Origin Is Unreachable"@,
        StatusCode::ATimeoutOccurred => "A Timeout Occurred"@,
        StatusCode::SSLHandshakeFailed => "SSL Handshake Failed"@,
        StatusCode::InvalidSSLCertificate => "Invalid SSL Certificate"@,
        StatusCode::RailgunError => "Railgun Error"@,
        StatusCode::SiteIsOverloaded => "Site is overloaded"@,
        StatusCode::SiteIsFrozen => "Site is frozen"@,
        StatusCode::UnauthorizedAuthentication => "Unauthorized"@,
        StatusCode::NetworkReadTimeoutError => "Network read timeout error"@,
    }
}

/// Every numeric code lies in the range 100 to 599.
pub proof fn lemma_status_number_range(s: StatusCode)
    ensures
        100 <= status_number(s) <= 599,
{
}

/// A status found for a number has that number.
pub proof fn lemma_status_of_number_sound(n: u16)
    ensures
        status_of_number(n) matches Some(s) ==> status_number(s) == n,
{
}

/// The numeric codes and the statuses are in one-to-one correspondence: looking up
/// the number of a status gives that status back, and looking up a number that no
/// status has gives nothing.
pub proof fn lemma_status_bijection(s: StatusCode, n: u16)
    ensures
        status_of_number(status_number(s)) == Some(s),
        status_of_number(n) is None <==> (forall|t: StatusCode| status_number(t) != n),
{
    lemma_status_of_number_sound(n);
    assert forall|t: StatusCode| status_of_number(status_number(t)) == Some(t) by {
        match t {
            StatusCode::Continue => {},
            StatusCode::SwitchingProtocols => {},
            StatusCode::Processing => {},
            StatusCode::EarlyHints => {},
            StatusCode::OK => {},
            StatusCode::Created => {},
            StatusCode::Accepted => {},
            StatusCode::NonAuthoritativeInformation => {},
            StatusCode::NoContent => {},
            StatusCode::ResetContent => {},
            StatusCode::PartialContent => {},
            StatusCode::MultiStatus => {},
            StatusCode::AlreadyReported => {},
            StatusCode::ThisIsFine => {},
            StatusCode::IMUsed => {},
            StatusCode::MultipleChoices => {},
            StatusCode::MovedPermanently => {},
            StatusCode::Found => {},
            StatusCode::SeeOther => {},
            StatusCode::NotModified => {},
            StatusCode::UseProxy => {},
            StatusCode::SwitchProxy => {},
            StatusCode::TemporaryRedirect => {},
            StatusCode::PermanentRedirect => {},
            StatusCode::BadRequest => {},
            StatusCode::Unauthorized => {},
            StatusCode::PaymentRequired => {},
            StatusCode::Forbidden => {},
            StatusCode::NotFound => {},
            StatusCode::MethodNotAllowed => {},
            StatusCode::NotAcceptable => {},
            StatusCode::ProxyAuthenticationRequired => {},
            StatusCode::RequestTimeout => {},
            StatusCode::Conflict => {},
            StatusCode::Gone => {},
            StatusCode::LengthRequired => {},
            StatusCode::PreconditionFailed => {},
            StatusCode::PayloadTooLarge => {},
            StatusCode::URITooLong => {},
            StatusCode::UnsupportedMediaType => {},
            StatusCode::RangeNotSatisfiable => {},
            StatusCode::ExpectationFailed => {},
            StatusCode::ImATeapot => {},
            StatusCode::PageExpired => {},
            StatusCode::EnhanceYourCalm => {},
            StatusCode::MisdirectedRequest => {},
            StatusCode::UnprocessableEntity => {},
            StatusCode::Locked => {},
            StatusCode::FailedDependency => {},
            StatusCode::TooEarly => {},
            StatusCode::UpgradeRequired => {},
            StatusCode::PreconditionRequired => {},
            StatusCode::TooManyRequests => {},
            StatusCode::RequestHeaderFieldsTooLargeShopify => {},
            StatusCode::RequestHeaderFieldsTooLarge => {},
            StatusCode::LoginTimeout => {},
            StatusCode::NoResponse => {},
            StatusCode::RetryWith => {},
            StatusCode::BlockedByWindowsParentalControls => {},
            StatusCode::UnavailableForLegalReasons => {},
            StatusCode::ClientClosedConnection => {},
            StatusCode::TooManyForwardedAddresses => {},
            StatusCode::RequestHeaderTooLarge => {},
            StatusCode::SSLCertificateError => {},
            StatusCode::SSLCertificateRequired => {},
            StatusCode::HTTPRequestSentToHTTPSPort => {},
            StatusCode::InvalidToken => {},
            StatusCode::ClientClosedRequest => {},
            StatusCode::InternalServerError => {},
            StatusCode::NotImplemented => {},
            StatusCode::BadGateway => {},
            StatusCode::ServiceUnavailable => {},
            StatusCode::GatewayTimeout => {},
            StatusCode::HTTPVersionNotSupported => {},
            StatusCode::VariantAlsoNegotiates => {},
            StatusCode::InsufficientStorage => {},
            StatusCode::LoopDetected => {},
            StatusCode::BandwidthLimitExceeded => {},
            StatusCode::NotExtended => {},
            StatusCode::NetworkAuthenticationRequired => {},
            StatusCode::WebServerReturnedUnknownError => {},
            StatusCode::WebServerIsDown => {},
            StatusCode::ConnectionTimedOut => {},
            StatusCode::OriginIsUnreachable => {},
            StatusCode::ATimeoutOccurred => {},
            StatusCode::SSLHandshakeFailed => {},
            StatusCode::InvalidSSLCertificate => {},
            StatusCode::RailgunError => {},
            StatusCode::SiteIsOverloaded => {},
            StatusCode::SiteIsFrozen => {},
            StatusCode::UnauthorizedAuthentication => {},
            StatusCode::NetworkReadTimeoutError => {},
        }
    }
}

impl StatusCode {
    /// The numeric code of this status.
    pub fn to_numeric(&self) -> (r: u16)
        ensures
            r == status_number(*self),
    {
        match self {
            StatusCode::Continue => 100,
            StatusCode::SwitchingProtocols => 101,
            StatusCode::Processing => 102,
            StatusCode::EarlyHints => 103,
            StatusCode::OK => 200,
            StatusCode::Created => 201,
            StatusCode::Accepted => 202,
            StatusCode::NonAuthoritativeInformation => 203,
            StatusCode::NoContent => 204,
            StatusCode::ResetContent => 205,
            StatusCode::PartialContent => 206,
            StatusCode::MultiStatus => 207,
            StatusCode::AlreadyReported => 208,
            StatusCode::ThisIsFine => 218,
            StatusCode::IMUsed => 226,
            StatusCode::MultipleChoices => 300,
            StatusCode::MovedPermanently => 301,
            StatusCode::Found => 302,
            StatusCode::SeeOther => 303,
            StatusCode::NotModified => 304,
            StatusCode::UseProxy => 305,
            StatusCode::SwitchProxy => 306,
            StatusCode::TemporaryRedirect => 307,
            StatusCode::PermanentRedirect => 308,
            StatusCode::BadRequest => 400,
            StatusCode::Unauthorized => 401,
            StatusCode::PaymentRequired => 402,
            StatusCode::Forbidden => 403,
            StatusCode::NotFound => 404,
            StatusCode::MethodNotAllowed => 405,
            StatusCode::NotAcceptable => 406,
            StatusCode::ProxyAuthenticationRequired => 407,
            StatusCode::RequestTimeout => 408,
            StatusCode::Conflict => 409,
            StatusCode::Gone => 410,
            StatusCode::LengthRequired => 411,
            StatusCode::PreconditionFailed => 412,
            StatusCode::PayloadTooLarge => 413,
            StatusCode::URITooLong => 414,
            StatusCode::UnsupportedMediaType => 415,
            StatusCode::RangeNotSatisfiable => 416,
            StatusCode::ExpectationFailed => 417,
            StatusCode::ImATeapot => 418,
            StatusCode::PageExpired => 419,
            StatusCode::EnhanceYourCalm => 420,
            StatusCode::MisdirectedRequest => 421,
            StatusCode::UnprocessableEntity => 422,
            StatusCode::Locked => 423,
            StatusCode::FailedDependency => 424,
            StatusCode::TooEarly => 425,
            StatusCode::UpgradeRequired => 426,
            StatusCode::PreconditionRequired => 428,
            StatusCode::TooManyRequests => 429,
            StatusCode::RequestHeaderFieldsTooLargeShopify => 430,
            StatusCode::RequestHeaderFieldsTooLarge => 431,
            StatusCode::LoginTimeout => 440,
            StatusCode::NoResponse => 444,
            StatusCode::RetryWith => 449,
            StatusCode::BlockedByWindowsParentalControls => 450,
            StatusCode::UnavailableForLegalReasons => 451,
            StatusCode::ClientClosedConnection => 460,
            StatusCode::TooManyForwardedAddresses => 463,
            StatusCode::RequestHeaderTooLarge => 494,
            StatusCode::SSLCertificateError => 495,
            StatusCode::SSLCertificateRequired => 496,
            StatusCode::HTTPRequestSentToHTTPSPort => 497,
            StatusCode::InvalidToken => 498,
            StatusCode::ClientClosedRequest => 499,
            StatusCode::InternalServerError => 500,
            StatusCode::NotImplemented => 501,
            StatusCode::BadGateway => 502,
            StatusCode::ServiceUnavailable => 503,
            StatusCode::GatewayTimeout => 504,
            StatusCode::HTTPVersionNotSupported => 505,
            StatusCode::VariantAlsoNegotiates => 506,
            StatusCode::InsufficientStorage => 507,
            StatusCode::LoopDetected => 508,
            StatusCode::BandwidthLimitExceeded => 509,
            StatusCode::NotExtended => 510,
            StatusCode::NetworkAuthenticationRequired => 511,
            StatusCode::WebServerReturnedUnknownError => 520,
            StatusCode::WebServerIsDown => 521,
            StatusCode::ConnectionTimedOut => 522,
            StatusCode::OriginIsUnreachable => 523,
            StatusCode::ATimeoutOccurred => 524,
            StatusCode::SSLHandshakeFailed => 525,
            StatusCode::InvalidSSLCertificate => 526,
            StatusCode::RailgunError => 527,
            StatusCode::SiteIsOverloaded => 529,
            StatusCode::SiteIsFrozen => 530,
            StatusCode::UnauthorizedAuthentication => 561,
            StatusCode::NetworkReadTimeoutError => 598,
        }
    }

    /// The status with numeric code `n`; codes outside the table are rejected.
    pub fn from_numeric(n: u16) -> (r: Result<StatusCode, ParseError>)
        ensures
            r == (match status_of_number(n) {
                Some(s) => Ok(s),
                None => Err(ParseError::UnknownStatusCode),
            }),
    {
        if n == 100 {
            Ok(StatusCode::Continue)
        } else if n == 101 {
            Ok(StatusCode::SwitchingProtocols)
        } else if n == 102 {
            Ok(StatusCode::Processing)
        } else if n == 103 {
            Ok(StatusCode::EarlyHints)
        } else if n == 200 {
            Ok(StatusCode::OK)
        } else if n == 201 {
            Ok(StatusCode::Created)
        } else if n == 202 {
            Ok(StatusCode::Accepted)
        } else if n == 203 {
            Ok(StatusCode::NonAuthoritativeInformation)
        } else if n == 204 {
            Ok(StatusCode::NoContent)
        } else if n == 205 {
            Ok(StatusCode::ResetContent)
        } else if n == 206 {
            Ok(StatusCode::PartialContent)
        } else if n == 207 {
            Ok(StatusCode::MultiStatus)
        } else if n == 208 {
            Ok(StatusCode::AlreadyReported)
        } else if n == 218 {
            Ok(StatusCode::ThisIsFine)
        } else if n == 226 {
            Ok(StatusCode::IMUsed)
        } else if n == 300 {
            Ok(StatusCode::MultipleChoices)
        } else if n == 301 {
            Ok(StatusCode::MovedPermanently)
        } else if n == 302 {
            Ok(StatusCode::Found)
        } else if n == 303 {
            Ok(StatusCode::SeeOther)
        } else if n == 304 {
            Ok(StatusCode::NotModified)
        } else if n == 305 {
            Ok(StatusCode::UseProxy)
        } else if n == 306 {
            Ok(StatusCode::SwitchProxy)
        } else if n == 307 {
            Ok(StatusCode::TemporaryRedirect)
        } else if n == 308 {
            Ok(StatusCode::PermanentRedirect)
        } else if n == 400 {
            Ok(StatusCode::BadRequest)
        } else if n == 401 {
            Ok(StatusCode::Unauthorized)
        } else if n == 402 {
            Ok(StatusCode::PaymentRequired)
        } else if n == 403 {
            Ok(StatusCode::Forbidden)
        } else if n == 404 {
            Ok(StatusCode::NotFound)
        } else if n == 405 {
            Ok(StatusCode::MethodNotAllowed)
        } else if n == 406 {
            Ok(StatusCode::NotAcceptable)
        } else if n == 407 {
            Ok(StatusCode::ProxyAuthenticationRequired)
        } else if n == 408 {
            Ok(StatusCode::RequestTimeout)
        } else if n == 409 {
            Ok(StatusCode::Conflict)
        } else if n == 410 {
            Ok(StatusCode::Gone)
        } else if n == 411 {
            Ok(StatusCode::LengthRequired)
        } else if n == 412 {
            Ok(StatusCode::PreconditionFailed)
        } else if n == 413 {
            Ok(StatusCode::PayloadTooLarge)
        } else if n == 414 {
            Ok(StatusCode::URITooLong)
        } else if n == 415 {
            Ok(StatusCode::UnsupportedMediaType)
        } else if n == 416 {
            Ok(StatusCode::RangeNotSatisfiable)
        } else if n == 417 {
            Ok(StatusCode::ExpectationFailed)
        } else if n == 418 {
            Ok(StatusCode::ImATeapot)
        } else if n == 419 {
            Ok(StatusCode::PageExpired)
        } else if n == 420 {
            Ok(StatusCode::EnhanceYourCalm)
        } else if n == 421 {
            Ok(StatusCode::MisdirectedRequest)
        } else if n == 422 {
            Ok(StatusCode::UnprocessableEntity)
        } else if n == 423 {
            Ok(StatusCode::Locked)
        } else if n == 424 {
            Ok(StatusCode::FailedDependency)
        } else if n == 425 {
            Ok(StatusCode::TooEarly)
        } else if n == 426 {
            Ok(StatusCode::UpgradeRequired)
        } else if n == 428 {
            Ok(StatusCode::PreconditionRequired)
        } else if n == 429 {
            Ok(StatusCode::TooManyRequests)
        } else if n == 430 {
            Ok(StatusCode::RequestHeaderFieldsTooLargeShopify)
        } else if n == 431 {
            Ok(StatusCode::RequestHeaderFieldsTooLarge)
        } else if n == 440 {
            Ok(StatusCode::LoginTimeout)
        } else if n == 444 {
            Ok(StatusCode::NoResponse)
        } else if n == 449 {
            Ok(StatusCode::RetryWith)
        } else if n == 450 {
            Ok(StatusCode::BlockedByWindowsParentalControls)
        } else if n == 451 {
            Ok(StatusCode::UnavailableForLegalReasons)
        } else if n == 460 {
            Ok(StatusCode::ClientClosedConnection)
        } else if n == 463 {
            Ok(StatusCode::TooManyForwardedAddresses)
        } else if n == 494 {
            Ok(StatusCode::RequestHeaderTooLarge)
        } else if n == 495 {
            Ok(StatusCode::SSLCertificateError)
        } else if n == 496 {
            Ok(StatusCode::SSLCertificateRequired)
        } else if n == 497 {
            Ok(StatusCode::HTTPRequestSentToHTTPSPort)
        } else if n == 498 {
            Ok(StatusCode::InvalidToken)
        } else if n == 499 {
            Ok(StatusCode::ClientClosedRequest)
        } else if n == 500 {
            Ok(StatusCode::InternalServerError)
        } else if n == 501 {
            Ok(StatusCode::NotImplemented)
        } else if n == 502 {
            Ok(StatusCode::BadGateway)
        } else if n == 503 {
            Ok(StatusCode::ServiceUnavailable)
        } else if n == 504 {
            Ok(StatusCode::GatewayTimeout)
        } else if n == 505 {
            Ok(StatusCode::HTTPVersionNotSupported)
        } else if n == 506 {
            Ok(StatusCode::VariantAlsoNegotiates)
        } else if n == 507 {
            Ok(StatusCode::InsufficientStorage)
        } else if n == 508 {
            Ok(StatusCode::LoopDetected)
        } else if n == 509 {
            Ok(StatusCode::BandwidthLimitExceeded)
        } else if n == 510 {
            Ok(StatusCode::NotExtended)
        } else if n == 511 {
            Ok(StatusCode::NetworkAuthenticationRequired)
        } else if n == 520 {
            Ok(StatusCode::WebServerReturnedUnknownError)
        } else if n == 521 {
            Ok(StatusCode::WebServerIsDown)
        } else if n == 522 {
            Ok(StatusCode::ConnectionTimedOut)
        } else if n == 523 {
            Ok(StatusCode::OriginIsUnreachable)
        } else if n == 524 {
            Ok(StatusCode::ATimeoutOccurred)
        } else if n == 525 {
            Ok(StatusCode::SSLHandshakeFailed)
        } else if n == 526 {
            Ok(StatusCode::InvalidSSLCertificate)
        } else if n == 527 {
            Ok(StatusCode::RailgunError)
        } else if n == 529 {
            Ok(StatusCode::SiteIsOverloaded)
        } else if n == 530 {
            Ok(StatusCode::SiteIsFrozen)
        } else if n == 561 {
            Ok(StatusCode::UnauthorizedAuthentication)
        } else if n == 598 {
            Ok(StatusCode::NetworkReadTimeoutError)
        } else {
            Err(ParseError::UnknownStatusCode)
        }
    }

    /// The reason phrase of this status.
    pub fn reason_phrase(&self) -> (r: &'static str)
        ensures
            r@ == reason_text(*self),
    {
        match self {
            StatusCode::Continue => "Continue",
            StatusCode::SwitchingProtocols => "Switching Protocols",
            StatusCode::Processing => "Processing",
            StatusCode::EarlyHints => "Early Hints",
            StatusCode::OK => "OK",
            StatusCode::Created => "Created",
            StatusCode::Accepted => "Accepted",
            StatusCode::NonAuthoritativeInformation => "Non-Authoritative Information",
            StatusCode::NoContent => "No Content",
            StatusCode::ResetContent => "Reset Content",
            StatusCode::PartialContent => "Partial Content",
            StatusCode::MultiStatus => "Multi-Status",
            StatusCode::AlreadyReported => "Already Reported",
            StatusCode::ThisIsFine => "This Is Fine",
            StatusCode::IMUsed => "IM Used",
            StatusCode::MultipleChoices => "Multiple Choices",
            StatusCode::MovedPermanently => "Moved Permanently",
            StatusCode::Found => "Found",
            StatusCode::SeeOther => "See Other",
            StatusCode::NotModified => "Not Modified",
            StatusCode::UseProxy => "Use Proxy",
            StatusCode::SwitchProxy => "Switch Proxy",
            StatusCode::TemporaryRedirect => "Temporary Redirect",
            StatusCode::PermanentRedirect => "Permanent Redirect",
            StatusCode::BadRequest => "Bad Request",
            StatusCode::Unauthorized => "Unauthorized",
            StatusCode::PaymentRequired => "Payment Required",
            StatusCode::Forbidden => "Forbidden",
            StatusCode::NotFound => "Not Found",
            StatusCode::MethodNotAllowed => "Method Not Allowed",
            StatusCode::NotAcceptable => "Not Acceptable",
            StatusCode::ProxyAuthenticationRequired => "Proxy Authentication Required",
            StatusCode::RequestTimeout => "Request Timeout",
            StatusCode::Conflict => "Conflict",
            StatusCode::Gone => "Gone",
            StatusCode::LengthRequired => "Length Required",
            StatusCode::PreconditionFailed => "Precondition Failed",
            StatusCode::PayloadTooLarge => "Payload Too Large",
            StatusCode::URITooLong => "URI Too Long",
            StatusCode::UnsupportedMediaType => "Unsupported Media Type",
            StatusCode::RangeNotSatisfiable => "Range Not Satisfiable",
            StatusCode::ExpectationFailed => "Expectation Failed",
            StatusCode::ImATeapot => "I'm a teapot",
            StatusCode::PageExpired => "Page Expired",
            StatusCode::EnhanceYourCalm => "Enhance Your Calm",
            StatusCode::MisdirectedRequest => "Misdirected Request",
            StatusCode::UnprocessableEntity => "Unprocessable Entity",
            StatusCode::Locked => "Locked",
            StatusCode::FailedDependency => "Failed Dependency",
            StatusCode::TooEarly => "Too Early",
            StatusCode::UpgradeRequired => "Upgrade Required",
            StatusCode::PreconditionRequired => "Precondition Required",
            StatusCode::TooManyRequests => "Too Many Requests",
            StatusCode::RequestHeaderFieldsTooLargeShopify => "Request Header Fields Too Large",
            StatusCode::RequestHeaderFieldsTooLarge => "Request Header Fields Too Large",
            StatusCode::LoginTimeout => "Login Time-out",
            StatusCode::NoResponse => "No Response",
            StatusCode::RetryWith => "Retry With",
            StatusCode::BlockedByWindowsParentalControls => "Blocked by Windows Parental Controls",
            StatusCode::UnavailableForLegalReasons => "Unavailable For Legal Reasons",
            StatusCode::ClientClosedConnection => "Client Closed Connection",
            StatusCode::TooManyForwardedAddresses => "Too Many Forwarded Addresses",
            StatusCode::RequestHeaderTooLarge => "Request Header Too Large",
            StatusCode::SSLCertificateError => "SSL Certificate Error",
            StatusCode::SSLCertificateRequired => "SSL Certificate Required",
            StatusCode::HTTPRequestSentToHTTPSPort => "HTTP Request Sent to HTTPS Port",
            StatusCode::InvalidToken => "Invalid Token",
            StatusCode::ClientClosedRequest => "Client Closed Request",
            StatusCode::InternalServerError => "Internal Server Error",
            StatusCode::NotImplemented => "Not Implemented",
            StatusCode::BadGateway => "Bad Gateway",
            StatusCode::ServiceUnavailable => "Service Unavailable",
            StatusCode::GatewayTimeout => "Gateway Timeout",
            StatusCode::HTTPVersionNotSupported => "HTTP Version Not Supported",
            StatusCode::VariantAlsoNegotiates => "Variant Also Negotiates",
            StatusCode::InsufficientStorage => "Insufficient Storage",
            StatusCode::LoopDetected => "Loop Detected",
            StatusCode::BandwidthLimitExceeded => "Bandwidth Limit Exceeded",
            StatusCode::NotExtended => "Not Extended",
            StatusCode::NetworkAuthenticationRequired => "Network Authentication Required",
            StatusCode::WebServerReturnedUnknownError => "Web Server Returned an Unknown Error",
            StatusCode::WebServerIsDown => "Web Server Is Down",
            StatusCode::ConnectionTimedOut => "Connection Timed Out",
            StatusCode::OriginIsUnreachable => "Origin Is Unreachable",
            StatusCode::ATimeoutOccurred => "A Timeout Occurred",
            StatusCode::SSLHandshakeFailed => "SSL Handshake Failed",
            StatusCode::InvalidSSLCertificate => "Invalid SSL Certificate",
            StatusCode::RailgunError => "Railgun Error",
            StatusCode::SiteIsOverloaded => "Site is overloaded",
            StatusCode::SiteIsFrozen => "Site is frozen",
            StatusCode::UnauthorizedAuthentication => "Unauthorized",
            StatusCode::NetworkReadTimeoutError => "Network read timeout error",
        }
    }
}

} // verus!
