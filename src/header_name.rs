//! Header field names (RFC 7230 section 3.2) and the registry of known names.
use vstd::prelude::*;

use crate::abnf::{is_tchar, tchar};
use crate::scheme::{lower_all, to_lower};
use crate::status_code::StatusCode;
use crate::utils::bytes_eq;

verus! {

/// A header field name: one of the names of the HTTP Field Name Registry, or any other token.
/// Names are kept in lower case, so that two spellings of one name compare equal.
///
/// ```text
/// field-name = token
/// token      = 1*tchar
/// ```
#[allow(non_camel_case_types)]
#[derive(Debug, PartialEq, Eq, Hash)]
pub enum HeaderFieldName {
    /// Field name A-IM with a permanent status - reference RFC4229
    A_IM,
    /// Field name Accept with a permanent status - reference RFC7231 Section 5.3.2
    ACCEPT,
    /// Field name Accept-Additions with a permanent status - reference RFC4229
    ACCEPT_ADDITIONS,
    /// Field name Accept-CH with a permanent status - reference RFC8942
    ACCEPT_CH,
    /// Field name Accept-Charset with a deprecated status - reference RFC7231 Section 5.3.3
    ACCEPT_CHARSET,
    /// Field name Accept-Datetime with a permanent status - reference RFC7089
    ACCEPT_DATETIME,
    /// Field name Accept-Encoding with a permanent status - reference RFC7231 Section 5.3.4
    ACCEPT_ENCODING,
    /// Field name Accept-Features with a permanent status - reference RFC4229
    ACCEPT_FEATURES,
    /// Field name Accept-Languages with a permanent status - reference RFC7231 Section 5.3.5
    ACCEPT_LANGUAGES,
    /// Field name Accept-Patch with a provisional status - reference RFC5789
    ACCEPT_PATCH,
    /// Field name Accept-Post with a permanent status - reference W3C Linked Data Platform 1.0
    ACCEPT_POST,
    /// Field name Accept-Ranges with a permanent status - reference RFC7233 Section 2.3
    ACCEPT_RANGES,
    /// Field name Access-Control-Allow-Credentials with a permanent status - reference fetch spec WHATWG
    ACCESS_CONTROL_ALLOW_CREDENTIALS,
    /// Field name Access-Control-Allow-Headers with a permanent status - reference fetch spec WHATWG
    ACCESS_CONTROL_ALLOW_HEADERS,
    /// Field name Access-Control-Allow-Methods with a permanent status - reference fetch spec WHATWG
    ACCESS_CONTROL_ALLOW_METHODS,
    /// Field name Access-Control-Allow-Origin with a permanent status - reference fetch spec WHATWG
    ACCESS_CONTROL_ALLOW_ORIGIN,
    /// Field name Access-Control-Expose-Headers with a permanent status - reference fetch spec WHATWG
    ACCESS_CONTROL_EXPOSE_HEADERS,
    /// Field name Access-Control-Max-Age with a permanent status - reference fetch spec WHATWG
    ACCESS_CONTROL_MAX_AGE,
    /// Field name Access-Control-Request-Headers with a permanent status - reference fetch spec WHATWG
    ACCESS_CONTROL_REQUEST_HEADERS,
    /// Field name Access-Control-Request-Method with a permanent status - reference fetch spec WHATWG
    ACCESS_CONTROL_REQUEST_METHOD,
    /// Field name Age with a permanent status - reference RFC7234 Section 5.1
    AGE,
    /// Field name Allow with a permanent status - reference RFC7231 Section 7.4.1
    ALLOW,
    /// Field name ALPN with a permanent status - reference RFC7639
    ALPN,
    /// Field name Alt-Svc with a permanent status - reference RFC7838
    ALT_SVC,
    /// Field name Alt-Used with a permanent status - reference RFC7838
    ALT_USED,
    /// Field name Alternates with a permanent status - reference RFC4229
    ALTERNATES,
    /// Field name Apply-To-Redirect-Ref with a permanent status - reference RFC4437
    APPLY_TO_REDIRECT_REF,
    /// Field name Authentication-Control with a permanent status - reference RFC8053
    AUTHENTICATION_CONTROL,
    /// Field name Authorization with a permanent status - reference RFC7235
    AUTHORIZATION,
    /// Field name C-Ext with a permanent status - reference RFC4229
    C_EXT,
    /// Field name C-Man with a permanent status - reference RFC4229
    C_MAN,
    /// Field name C-Opt with a permanent status - reference RFC4229
    C_OPT,
    /// Field name C-PEP with a permanent status - reference RFC4229
    C_PEP,
    /// Field name C-PEP-Info with a deprecated status - reference RFC4229
    C_PEP_INFO,
    /// Field name Cache-Control with a permanent status - reference RFC7234 Section 5.2
    CACHE_CONTROL,
    /// Field name Cal-Managed-ID with a permanent status - reference RFC8607
    CAL_MANAGED_ID,
    /// Field name CalDAV-Timezones with a permanent status - reference RFC7809
    CALDAV_TIMEZONES,
    /// Field name CDN-Loop with a permanent status - reference RFC8586
    CDN_LOOP,
    /// Field name Cert-Not-After with a permanent status - reference RFC8739
    CERT_NOT_AFTER,
    /// Field name Cert-Not-Before with a permanent status - reference RFC8739
    CERT_NOT_BEFORE,
    /// Field name Compliance with a provisional status - reference RFC4229
    COMPLIANCE,
    /// Field name Connection with a permanent status - reference RFC7230 Section 6.1
    CONNECTION,
    /// Field name Content-Disposition with a permanent status - reference RFC6266
    CONTENT_DISPOSITION,
    /// Field name Content-Encoding with a permanent status - reference RFC7231 Section 3.1.2.2
    CONTENT_ENCODING,
    /// Field name Content-ID with a permanent status - reference RFC4229
    CONTENT_ID,
    /// Field name Content-Language with a permanent status - reference RFC7231 Section 3.1.3.2
    CONTENT_LANGUAGE,
    /// Field name Content-Length with a permanent status - reference RFC7230 Section 3.3.2
    CONTENT_LENGTH,
    /// Field name Content-Location with a permanent status - reference RFC7231 Section 3.1.4.2
    CONTENT_LOCATION,
    /// Field name Content-Range with a permanent status - reference RFC7233 Section 4.2
    CONTENT_RANGE,
    /// Field name Content-Script-Type with a permanent status - reference RFC4229
    CONTENT_SCRIPT_TYPE,
    /// Field name Content-Style-Type with a permanent status - reference RFC4229
    CONTENT_STYLE_TYPE,
    /// Field name Content-Transfer-Encoding with a permanent status - reference RFC4229
    CONTENT_TRANSFER_ENCODING,
    /// Field name Content-Type with a permanent status - reference RFC7231 Section 3.1.1.5
    CONTENT_TYPE,
    /// Field name Content-Version with a permanent status - reference RFC4229
    CONTENT_VERSION,
    /// Field name Cookie with a permanent status - reference RFC6265
    COOKIE,
    /// Field name Cost with a permanent status - reference RFC4229
    COST,
    /// Field name Cross-Origin-Resource-Policy with a permanent status - reference fetch spec WHATWG
    CROSS_ORIGIN_RESOURCE_POLICY,
    /// Field name DASL with a permanent status - reference RFC5323
    DASL,
    /// Field name Date with a permanent status - reference RFC7231 Section 7.1.1.2
    DATE,
    /// Field name DAV with a permanent status - reference RFC4918
    DAV,
    /// Field name Default-Style with a permanent status - reference RFC4229
    DEFAULT_STYLE,
    /// Field name Delta-Base with a permanent status - reference RFC4229
    DELTA_BASE,
    /// Field name Depth with a permanent status - reference RFC4918
    DEPTH,
    /// Field name Derived-From with a permanent status - reference RFC4229
    DERIVED_FROM,
    /// Field name Destination with a permanent status - reference RFC4918
    DESTINATION,
    /// Field name Differential-ID with a permanent status - reference RFC4229
    DIFFERENTIAL_ID,
    /// Field name Digest with a permanent status - reference RFC4229
    DIGEST,
    /// Field name Early-Data with a permanent status - reference RFC8470
    EARLY_DATA,
    /// Field name EDIINT-Features with a permanent status - reference RFC6017
    EDIINT_FEATURES,
    /// Field name ETag with a permanent status - reference RFC7232 Section 2.3
    ETAG,
    /// Field name Expect with a permanent status - reference RFC7231 Section 5.1.1
    EXPECT,
    /// Field name Expires with a permanent status - reference RFC7234 Section 5.3
    EXPIRES,
    /// Field name Ext with a permanent status - reference RFC4229
    EXT,
    /// Field name Forwarded with a permanent status - reference RFC7239
    FORWARDED,
    /// Field name From with a permanent status - reference RFC7231 Section 5.5.1
    FROM,
    /// Field name GetProfile with a permanent status - reference RFC4229
    GETPROFILE,
    /// Field name Hobareg with a permanent status - reference RFC7486
    HOBAREG,
    /// Field name Host with a permanent status - reference RFC7230 Section 5.4
    HOST,
    /// Field name HTTP2-Settings with a permanent status - reference RFC7540
    HTTP2_SETTINGS,
    /// Field name If with a permanent status - reference RFC4918
    IF,
    /// Field name If-Match with a permanent status - reference RFC7232 Section 3.1
    IF_MATCH,
    /// Field name If-Modified-Since with a permanent status - reference RFC7232 Section 3.3
    IF_MODIFIED_SINCE,
    /// Field name If-None-Match with a permanent status - reference RFC7232 Section 3.2
    IF_NONE_MATCH,
    /// Field name If-Range with a permanent status - reference RFC7232 Section 3.5
    IF_RANGE,
    /// Field name If-Schedule-Tag-Match with a permanent status - reference RFC6638
    IF_SCHEDULE_TAG_MATCH,
    /// Field name If-Unmodified-Since with a permanent status - reference RFC7232 Section 3.4
    IF_UNMODIFIED_SINCE,
    /// Field name IM with a permanent status - reference RFC4229
    IM,
    /// Field name Include-Referred-Token-Binding-ID with a permanent status - reference RFC8473
    INCLUDE_REFERRED_TOKEN_BINDING_ID,
    /// Field name Keep-Alive with a permanent status - reference RFC4229
    KEEP_ALICE,
    /// Field name Label with a permanent status - reference RFC4229
    LABEL,
    /// Field name Last-Modified with a permanent status - reference RFC7232 Section 2.2
    LAST_MODIFIED,
    /// Field name Link with a permanent status - reference RFC8288
    LINK,
    /// Field name Location with a permanent status - reference RFC7231 Section 7.1.2
    LOCATION,
    /// Field name Lock-Token with a permanent status - reference RFC4918
    LOCK_TOKEN,
    /// Field name Man with a permanent status - reference RFC4229
    MAN,
    /// Field name Max-Forwards with a permanent status - reference RFC7231 Section 5.1.2
    MAX_FORWARDS,
    /// Field name Memento-Datetime with a permanent status - reference RFC7089
    MEMENTO_DATETIME,
    /// Field name Message-ID with a permanent status - reference RFC4229
    MESSAGE_ID,
    /// Field name Meter with a permanent status - reference RFC4229
    METER,
    /// Field name MIME-Version with a permanent status - reference RFC7231 Appendix A.1
    MIME_VERSION,
    /// Field name Negotiate with a permanent status - reference RFC4229
    NEGOTIATE,
    /// Field name Non-Compliance with a permanent status - reference RFC4229
    NON_COMPLIANCE,
    /// Field name Opt with a permanent status - reference RFC4229
    OPT,
    /// Field name Optional with a permanent status - reference RFC4229
    OPTIONAL,
    /// Field name Optional-WWW-Authenticate with a permanent status - reference RFC8053
    OPTIONAL_WWW_AUTHENTICATE,
    /// Field name Ordering-Type with a permanent status - reference RFC4229
    ORDERING_TYPE,
    /// Field name Origin with a permanent status - reference RFC6454
    ORIGIN,
    /// Field name OSCOR with a permanent status - reference RFC8613
    OSCOR,
    /// Field name Overwrite with a permanent status - reference RFC4918
    OVERWRITE,
    /// Field name P3P with a permanent status - reference RFC4229
    P3P,
    /// Field name PEP with a permanent status - reference RFC4229
    PEP,
    /// Field name Pep-Info with a permanent status - reference RFC4229
    PEP_INFO,
    /// Field name PICS-Label with a permanent status - reference RFC4229
    PICS_LABEL,
    /// Field name Position with a permanent status - reference RFC4229
    POSITION,
    /// Field name Pragma with a permanent status - reference RFC7234 Section 5.4
    PRAGME,
    /// Field name Prefer with a permanent status - reference RFC7240
    PREFER,
    /// Field name Preference-Applied with a permanent status - reference RFC7240
    PREFERENCE_APPLIED,
    /// Field name ProfileObject with a permanent status - reference RFC4229
    PROFILEOBJECT,
    /// Field name Protocol with a permanent status - reference RFC4229
    PROTOCOL,
    /// Field name Protocol-Request with a permanent status - reference RFC4229
    PROTOCOL_REQUEST,
    /// Field name Proxy-Authenticate with a permanent status - reference RFC7235 Section 4.3
    PROXY_AUTHENTICATE,
    /// Field name Proxy-Authorization with a permanent status - reference RFC7235 Section 4.4
    PROXY_AUTHORIZATION,
    /// Field name Proxy-Features with a permanent status - reference RFC4229
    PROXY_FEATURES,
    /// Field name Proxy-Instruction with a permanent status - reference RFC4229
    PROXY_INSTRUCTION,
    /// Field name Public with a permanent status - reference RFC4229
    PUBLIC,
    /// Field name Public-Key-Pins with a permanent status - reference RFC7469
    PUBLIC_KEY_PINS,
    /// Field name Public-Key-Pins-Report-Only with a permanent status - reference RFC7469
    PUBLIC_KEY_PINS_REPORT_ONLY,
    /// Field name Range with a permanent status - reference RFC7233 Section 3.1
    RANGE,
    /// Field name Redirect-Ref with a permanent status - reference RFC4437
    REDIRECT_REF,
    /// Field name Referer with a permanent status - reference RFC7231 Section 5.5.2
    REFERER,
    /// Field name Replay-Nonce with a permanent status - reference RFC8555
    REPLAY_NONCE,
    /// Field name Resolution-Hint with a permanent status - reference RFC4229
    RESOLUTION_HINT,
    /// Field name Resolver-Location with a permanent status - reference RFC4229
    RESOLVER_LOCATION,
    /// Field name Retry-After with a permanent status - reference RFC7231 Section 7.1.3
    RETRY_AFTER,
    /// Field name Safe with a permanent status - reference RFC4229
    SAFE,
    /// Field name Schedule-Reply with a permanent status - reference RFC6638
    SCHEDULE_REPLAY,
    /// Field name Schedule-Tag with a permanent status - reference RFC6638
    SCHEDULE_TAG,
    /// Field name Sec-Token-Binding with a permanent status - reference RFC8473
    SEC_TOKEN_BINDING,
    /// Field name Sec-WebSocket-Accept with a permanent status - reference RFC6455
    SEC_WEBSOCKET_ACCEPT,
    /// Field name Sec-WebSocket-Extensions with a permanent status - reference RFC6455
    SEC_WEBSOCKET_EXTENSIONS,
    /// Field name Sec-WebSocket-Key with a permanent status - reference RFC6455
    SEC_WEBSOCKET_KEY,
    /// Field name Sec-WebSocket-Protocol with a permanent status - reference RFC6455
    SEC_WEBSOCKET_PROTOCOL,
    /// Field name Sec-WebSocket-Version with a permanent status - reference RFC6455
    SEC_WEBSOCKET_VERSION,
    /// Field name Security-Scheme with a permanent status - reference RFC4229
    SECURITY_SCHEME,
    /// Field name Server with a permanent status - reference RFC7231 Section 7.4.2
    SERVER,
    /// Field name Set-Cookie with a permanent status - reference RFC6265
    SET_COOKIE,
    /// Field name SetProfile with a permanent status - reference RFC4229
    SETPROFILE,
    /// Field name SLUG with a permanent status - reference RFC5023
    SLUG,
    /// Field name SoapAction with a permanent status - reference RFC4229
    SOAPACTION,
    /// Field name Status-URI with a permanent status - reference RFC4229
    STATUS_URI,
    /// Field name Strict-Transport-Security with a permanent status - reference RFC6797
    STRICT_TRANSPORT_SECURITY,
    /// Field name SubOK with a permanent status - reference RFC4229
    SUBOK,
    /// Field name Subst with a permanent status - reference RFC4229
    SUBST,
    /// Field name Sunset with a permanent status - reference RFC8594
    SUNSET,
    /// Field name Surrogate-Capability with a permanent status - reference RFC4229
    SURROGATE_CAPABILITY,
    /// Field name Surrogate-Control with a permanent status - reference RFC4229
    SURROGATE_CONTROL,
    /// Field name TCN with a permanent status - reference RFC4229
    TCN,
    /// Field name TE with a permanent status - reference RFC7230 Section 4.3
    TE,
    /// Field name Timeout with a permanent status - reference RFC4918
    TIMEOUT,
    /// Field name Title with a permanent status - reference RFC4229
    TITLE,
    /// Field name Topic with a permanent status - reference RFC8030
    TOPIC,
    /// Field name Trailer with a permanent status - reference RFC7230 Section 4.4
    TRAILER,
    /// Field name Transfer-Encoding with a permanent status - reference RFC7230 Section 3.3.1
    TRANSFER_ENCODING,
    /// Field name TTL with a permanent status - reference RFC8030
    TTL,
    /// Field name UA-Color with a permanent status - reference RFC4229
    UA_COLOR,
    /// Field name UA-Media with a permanent status - reference RFC4229
    UA_MEDIA,
    /// Field name UA-Pixels with a permanent status - reference RFC4229
    UA_PIXELS,
    /// Field name UA-Resolution with a permanent status - reference RFC4229
    UA_RESOLUTION,
    /// Field name UA-Windowpixels with a permanent status - reference RFC4229
    UA_WINDOWPIXELS,
    /// Field name Upgrade with a permanent status - reference RFC7230 Section 6.7
    UPGRADE,
    /// Field name Urgency with a permanent status - reference RFC8030
    URGENCY,
    /// Field name URI with a permanent status - reference RFC4229
    URI,
    /// Field name User-Agent with a permanent status - reference RFC7231 Section 5.5.3
    USER_AGENT,
    /// Field name Vary-Variant with a permanent status - reference RFC4229
    VARY_VARIANT,
    /// Field name Vary with a permanent status - reference RFC7231 Section 7.1.4
    VARY,
    /// Field name Version with a permanent status - reference RFC4229
    VERSION,
    /// Field name Via with a permanent status - reference RFC7230 Section 5.7.1
    VIA,
    /// Field name Want-Digest with a permanent status - reference RFC4229
    WANT_DIGEST,
    /// Field name Warning with a permanent status - reference RFC7234 Section 5.5
    WARNING,
    /// Field name WWW-Authenticate with a permanent status - reference RFC7235 Section 4.1
    WWW_AUTHENTICATE,
    /// Field name X-Content-Type-Options with a permanent status - reference fetch spec WHATWG
    X_CONTENT_TYPE_OPTIONS,
    /// Field name X-Frame-Options with a permanent status - reference RFC7034
    X_FRAME_OPTIONS,
    /// A name that the registry does not hold, in lower case.
    Custom(Vec<u8>),
}

/// The text of a registered name; empty for a custom one.
pub open spec fn registered_text(n: &HeaderFieldName) -> Seq<char> {
    match n {
        HeaderFieldName::A_IM => "a-im"@,
        HeaderFieldName::ACCEPT => "accept"@,
        HeaderFieldName::ACCEPT_ADDITIONS => "accept-additions"@,
        HeaderFieldName::ACCEPT_CH => "accept-ch"@,
        HeaderFieldName::ACCEPT_CHARSET => "accept-charset"@,
        HeaderFieldName::ACCEPT_DATETIME => "accept-datetime"@,
        HeaderFieldName::ACCEPT_ENCODING => "accept-encoding"@,
        HeaderFieldName::ACCEPT_FEATURES => "accept-features"@,
        HeaderFieldName::ACCEPT_LANGUAGES => "accept-languages"@,
        HeaderFieldName::ACCEPT_PATCH => "accept-patch"@,
        HeaderFieldName::ACCEPT_POST => "accept-post"@,
        HeaderFieldName::ACCEPT_RANGES => "accept-ranges"@,
        HeaderFieldName::ACCESS_CONTROL_ALLOW_CREDENTIALS => "access-control-allow-credentials"@,
        HeaderFieldName::ACCESS_CONTROL_ALLOW_HEADERS => "access-control-allow-headers"@,
        HeaderFieldName::ACCESS_CONTROL_ALLOW_METHODS => "access-control-allow-methods"@,
        HeaderFieldName::ACCESS_CONTROL_ALLOW_ORIGIN => "access-control-allow-origin"@,
        HeaderFieldName::ACCESS_CONTROL_EXPOSE_HEADERS => "access-control-expose-headers"@,
        HeaderFieldName::ACCESS_CONTROL_MAX_AGE => "access-control-max-age"@,
        HeaderFieldName::ACCESS_CONTROL_REQUEST_HEADERS => "access-control-request-headers"@,
        HeaderFieldName::ACCESS_CONTROL_REQUEST_METHOD => "access-control-request-method"@,
        HeaderFieldName::AGE => "age"@,
        HeaderFieldName::ALLOW => "allow"@,
        HeaderFieldName::ALPN => "alpn"@,
        HeaderFieldName::ALT_SVC => "alt-svc"@,
        HeaderFieldName::ALT_USED => "alt-used"@,
        HeaderFieldName::ALTERNATES => "alternates"@,
        HeaderFieldName::APPLY_TO_REDIRECT_REF => "apply-to-redirect-ref"@,
        HeaderFieldName::AUTHENTICATION_CONTROL => "authentication-control"@,
        HeaderFieldName::AUTHORIZATION => "authorization"@,
        HeaderFieldName::C_EXT => "c-ext"@,
        HeaderFieldName::C_MAN => "c-man"@,
        HeaderFieldName::C_OPT => "c-opt"@,
        HeaderFieldName::C_PEP => "c-pep"@,
        HeaderFieldName::C_PEP_INFO => "c-pep-info"@,
        HeaderFieldName::CACHE_CONTROL => "cache-control"@,
        HeaderFieldName::CAL_MANAGED_ID => "cal-managed-id"@,
        HeaderFieldName::CALDAV_TIMEZONES => "caldav-timezones"@,
        HeaderFieldName::CDN_LOOP => "cdn-loop"@,
        HeaderFieldName::CERT_NOT_AFTER => "cert-not-after"@,
        HeaderFieldName::CERT_NOT_BEFORE => "cert-not-before"@,
        HeaderFieldName::COMPLIANCE => "compliance"@,
        HeaderFieldName::CONNECTION => "connection"@,
        HeaderFieldName::CONTENT_DISPOSITION => "content-disposition"@,
        HeaderFieldName::CONTENT_ENCODING => "content-encoding"@,
        HeaderFieldName::CONTENT_ID => "content-id"@,
        HeaderFieldName::CONTENT_LANGUAGE => "content-language"@,
        HeaderFieldName::CONTENT_LENGTH => "content-length"@,
        HeaderFieldName::CONTENT_LOCATION => "content-location"@,
        HeaderFieldName::CONTENT_RANGE => "content-range"@,
        HeaderFieldName::CONTENT_SCRIPT_TYPE => "content-script-type"@,
        HeaderFieldName::CONTENT_STYLE_TYPE => "content-style-type"@,
        HeaderFieldName::CONTENT_TRANSFER_ENCODING => "content-transfer-encoding"@,
        HeaderFieldName::CONTENT_TYPE => "content-type"@,
        HeaderFieldName::CONTENT_VERSION => "content-version"@,
        HeaderFieldName::COOKIE => "cookie"@,
        HeaderFieldName::COST => "cost"@,
        HeaderFieldName::CROSS_ORIGIN_RESOURCE_POLICY => "cross-origin-resource-policy"@,
        HeaderFieldName::DASL => "dasl"@,
        HeaderFieldName::DATE => "date"@,
        HeaderFieldName::DAV => "dav"@,
        HeaderFieldName::DEFAULT_STYLE => "default-style"@,
        HeaderFieldName::DELTA_BASE => "delta-base"@,
        HeaderFieldName::DEPTH => "depth"@,
        HeaderFieldName::DERIVED_FROM => "derived-from"@,
        HeaderFieldName::DESTINATION => "destination"@,
        HeaderFieldName::DIFFERENTIAL_ID => "differential-id"@,
        HeaderFieldName::DIGEST => "digest"@,
        HeaderFieldName::EARLY_DATA => "early-data"@,
        HeaderFieldName::EDIINT_FEATURES => "ediint-features"@,
        HeaderFieldName::ETAG => "etag"@,
        HeaderFieldName::EXPECT => "expect"@,
        HeaderFieldName::EXPIRES => "expires"@,
        HeaderFieldName::EXT => "ext"@,
        HeaderFieldName::FORWARDED => "forwarded"@,
        HeaderFieldName::FROM => "from"@,
        HeaderFieldName::GETPROFILE => "getprofile"@,
        HeaderFieldName::HOBAREG => "hobareg"@,
        HeaderFieldName::HOST => "host"@,
        HeaderFieldName::HTTP2_SETTINGS => "http2-settings"@,
        HeaderFieldName::IF => "if"@,
        HeaderFieldName::IF_MATCH => "if-match"@,
        HeaderFieldName::IF_MODIFIED_SINCE => "if-modified-since"@,
        HeaderFieldName::IF_NONE_MATCH => "if-none-match"@,
        HeaderFieldName::IF_RANGE => "if-range"@,
        HeaderFieldName::IF_SCHEDULE_TAG_MATCH => "if-schedule-tag-match"@,
        HeaderFieldName::IF_UNMODIFIED_SINCE => "if-unmodified-since"@,
        HeaderFieldName::IM => "im"@,
        HeaderFieldName::INCLUDE_REFERRED_TOKEN_BINDING_ID => "include-referred-token-binding-id"@,
        HeaderFieldName::KEEP_ALICE => "keep-alive"@,
        HeaderFieldName::LABEL => "label"@,
        HeaderFieldName::LAST_MODIFIED => "last-modified"@,
        HeaderFieldName::LINK => "link"@,
        HeaderFieldName::LOCATION => "location"@,
        HeaderFieldName::LOCK_TOKEN => "lock-token"@,
        HeaderFieldName::MAN => "man"@,
        HeaderFieldName::MAX_FORWARDS => "max-forwards"@,
        HeaderFieldName::MEMENTO_DATETIME => "memento-datetime"@,
        HeaderFieldName::MESSAGE_ID => "message-id"@,
        HeaderFieldName::METER => "meter"@,
        HeaderFieldName::MIME_VERSION => "mime-version"@,
        HeaderFieldName::NEGOTIATE => "negotiate"@,
        HeaderFieldName::NON_COMPLIANCE => "non-compliance"@,
        HeaderFieldName::OPT => "opt"@,
        HeaderFieldName::OPTIONAL => "optional"@,
        HeaderFieldName::OPTIONAL_WWW_AUTHENTICATE => "optional-www-authenticate"@,
        HeaderFieldName::ORDERING_TYPE => "ordering-type"@,
        HeaderFieldName::ORIGIN => "origin"@,
        HeaderFieldName::OSCOR => "oscor"@,
        HeaderFieldName::OVERWRITE => "overwrite"@,
        HeaderFieldName::P3P => "p3p"@,
        HeaderFieldName::PEP => "pep"@,
        HeaderFieldName::PEP_INFO => "pep-info"@,
        HeaderFieldName::PICS_LABEL => "pics-label"@,
        HeaderFieldName::POSITION => "position"@,
        HeaderFieldName::PRAGME => "pragma"@,
        HeaderFieldName::PREFER => "prefer"@,
        HeaderFieldName::PREFERENCE_APPLIED => "preference-applied"@,
        HeaderFieldName::PROFILEOBJECT => "profileobject"@,
        HeaderFieldName::PROTOCOL => "protocol"@,
        HeaderFieldName::PROTOCOL_REQUEST => "protocol-request"@,
        HeaderFieldName::PROXY_AUTHENTICATE => "proxy-authenticate"@,
        HeaderFieldName::PROXY_AUTHORIZATION => "proxy-authorization"@,
        HeaderFieldName::PROXY_FEATURES => "proxy-features"@,
        HeaderFieldName::PROXY_INSTRUCTION => "proxy-instruction"@,
        HeaderFieldName::PUBLIC => "public"@,
        HeaderFieldName::PUBLIC_KEY_PINS => "public-key-pins"@,
        HeaderFieldName::PUBLIC_KEY_PINS_REPORT_ONLY => "public-key-pins-report-only"@,
        HeaderFieldName::RANGE => "range"@,
        HeaderFieldName::REDIRECT_REF => "redirect-ref"@,
        HeaderFieldName::REFERER => "referer"@,
        HeaderFieldName::REPLAY_NONCE => "replay-nonce"@,
        HeaderFieldName::RESOLUTION_HINT => "resolution-hint"@,
        HeaderFieldName::RESOLVER_LOCATION => "resolution-location"@,
        HeaderFieldName::RETRY_AFTER => "retry-after"@,
        HeaderFieldName::SAFE => "safe"@,
        HeaderFieldName::SCHEDULE_REPLAY => "schedule-replay"@,
        HeaderFieldName::SCHEDULE_TAG => "schedule-tag"@,
        HeaderFieldName::SEC_TOKEN_BINDING => "sec-token-binding"@,
        HeaderFieldName::SEC_WEBSOCKET_ACCEPT => "sec-websocket-accept"@,
        HeaderFieldName::SEC_WEBSOCKET_EXTENSIONS => "sec-websocket-extensions"@,
        HeaderFieldName::SEC_WEBSOCKET_KEY => "sec-websocket-key"@,
        HeaderFieldName::SEC_WEBSOCKET_PROTOCOL => "sec-websocket-protocol"@,
        HeaderFieldName::SEC_WEBSOCKET_VERSION => "sec-websocket-version"@,
        HeaderFieldName::SECURITY_SCHEME => "security-scheme"@,
        HeaderFieldName::SERVER => "server"@,
        HeaderFieldName::SET_COOKIE => "set-cookie"@,
        HeaderFieldName::SETPROFILE => "setprofile"@,
        HeaderFieldName::SLUG => "slug"@,
        HeaderFieldName::SOAPACTION => "soapaction"@,
        HeaderFieldName::STATUS_URI => "status-uri"@,
        HeaderFieldName::STRICT_TRANSPORT_SECURITY => "strict-transport-security"@,
        HeaderFieldName::SUBOK => "subok"@,
        HeaderFieldName::SUBST => "subst"@,
        HeaderFieldName::SUNSET => "sunset"@,
        HeaderFieldName::SURROGATE_CAPABILITY => "surrogate-capability"@,
        HeaderFieldName::SURROGATE_CONTROL => "surrogate-control"@,
        HeaderFieldName::TCN => "tcn"@,
        HeaderFieldName::TE => "te"@,
        HeaderFieldName::TIMEOUT => "timeout"@,
        HeaderFieldName::TITLE => "title"@,
        HeaderFieldName::TOPIC => "topic"@,
        HeaderFieldName::TRAILER => "trailer"@,
        HeaderFieldName::TRANSFER_ENCODING => "transfer-encoding"@,
        HeaderFieldName::TTL => "ttl"@,
        HeaderFieldName::UA_COLOR => "ua-color"@,
        HeaderFieldName::UA_MEDIA => "ua-media"@,
        HeaderFieldName::UA_PIXELS => "ua-pixels"@,
        HeaderFieldName::UA_RESOLUTION => "ua-resolution"@,
        HeaderFieldName::UA_WINDOWPIXELS => "ua-windowpixels"@,
        HeaderFieldName::UPGRADE => "upgrade"@,
        HeaderFieldName::URGENCY => "urgency"@,
        HeaderFieldName::URI => "uri"@,
        HeaderFieldName::USER_AGENT => "user-agent"@,
        HeaderFieldName::VARY_VARIANT => "vary-variant"@,
        HeaderFieldName::VARY => "vary"@,
        HeaderFieldName::VERSION => "version"@,
        HeaderFieldName::VIA => "via"@,
        HeaderFieldName::WANT_DIGEST => "want-digest"@,
        HeaderFieldName::WARNING => "warning"@,
        HeaderFieldName::WWW_AUTHENTICATE => "www-authenticate"@,
        HeaderFieldName::X_CONTENT_TYPE_OPTIONS => "x-content-type-options"@,
        HeaderFieldName::X_FRAME_OPTIONS => "x-frame-options"@,
        HeaderFieldName::Custom(_) => Seq::empty(),
    }
}

impl View for HeaderFieldName {
    type V = Seq<u8>;

    /// The name's token, in bytes.
    open spec fn view(&self) -> Seq<u8> {
        match self {
            HeaderFieldName::Custom(t) => t@,
            _ => vstd::utf8::encode_utf8(registered_text(self)),
        }
    }
}

/// `s` is a token: one or more `tchar`s.
pub open spec fn is_token(s: Seq<u8>) -> bool {
    s.len() > 0 && forall|i: int| 0 <= i < s.len() ==> tchar(#[trigger] s[i])
}

/// No registered name has the token `t`.
pub open spec fn unregistered(t: Seq<u8>) -> bool {
    forall|k: HeaderFieldName| !(k is Custom) ==> k@ != t
}

/// The number of names in the registry.
pub const REGISTERED_COUNT: usize = 182;

/// The place of a registered name in the registry; [`REGISTERED_COUNT`] for a custom one.
pub open spec fn field_index(n: &HeaderFieldName) -> nat {
    match n {
        HeaderFieldName::A_IM => 0,
        HeaderFieldName::ACCEPT => 1,
        HeaderFieldName::ACCEPT_ADDITIONS => 2,
        HeaderFieldName::ACCEPT_CH => 3,
        HeaderFieldName::ACCEPT_CHARSET => 4,
        HeaderFieldName::ACCEPT_DATETIME => 5,
        HeaderFieldName::ACCEPT_ENCODING => 6,
        HeaderFieldName::ACCEPT_FEATURES => 7,
        HeaderFieldName::ACCEPT_LANGUAGES => 8,
        HeaderFieldName::ACCEPT_PATCH => 9,
        HeaderFieldName::ACCEPT_POST => 10,
        HeaderFieldName::ACCEPT_RANGES => 11,
        HeaderFieldName::ACCESS_CONTROL_ALLOW_CREDENTIALS => 12,
        HeaderFieldName::ACCESS_CONTROL_ALLOW_HEADERS => 13,
        HeaderFieldName::ACCESS_CONTROL_ALLOW_METHODS => 14,
        HeaderFieldName::ACCESS_CONTROL_ALLOW_ORIGIN => 15,
        HeaderFieldName::ACCESS_CONTROL_EXPOSE_HEADERS => 16,
        HeaderFieldName::ACCESS_CONTROL_MAX_AGE => 17,
        HeaderFieldName::ACCESS_CONTROL_REQUEST_HEADERS => 18,
        HeaderFieldName::ACCESS_CONTROL_REQUEST_METHOD => 19,
        HeaderFieldName::AGE => 20,
        HeaderFieldName::ALLOW => 21,
        HeaderFieldName::ALPN => 22,
        HeaderFieldName::ALT_SVC => 23,
        HeaderFieldName::ALT_USED => 24,
        HeaderFieldName::ALTERNATES => 25,
        HeaderFieldName::APPLY_TO_REDIRECT_REF => 26,
        HeaderFieldName::AUTHENTICATION_CONTROL => 27,
        HeaderFieldName::AUTHORIZATION => 28,
        HeaderFieldName::C_EXT => 29,
        HeaderFieldName::C_MAN => 30,
        HeaderFieldName::C_OPT => 31,
        HeaderFieldName::C_PEP => 32,
        HeaderFieldName::C_PEP_INFO => 33,
        HeaderFieldName::CACHE_CONTROL => 34,
        HeaderFieldName::CAL_MANAGED_ID => 35,
        HeaderFieldName::CALDAV_TIMEZONES => 36,
        HeaderFieldName::CDN_LOOP => 37,
        HeaderFieldName::CERT_NOT_AFTER => 38,
        HeaderFieldName::CERT_NOT_BEFORE => 39,
        HeaderFieldName::COMPLIANCE => 40,
        HeaderFieldName::CONNECTION => 41,
        HeaderFieldName::CONTENT_DISPOSITION => 42,
        HeaderFieldName::CONTENT_ENCODING => 43,
        HeaderFieldName::CONTENT_ID => 44,
        HeaderFieldName::CONTENT_LANGUAGE => 45,
        HeaderFieldName::CONTENT_LENGTH => 46,
        HeaderFieldName::CONTENT_LOCATION => 47,
        HeaderFieldName::CONTENT_RANGE => 48,
        HeaderFieldName::CONTENT_SCRIPT_TYPE => 49,
        HeaderFieldName::CONTENT_STYLE_TYPE => 50,
        HeaderFieldName::CONTENT_TRANSFER_ENCODING => 51,
        HeaderFieldName::CONTENT_TYPE => 52,
        HeaderFieldName::CONTENT_VERSION => 53,
        HeaderFieldName::COOKIE => 54,
        HeaderFieldName::COST => 55,
        HeaderFieldName::CROSS_ORIGIN_RESOURCE_POLICY => 56,
        HeaderFieldName::DASL => 57,
        HeaderFieldName::DATE => 58,
        HeaderFieldName::DAV => 59,
        HeaderFieldName::DEFAULT_STYLE => 60,
        HeaderFieldName::DELTA_BASE => 61,
        HeaderFieldName::DEPTH => 62,
        HeaderFieldName::DERIVED_FROM => 63,
        HeaderFieldName::DESTINATION => 64,
        HeaderFieldName::DIFFERENTIAL_ID => 65,
        HeaderFieldName::DIGEST => 66,
        HeaderFieldName::EARLY_DATA => 67,
        HeaderFieldName::EDIINT_FEATURES => 68,
        HeaderFieldName::ETAG => 69,
        HeaderFieldName::EXPECT => 70,
        HeaderFieldName::EXPIRES => 71,
        HeaderFieldName::EXT => 72,
        HeaderFieldName::FORWARDED => 73,
        HeaderFieldName::FROM => 74,
        HeaderFieldName::GETPROFILE => 75,
        HeaderFieldName::HOBAREG => 76,
        HeaderFieldName::HOST => 77,
        HeaderFieldName::HTTP2_SETTINGS => 78,
        HeaderFieldName::IF => 79,
        HeaderFieldName::IF_MATCH => 80,
        HeaderFieldName::IF_MODIFIED_SINCE => 81,
        HeaderFieldName::IF_NONE_MATCH => 82,
        HeaderFieldName::IF_RANGE => 83,
        HeaderFieldName::IF_SCHEDULE_TAG_MATCH => 84,
        HeaderFieldName::IF_UNMODIFIED_SINCE => 85,
        HeaderFieldName::IM => 86,
        HeaderFieldName::INCLUDE_REFERRED_TOKEN_BINDING_ID => 87,
        HeaderFieldName::KEEP_ALICE => 88,
        HeaderFieldName::LABEL => 89,
        HeaderFieldName::LAST_MODIFIED => 90,
        HeaderFieldName::LINK => 91,
        HeaderFieldName::LOCATION => 92,
        HeaderFieldName::LOCK_TOKEN => 93,
        HeaderFieldName::MAN => 94,
        HeaderFieldName::MAX_FORWARDS => 95,
        HeaderFieldName::MEMENTO_DATETIME => 96,
        HeaderFieldName::MESSAGE_ID => 97,
        HeaderFieldName::METER => 98,
        HeaderFieldName::MIME_VERSION => 99,
        HeaderFieldName::NEGOTIATE => 100,
        HeaderFieldName::NON_COMPLIANCE => 101,
        HeaderFieldName::OPT => 102,
        HeaderFieldName::OPTIONAL => 103,
        HeaderFieldName::OPTIONAL_WWW_AUTHENTICATE => 104,
        HeaderFieldName::ORDERING_TYPE => 105,
        HeaderFieldName::ORIGIN => 106,
        HeaderFieldName::OSCOR => 107,
        HeaderFieldName::OVERWRITE => 108,
        HeaderFieldName::P3P => 109,
        HeaderFieldName::PEP => 110,
        HeaderFieldName::PEP_INFO => 111,
        HeaderFieldName::PICS_LABEL => 112,
        HeaderFieldName::POSITION => 113,
        HeaderFieldName::PRAGME => 114,
        HeaderFieldName::PREFER => 115,
        HeaderFieldName::PREFERENCE_APPLIED => 116,
        HeaderFieldName::PROFILEOBJECT => 117,
        HeaderFieldName::PROTOCOL => 118,
        HeaderFieldName::PROTOCOL_REQUEST => 119,
        HeaderFieldName::PROXY_AUTHENTICATE => 120,
        HeaderFieldName::PROXY_AUTHORIZATION => 121,
        HeaderFieldName::PROXY_FEATURES => 122,
        HeaderFieldName::PROXY_INSTRUCTION => 123,
        HeaderFieldName::PUBLIC => 124,
        HeaderFieldName::PUBLIC_KEY_PINS => 125,
        HeaderFieldName::PUBLIC_KEY_PINS_REPORT_ONLY => 126,
        HeaderFieldName::RANGE => 127,
        HeaderFieldName::REDIRECT_REF => 128,
        HeaderFieldName::REFERER => 129,
        HeaderFieldName::REPLAY_NONCE => 130,
        HeaderFieldName::RESOLUTION_HINT => 131,
        HeaderFieldName::RESOLVER_LOCATION => 132,
        HeaderFieldName::RETRY_AFTER => 133,
        HeaderFieldName::SAFE => 134,
        HeaderFieldName::SCHEDULE_REPLAY => 135,
        HeaderFieldName::SCHEDULE_TAG => 136,
        HeaderFieldName::SEC_TOKEN_BINDING => 137,
        HeaderFieldName::SEC_WEBSOCKET_ACCEPT => 138,
        HeaderFieldName::SEC_WEBSOCKET_EXTENSIONS => 139,
        HeaderFieldName::SEC_WEBSOCKET_KEY => 140,
        HeaderFieldName::SEC_WEBSOCKET_PROTOCOL => 141,
        HeaderFieldName::SEC_WEBSOCKET_VERSION => 142,
        HeaderFieldName::SECURITY_SCHEME => 143,
        HeaderFieldName::SERVER => 144,
        HeaderFieldName::SET_COOKIE => 145,
        HeaderFieldName::SETPROFILE => 146,
        HeaderFieldName::SLUG => 147,
        HeaderFieldName::SOAPACTION => 148,
        HeaderFieldName::STATUS_URI => 149,
        HeaderFieldName::STRICT_TRANSPORT_SECURITY => 150,
        HeaderFieldName::SUBOK => 151,
        HeaderFieldName::SUBST => 152,
        HeaderFieldName::SUNSET => 153,
        HeaderFieldName::SURROGATE_CAPABILITY => 154,
        HeaderFieldName::SURROGATE_CONTROL => 155,
        HeaderFieldName::TCN => 156,
        HeaderFieldName::TE => 157,
        HeaderFieldName::TIMEOUT => 158,
        HeaderFieldName::TITLE => 159,
        HeaderFieldName::TOPIC => 160,
        HeaderFieldName::TRAILER => 161,
        HeaderFieldName::TRANSFER_ENCODING => 162,
        HeaderFieldName::TTL => 163,
        HeaderFieldName::UA_COLOR => 164,
        HeaderFieldName::UA_MEDIA => 165,
        HeaderFieldName::UA_PIXELS => 166,
        HeaderFieldName::UA_RESOLUTION => 167,
        HeaderFieldName::UA_WINDOWPIXELS => 168,
        HeaderFieldName::UPGRADE => 169,
        HeaderFieldName::URGENCY => 170,
        HeaderFieldName::URI => 171,
        HeaderFieldName::USER_AGENT => 172,
        HeaderFieldName::VARY_VARIANT => 173,
        HeaderFieldName::VARY => 174,
        HeaderFieldName::VERSION => 175,
        HeaderFieldName::VIA => 176,
        HeaderFieldName::WANT_DIGEST => 177,
        HeaderFieldName::WARNING => 178,
        HeaderFieldName::WWW_AUTHENTICATE => 179,
        HeaderFieldName::X_CONTENT_TYPE_OPTIONS => 180,
        HeaderFieldName::X_FRAME_OPTIONS => 181,
        HeaderFieldName::Custom(_) => 182,
    }
}

/// The registered name at place `i` of the registry.
pub open spec fn field_at(i: nat) -> HeaderFieldName {
    if i == 0 {
        HeaderFieldName::A_IM
    } else if i == 1 {
        HeaderFieldName::ACCEPT
    } else if i == 2 {
        HeaderFieldName::ACCEPT_ADDITIONS
    } else if i == 3 {
        HeaderFieldName::ACCEPT_CH
    } else if i == 4 {
        HeaderFieldName::ACCEPT_CHARSET
    } else if i == 5 {
        HeaderFieldName::ACCEPT_DATETIME
    } else if i == 6 {
        HeaderFieldName::ACCEPT_ENCODING
    } else if i == 7 {
        HeaderFieldName::ACCEPT_FEATURES
    } else if i == 8 {
        HeaderFieldName::ACCEPT_LANGUAGES
    } else if i == 9 {
        HeaderFieldName::ACCEPT_PATCH
    } else if i == 10 {
        HeaderFieldName::ACCEPT_POST
    } else if i == 11 {
        HeaderFieldName::ACCEPT_RANGES
    } else if i == 12 {
        HeaderFieldName::ACCESS_CONTROL_ALLOW_CREDENTIALS
    } else if i == 13 {
        HeaderFieldName::ACCESS_CONTROL_ALLOW_HEADERS
    } else if i == 14 {
        HeaderFieldName::ACCESS_CONTROL_ALLOW_METHODS
    } else if i == 15 {
        HeaderFieldName::ACCESS_CONTROL_ALLOW_ORIGIN
    } else if i == 16 {
        HeaderFieldName::ACCESS_CONTROL_EXPOSE_HEADERS
    } else if i == 17 {
        HeaderFieldName::ACCESS_CONTROL_MAX_AGE
    } else if i == 18 {
        HeaderFieldName::ACCESS_CONTROL_REQUEST_HEADERS
    } else if i == 19 {
        HeaderFieldName::ACCESS_CONTROL_REQUEST_METHOD
    } else if i == 20 {
        HeaderFieldName::AGE
    } else if i == 21 {
        HeaderFieldName::ALLOW
    } else if i == 22 {
        HeaderFieldName::ALPN
    } else if i == 23 {
        HeaderFieldName::ALT_SVC
    } else if i == 24 {
        HeaderFieldName::ALT_USED
    } else if i == 25 {
        HeaderFieldName::ALTERNATES
    } else if i == 26 {
        HeaderFieldName::APPLY_TO_REDIRECT_REF
    } else if i == 27 {
        HeaderFieldName::AUTHENTICATION_CONTROL
    } else if i == 28 {
        HeaderFieldName::AUTHORIZATION
    } else if i == 29 {
        HeaderFieldName::C_EXT
    } else if i == 30 {
        HeaderFieldName::C_MAN
    } else if i == 31 {
        HeaderFieldName::C_OPT
    } else if i == 32 {
        HeaderFieldName::C_PEP
    } else if i == 33 {
        HeaderFieldName::C_PEP_INFO
    } else if i == 34 {
        HeaderFieldName::CACHE_CONTROL
    } else if i == 35 {
        HeaderFieldName::CAL_MANAGED_ID
    } else if i == 36 {
        HeaderFieldName::CALDAV_TIMEZONES
    } else if i == 37 {
        HeaderFieldName::CDN_LOOP
    } else if i == 38 {
        HeaderFieldName::CERT_NOT_AFTER
    } else if i == 39 {
        HeaderFieldName::CERT_NOT_BEFORE
    } else if i == 40 {
        HeaderFieldName::COMPLIANCE
    } else if i == 41 {
        HeaderFieldName::CONNECTION
    } else if i == 42 {
        HeaderFieldName::CONTENT_DISPOSITION
    } else if i == 43 {
        HeaderFieldName::CONTENT_ENCODING
    } else if i == 44 {
        HeaderFieldName::CONTENT_ID
    } else if i == 45 {
        HeaderFieldName::CONTENT_LANGUAGE
    } else if i == 46 {
        HeaderFieldName::CONTENT_LENGTH
    } else if i == 47 {
        HeaderFieldName::CONTENT_LOCATION
    } else if i == 48 {
        HeaderFieldName::CONTENT_RANGE
    } else if i == 49 {
        HeaderFieldName::CONTENT_SCRIPT_TYPE
    } else if i == 50 {
        HeaderFieldName::CONTENT_STYLE_TYPE
    } else if i == 51 {
        HeaderFieldName::CONTENT_TRANSFER_ENCODING
    } else if i == 52 {
        HeaderFieldName::CONTENT_TYPE
    } else if i == 53 {
        HeaderFieldName::CONTENT_VERSION
    } else if i == 54 {
        HeaderFieldName::COOKIE
    } else if i == 55 {
        HeaderFieldName::COST
    } else if i == 56 {
        HeaderFieldName::CROSS_ORIGIN_RESOURCE_POLICY
    } else if i == 57 {
        HeaderFieldName::DASL
    } else if i == 58 {
        HeaderFieldName::DATE
    } else if i == 59 {
        HeaderFieldName::DAV
    } else if i == 60 {
        HeaderFieldName::DEFAULT_STYLE
    } else if i == 61 {
        HeaderFieldName::DELTA_BASE
    } else if i == 62 {
        HeaderFieldName::DEPTH
    } else if i == 63 {
        HeaderFieldName::DERIVED_FROM
    } else if i == 64 {
        HeaderFieldName::DESTINATION
    } else if i == 65 {
        HeaderFieldName::DIFFERENTIAL_ID
    } else if i == 66 {
        HeaderFieldName::DIGEST
    } else if i == 67 {
        HeaderFieldName::EARLY_DATA
    } else if i == 68 {
        HeaderFieldName::EDIINT_FEATURES
    } else if i == 69 {
        HeaderFieldName::ETAG
    } else if i == 70 {
        HeaderFieldName::EXPECT
    } else if i == 71 {
        HeaderFieldName::EXPIRES
    } else if i == 72 {
        HeaderFieldName::EXT
    } else if i == 73 {
        HeaderFieldName::FORWARDED
    } else if i == 74 {
        HeaderFieldName::FROM
    } else if i == 75 {
        HeaderFieldName::GETPROFILE
    } else if i == 76 {
        HeaderFieldName::HOBAREG
    } else if i == 77 {
        HeaderFieldName::HOST
    } else if i == 78 {
        HeaderFieldName::HTTP2_SETTINGS
    } else if i == 79 {
        HeaderFieldName::IF
    } else if i == 80 {
        HeaderFieldName::IF_MATCH
    } else if i == 81 {
        HeaderFieldName::IF_MODIFIED_SINCE
    } else if i == 82 {
        HeaderFieldName::IF_NONE_MATCH
    } else if i == 83 {
        HeaderFieldName::IF_RANGE
    } else if i == 84 {
        HeaderFieldName::IF_SCHEDULE_TAG_MATCH
    } else if i == 85 {
        HeaderFieldName::IF_UNMODIFIED_SINCE
    } else if i == 86 {
        HeaderFieldName::IM
    } else if i == 87 {
        HeaderFieldName::INCLUDE_REFERRED_TOKEN_BINDING_ID
    } else if i == 88 {
        HeaderFieldName::KEEP_ALICE
    } else if i == 89 {
        HeaderFieldName::LABEL
    } else if i == 90 {
        HeaderFieldName::LAST_MODIFIED
    } else if i == 91 {
        HeaderFieldName::LINK
    } else if i == 92 {
        HeaderFieldName::LOCATION
    } else if i == 93 {
        HeaderFieldName::LOCK_TOKEN
    } else if i == 94 {
        HeaderFieldName::MAN
    } else if i == 95 {
        HeaderFieldName::MAX_FORWARDS
    } else if i == 96 {
        HeaderFieldName::MEMENTO_DATETIME
    } else if i == 97 {
        HeaderFieldName::MESSAGE_ID
    } else if i == 98 {
        HeaderFieldName::METER
    } else if i == 99 {
        HeaderFieldName::MIME_VERSION
    } else if i == 100 {
        HeaderFieldName::NEGOTIATE
    } else if i == 101 {
        HeaderFieldName::NON_COMPLIANCE
    } else if i == 102 {
        HeaderFieldName::OPT
    } else if i == 103 {
        HeaderFieldName::OPTIONAL
    } else if i == 104 {
        HeaderFieldName::OPTIONAL_WWW_AUTHENTICATE
    } else if i == 105 {
        HeaderFieldName::ORDERING_TYPE
    } else if i == 106 {
        HeaderFieldName::ORIGIN
    } else if i == 107 {
        HeaderFieldName::OSCOR
    } else if i == 108 {
        HeaderFieldName::OVERWRITE
    } else if i == 109 {
        HeaderFieldName::P3P
    } else if i == 110 {
        HeaderFieldName::PEP
    } else if i == 111 {
        HeaderFieldName::PEP_INFO
    } else if i == 112 {
        HeaderFieldName::PICS_LABEL
    } else if i == 113 {
        HeaderFieldName::POSITION
    } else if i == 114 {
        HeaderFieldName::PRAGME
    } else if i == 115 {
        HeaderFieldName::PREFER
    } else if i == 116 {
        HeaderFieldName::PREFERENCE_APPLIED
    } else if i == 117 {
        HeaderFieldName::PROFILEOBJECT
    } else if i == 118 {
        HeaderFieldName::PROTOCOL
    } else if i == 119 {
        HeaderFieldName::PROTOCOL_REQUEST
    } else if i == 120 {
        HeaderFieldName::PROXY_AUTHENTICATE
    } else if i == 121 {
        HeaderFieldName::PROXY_AUTHORIZATION
    } else if i == 122 {
        HeaderFieldName::PROXY_FEATURES
    } else if i == 123 {
        HeaderFieldName::PROXY_INSTRUCTION
    } else if i == 124 {
        HeaderFieldName::PUBLIC
    } else if i == 125 {
        HeaderFieldName::PUBLIC_KEY_PINS
    } else if i == 126 {
        HeaderFieldName::PUBLIC_KEY_PINS_REPORT_ONLY
    } else if i == 127 {
        HeaderFieldName::RANGE
    } else if i == 128 {
        HeaderFieldName::REDIRECT_REF
    } else if i == 129 {
        HeaderFieldName::REFERER
    } else if i == 130 {
        HeaderFieldName::REPLAY_NONCE
    } else if i == 131 {
        HeaderFieldName::RESOLUTION_HINT
    } else if i == 132 {
        HeaderFieldName::RESOLVER_LOCATION
    } else if i == 133 {
        HeaderFieldName::RETRY_AFTER
    } else if i == 134 {
        HeaderFieldName::SAFE
    } else if i == 135 {
        HeaderFieldName::SCHEDULE_REPLAY
    } else if i == 136 {
        HeaderFieldName::SCHEDULE_TAG
    } else if i == 137 {
        HeaderFieldName::SEC_TOKEN_BINDING
    } else if i == 138 {
        HeaderFieldName::SEC_WEBSOCKET_ACCEPT
    } else if i == 139 {
        HeaderFieldName::SEC_WEBSOCKET_EXTENSIONS
    } else if i == 140 {
        HeaderFieldName::SEC_WEBSOCKET_KEY
    } else if i == 141 {
        HeaderFieldName::SEC_WEBSOCKET_PROTOCOL
    } else if i == 142 {
        HeaderFieldName::SEC_WEBSOCKET_VERSION
    } else if i == 143 {
        HeaderFieldName::SECURITY_SCHEME
    } else if i == 144 {
        HeaderFieldName::SERVER
    } else if i == 145 {
        HeaderFieldName::SET_COOKIE
    } else if i == 146 {
        HeaderFieldName::SETPROFILE
    } else if i == 147 {
        HeaderFieldName::SLUG
    } else if i == 148 {
        HeaderFieldName::SOAPACTION
    } else if i == 149 {
        HeaderFieldName::STATUS_URI
    } else if i == 150 {
        HeaderFieldName::STRICT_TRANSPORT_SECURITY
    } else if i == 151 {
        HeaderFieldName::SUBOK
    } else if i == 152 {
        HeaderFieldName::SUBST
    } else if i == 153 {
        HeaderFieldName::SUNSET
    } else if i == 154 {
        HeaderFieldName::SURROGATE_CAPABILITY
    } else if i == 155 {
        HeaderFieldName::SURROGATE_CONTROL
    } else if i == 156 {
        HeaderFieldName::TCN
    } else if i == 157 {
        HeaderFieldName::TE
    } else if i == 158 {
        HeaderFieldName::TIMEOUT
    } else if i == 159 {
        HeaderFieldName::TITLE
    } else if i == 160 {
        HeaderFieldName::TOPIC
    } else if i == 161 {
        HeaderFieldName::TRAILER
    } else if i == 162 {
        HeaderFieldName::TRANSFER_ENCODING
    } else if i == 163 {
        HeaderFieldName::TTL
    } else if i == 164 {
        HeaderFieldName::UA_COLOR
    } else if i == 165 {
        HeaderFieldName::UA_MEDIA
    } else if i == 166 {
        HeaderFieldName::UA_PIXELS
    } else if i == 167 {
        HeaderFieldName::UA_RESOLUTION
    } else if i == 168 {
        HeaderFieldName::UA_WINDOWPIXELS
    } else if i == 169 {
        HeaderFieldName::UPGRADE
    } else if i == 170 {
        HeaderFieldName::URGENCY
    } else if i == 171 {
        HeaderFieldName::URI
    } else if i == 172 {
        HeaderFieldName::USER_AGENT
    } else if i == 173 {
        HeaderFieldName::VARY_VARIANT
    } else if i == 174 {
        HeaderFieldName::VARY
    } else if i == 175 {
        HeaderFieldName::VERSION
    } else if i == 176 {
        HeaderFieldName::VIA
    } else if i == 177 {
        HeaderFieldName::WANT_DIGEST
    } else if i == 178 {
        HeaderFieldName::WARNING
    } else if i == 179 {
        HeaderFieldName::WWW_AUTHENTICATE
    } else if i == 180 {
        HeaderFieldName::X_CONTENT_TYPE_OPTIONS
    } else if i == 181 {
        HeaderFieldName::X_FRAME_OPTIONS
    } else {
        HeaderFieldName::A_IM
    }
}

/// Each registered name stands at its own place in the registry.
pub proof fn lemma_field_index(k: HeaderFieldName)
    requires
        !(k is Custom),
    ensures
        field_index(&k) < REGISTERED_COUNT,
        field_at(field_index(&k)) == k,
{
}

/// The registered name at place `i` of the registry.
fn registered_at(i: usize) -> (r: HeaderFieldName)
    requires
        i < REGISTERED_COUNT,
    ensures
        r == field_at(i as nat),
        !(r is Custom),
{
    match i {
        0 => HeaderFieldName::A_IM,
        1 => HeaderFieldName::ACCEPT,
        2 => HeaderFieldName::ACCEPT_ADDITIONS,
        3 => HeaderFieldName::ACCEPT_CH,
        4 => HeaderFieldName::ACCEPT_CHARSET,
        5 => HeaderFieldName::ACCEPT_DATETIME,
        6 => HeaderFieldName::ACCEPT_ENCODING,
        7 => HeaderFieldName::ACCEPT_FEATURES,
        8 => HeaderFieldName::ACCEPT_LANGUAGES,
        9 => HeaderFieldName::ACCEPT_PATCH,
        10 => HeaderFieldName::ACCEPT_POST,
        11 => HeaderFieldName::ACCEPT_RANGES,
        12 => HeaderFieldName::ACCESS_CONTROL_ALLOW_CREDENTIALS,
        13 => HeaderFieldName::ACCESS_CONTROL_ALLOW_HEADERS,
        14 => HeaderFieldName::ACCESS_CONTROL_ALLOW_METHODS,
        15 => HeaderFieldName::ACCESS_CONTROL_ALLOW_ORIGIN,
        16 => HeaderFieldName::ACCESS_CONTROL_EXPOSE_HEADERS,
        17 => HeaderFieldName::ACCESS_CONTROL_MAX_AGE,
        18 => HeaderFieldName::ACCESS_CONTROL_REQUEST_HEADERS,
        19 => HeaderFieldName::ACCESS_CONTROL_REQUEST_METHOD,
        20 => HeaderFieldName::AGE,
        21 => HeaderFieldName::ALLOW,
        22 => HeaderFieldName::ALPN,
        23 => HeaderFieldName::ALT_SVC,
        24 => HeaderFieldName::ALT_USED,
        25 => HeaderFieldName::ALTERNATES,
        26 => HeaderFieldName::APPLY_TO_REDIRECT_REF,
        27 => HeaderFieldName::AUTHENTICATION_CONTROL,
        28 => HeaderFieldName::AUTHORIZATION,
        29 => HeaderFieldName::C_EXT,
        30 => HeaderFieldName::C_MAN,
        31 => HeaderFieldName::C_OPT,
        32 => HeaderFieldName::C_PEP,
        33 => HeaderFieldName::C_PEP_INFO,
        34 => HeaderFieldName::CACHE_CONTROL,
        35 => HeaderFieldName::CAL_MANAGED_ID,
        36 => HeaderFieldName::CALDAV_TIMEZONES,
        37 => HeaderFieldName::CDN_LOOP,
        38 => HeaderFieldName::CERT_NOT_AFTER,
        39 => HeaderFieldName::CERT_NOT_BEFORE,
        40 => HeaderFieldName::COMPLIANCE,
        41 => HeaderFieldName::CONNECTION,
        42 => HeaderFieldName::CONTENT_DISPOSITION,
        43 => HeaderFieldName::CONTENT_ENCODING,
        44 => HeaderFieldName::CONTENT_ID,
        45 => HeaderFieldName::CONTENT_LANGUAGE,
        46 => HeaderFieldName::CONTENT_LENGTH,
        47 => HeaderFieldName::CONTENT_LOCATION,
        48 => HeaderFieldName::CONTENT_RANGE,
        49 => HeaderFieldName::CONTENT_SCRIPT_TYPE,
        50 => HeaderFieldName::CONTENT_STYLE_TYPE,
        51 => HeaderFieldName::CONTENT_TRANSFER_ENCODING,
        52 => HeaderFieldName::CONTENT_TYPE,
        53 => HeaderFieldName::CONTENT_VERSION,
        54 => HeaderFieldName::COOKIE,
        55 => HeaderFieldName::COST,
        56 => HeaderFieldName::CROSS_ORIGIN_RESOURCE_POLICY,
        57 => HeaderFieldName::DASL,
        58 => HeaderFieldName::DATE,
        59 => HeaderFieldName::DAV,
        60 => HeaderFieldName::DEFAULT_STYLE,
        61 => HeaderFieldName::DELTA_BASE,
        62 => HeaderFieldName::DEPTH,
        63 => HeaderFieldName::DERIVED_FROM,
        64 => HeaderFieldName::DESTINATION,
        65 => HeaderFieldName::DIFFERENTIAL_ID,
        66 => HeaderFieldName::DIGEST,
        67 => HeaderFieldName::EARLY_DATA,
        68 => HeaderFieldName::EDIINT_FEATURES,
        69 => HeaderFieldName::ETAG,
        70 => HeaderFieldName::EXPECT,
        71 => HeaderFieldName::EXPIRES,
        72 => HeaderFieldName::EXT,
        73 => HeaderFieldName::FORWARDED,
        74 => HeaderFieldName::FROM,
        75 => HeaderFieldName::GETPROFILE,
        76 => HeaderFieldName::HOBAREG,
        77 => HeaderFieldName::HOST,
        78 => HeaderFieldName::HTTP2_SETTINGS,
        79 => HeaderFieldName::IF,
        80 => HeaderFieldName::IF_MATCH,
        81 => HeaderFieldName::IF_MODIFIED_SINCE,
        82 => HeaderFieldName::IF_NONE_MATCH,
        83 => HeaderFieldName::IF_RANGE,
        84 => HeaderFieldName::IF_SCHEDULE_TAG_MATCH,
        85 => HeaderFieldName::IF_UNMODIFIED_SINCE,
        86 => HeaderFieldName::IM,
        87 => HeaderFieldName::INCLUDE_REFERRED_TOKEN_BINDING_ID,
        88 => HeaderFieldName::KEEP_ALICE,
        89 => HeaderFieldName::LABEL,
        90 => HeaderFieldName::LAST_MODIFIED,
        91 => HeaderFieldName::LINK,
        92 => HeaderFieldName::LOCATION,
        93 => HeaderFieldName::LOCK_TOKEN,
        94 => HeaderFieldName::MAN,
        95 => HeaderFieldName::MAX_FORWARDS,
        96 => HeaderFieldName::MEMENTO_DATETIME,
        97 => HeaderFieldName::MESSAGE_ID,
        98 => HeaderFieldName::METER,
        99 => HeaderFieldName::MIME_VERSION,
        100 => HeaderFieldName::NEGOTIATE,
        101 => HeaderFieldName::NON_COMPLIANCE,
        102 => HeaderFieldName::OPT,
        103 => HeaderFieldName::OPTIONAL,
        104 => HeaderFieldName::OPTIONAL_WWW_AUTHENTICATE,
        105 => HeaderFieldName::ORDERING_TYPE,
        106 => HeaderFieldName::ORIGIN,
        107 => HeaderFieldName::OSCOR,
        108 => HeaderFieldName::OVERWRITE,
        109 => HeaderFieldName::P3P,
        110 => HeaderFieldName::PEP,
        111 => HeaderFieldName::PEP_INFO,
        112 => HeaderFieldName::PICS_LABEL,
        113 => HeaderFieldName::POSITION,
        114 => HeaderFieldName::PRAGME,
        115 => HeaderFieldName::PREFER,
        116 => HeaderFieldName::PREFERENCE_APPLIED,
        117 => HeaderFieldName::PROFILEOBJECT,
        118 => HeaderFieldName::PROTOCOL,
        119 => HeaderFieldName::PROTOCOL_REQUEST,
        120 => HeaderFieldName::PROXY_AUTHENTICATE,
        121 => HeaderFieldName::PROXY_AUTHORIZATION,
        122 => HeaderFieldName::PROXY_FEATURES,
        123 => HeaderFieldName::PROXY_INSTRUCTION,
        124 => HeaderFieldName::PUBLIC,
        125 => HeaderFieldName::PUBLIC_KEY_PINS,
        126 => HeaderFieldName::PUBLIC_KEY_PINS_REPORT_ONLY,
        127 => HeaderFieldName::RANGE,
        128 => HeaderFieldName::REDIRECT_REF,
        129 => HeaderFieldName::REFERER,
        130 => HeaderFieldName::REPLAY_NONCE,
        131 => HeaderFieldName::RESOLUTION_HINT,
        132 => HeaderFieldName::RESOLVER_LOCATION,
        133 => HeaderFieldName::RETRY_AFTER,
        134 => HeaderFieldName::SAFE,
        135 => HeaderFieldName::SCHEDULE_REPLAY,
        136 => HeaderFieldName::SCHEDULE_TAG,
        137 => HeaderFieldName::SEC_TOKEN_BINDING,
        138 => HeaderFieldName::SEC_WEBSOCKET_ACCEPT,
        139 => HeaderFieldName::SEC_WEBSOCKET_EXTENSIONS,
        140 => HeaderFieldName::SEC_WEBSOCKET_KEY,
        141 => HeaderFieldName::SEC_WEBSOCKET_PROTOCOL,
        142 => HeaderFieldName::SEC_WEBSOCKET_VERSION,
        143 => HeaderFieldName::SECURITY_SCHEME,
        144 => HeaderFieldName::SERVER,
        145 => HeaderFieldName::SET_COOKIE,
        146 => HeaderFieldName::SETPROFILE,
        147 => HeaderFieldName::SLUG,
        148 => HeaderFieldName::SOAPACTION,
        149 => HeaderFieldName::STATUS_URI,
        150 => HeaderFieldName::STRICT_TRANSPORT_SECURITY,
        151 => HeaderFieldName::SUBOK,
        152 => HeaderFieldName::SUBST,
        153 => HeaderFieldName::SUNSET,
        154 => HeaderFieldName::SURROGATE_CAPABILITY,
        155 => HeaderFieldName::SURROGATE_CONTROL,
        156 => HeaderFieldName::TCN,
        157 => HeaderFieldName::TE,
        158 => HeaderFieldName::TIMEOUT,
        159 => HeaderFieldName::TITLE,
        160 => HeaderFieldName::TOPIC,
        161 => HeaderFieldName::TRAILER,
        162 => HeaderFieldName::TRANSFER_ENCODING,
        163 => HeaderFieldName::TTL,
        164 => HeaderFieldName::UA_COLOR,
        165 => HeaderFieldName::UA_MEDIA,
        166 => HeaderFieldName::UA_PIXELS,
        167 => HeaderFieldName::UA_RESOLUTION,
        168 => HeaderFieldName::UA_WINDOWPIXELS,
        169 => HeaderFieldName::UPGRADE,
        170 => HeaderFieldName::URGENCY,
        171 => HeaderFieldName::URI,
        172 => HeaderFieldName::USER_AGENT,
        173 => HeaderFieldName::VARY_VARIANT,
        174 => HeaderFieldName::VARY,
        175 => HeaderFieldName::VERSION,
        176 => HeaderFieldName::VIA,
        177 => HeaderFieldName::WANT_DIGEST,
        178 => HeaderFieldName::WARNING,
        179 => HeaderFieldName::WWW_AUTHENTICATE,
        180 => HeaderFieldName::X_CONTENT_TYPE_OPTIONS,
        181 => HeaderFieldName::X_FRAME_OPTIONS,
        _ => HeaderFieldName::A_IM,
    }
}

/// The registered name whose token is `token`, if there is one.
fn lookup_registered(token: &[u8]) -> (r: Option<HeaderFieldName>)
    ensures
        match r {
            Some(n) => !(n is Custom) && n@ == token@,
            None => unregistered(token@),
        },
{
    let mut i: usize = 0;
    while i < REGISTERED_COUNT
        invariant
            i <= REGISTERED_COUNT,
            forall|k: HeaderFieldName|
                !(k is Custom) && #[trigger] field_index(&k) < i ==> k@ != token@,
        decreases REGISTERED_COUNT - i,
    {
        let candidate = registered_at(i);
        if bytes_eq(candidate.as_bytes(), token) {
            return Some(candidate);
        }
        assert forall|k: HeaderFieldName|
            !(k is Custom) && #[trigger] field_index(&k) < i + 1 implies k@ != token@ by {
            lemma_field_index(k);
        }
        i = i + 1;
    }
    assert forall|k: HeaderFieldName| !(k is Custom) implies k@ != token@ by {
        lemma_field_index(k);
    }
    None
}

impl HeaderFieldName {
    /// Reads a field name: one or more `tchar`s, put in lower case and looked up in the
    /// registry. Anything else is [`StatusCode::BAD_REQUEST`].
    pub fn from_bytes(src: &[u8]) -> (r: Result<HeaderFieldName, StatusCode>)
        ensures
            match r {
                Ok(n) => is_token(src@) && n@ == lower_all(src@) && ((n is Custom) <==> unregistered(
                    lower_all(src@),
                )),
                Err(e) => e == StatusCode::BAD_REQUEST && !is_token(src@),
            },
    {
        if src.len() == 0 {
            return Err(StatusCode::BAD_REQUEST);
        }
        let mut token: Vec<u8> = Vec::new();
        let mut i: usize = 0;
        while i < src.len()
            invariant
                i <= src@.len(),
                forall|j: int| 0 <= j < i ==> tchar(#[trigger] src@[j]),
                token@ =~= lower_all(src@.take(i as int)),
            decreases src@.len() - i,
        {
            if !is_tchar(src[i]) {
                return Err(StatusCode::BAD_REQUEST);
            }
            token.push(to_lower(src[i]));
            i = i + 1;
        }
        assert(src@.take(src@.len() as int) =~= src@);
        match lookup_registered(token.as_slice()) {
            Some(n) => Ok(n),
            None => Ok(HeaderFieldName::Custom(token)),
        }
    }

    /// The name's token, in lower case.
    pub fn as_bytes(&self) -> (r: &[u8])
        ensures
            r@ == self@,
    {
        match self {
            HeaderFieldName::A_IM => "a-im".as_bytes(),
            HeaderFieldName::ACCEPT => "accept".as_bytes(),
            HeaderFieldName::ACCEPT_ADDITIONS => "accept-additions".as_bytes(),
            HeaderFieldName::ACCEPT_CH => "accept-ch".as_bytes(),
            HeaderFieldName::ACCEPT_CHARSET => "accept-charset".as_bytes(),
            HeaderFieldName::ACCEPT_DATETIME => "accept-datetime".as_bytes(),
            HeaderFieldName::ACCEPT_ENCODING => "accept-encoding".as_bytes(),
            HeaderFieldName::ACCEPT_FEATURES => "accept-features".as_bytes(),
            HeaderFieldName::ACCEPT_LANGUAGES => "accept-languages".as_bytes(),
            HeaderFieldName::ACCEPT_PATCH => "accept-patch".as_bytes(),
            HeaderFieldName::ACCEPT_POST => "accept-post".as_bytes(),
            HeaderFieldName::ACCEPT_RANGES => "accept-ranges".as_bytes(),
            HeaderFieldName::ACCESS_CONTROL_ALLOW_CREDENTIALS => "access-control-allow-credentials".as_bytes(),
            HeaderFieldName::ACCESS_CONTROL_ALLOW_HEADERS => "access-control-allow-headers".as_bytes(),
            HeaderFieldName::ACCESS_CONTROL_ALLOW_METHODS => "access-control-allow-methods".as_bytes(),
            HeaderFieldName::ACCESS_CONTROL_ALLOW_ORIGIN => "access-control-allow-origin".as_bytes(),
            HeaderFieldName::ACCESS_CONTROL_EXPOSE_HEADERS => "access-control-expose-headers".as_bytes(),
            HeaderFieldName::ACCESS_CONTROL_MAX_AGE => "access-control-max-age".as_bytes(),
            HeaderFieldName::ACCESS_CONTROL_REQUEST_HEADERS => "access-control-request-headers".as_bytes(),
            HeaderFieldName::ACCESS_CONTROL_REQUEST_METHOD => "access-control-request-method".as_bytes(),
            HeaderFieldName::AGE => "age".as_bytes(),
            HeaderFieldName::ALLOW => "allow".as_bytes(),
            HeaderFieldName::ALPN => "alpn".as_bytes(),
            HeaderFieldName::ALT_SVC => "alt-svc".as_bytes(),
            HeaderFieldName::ALT_USED => "alt-used".as_bytes(),
            HeaderFieldName::ALTERNATES => "alternates".as_bytes(),
            HeaderFieldName::APPLY_TO_REDIRECT_REF => "apply-to-redirect-ref".as_bytes(),
            HeaderFieldName::AUTHENTICATION_CONTROL => "authentication-control".as_bytes(),
            HeaderFieldName::AUTHORIZATION => "authorization".as_bytes(),
            HeaderFieldName::C_EXT => "c-ext".as_bytes(),
            HeaderFieldName::C_MAN => "c-man".as_bytes(),
            HeaderFieldName::C_OPT => "c-opt".as_bytes(),
            HeaderFieldName::C_PEP => "c-pep".as_bytes(),
            HeaderFieldName::C_PEP_INFO => "c-pep-info".as_bytes(),
            HeaderFieldName::CACHE_CONTROL => "cache-control".as_bytes(),
            HeaderFieldName::CAL_MANAGED_ID => "cal-managed-id".as_bytes(),
            HeaderFieldName::CALDAV_TIMEZONES => "caldav-timezones".as_bytes(),
            HeaderFieldName::CDN_LOOP => "cdn-loop".as_bytes(),
            HeaderFieldName::CERT_NOT_AFTER => "cert-not-after".as_bytes(),
            HeaderFieldName::CERT_NOT_BEFORE => "cert-not-before".as_bytes(),
            HeaderFieldName::COMPLIANCE => "compliance".as_bytes(),
            HeaderFieldName::CONNECTION => "connection".as_bytes(),
            HeaderFieldName::CONTENT_DISPOSITION => "content-disposition".as_bytes(),
            HeaderFieldName::CONTENT_ENCODING => "content-encoding".as_bytes(),
            HeaderFieldName::CONTENT_ID => "content-id".as_bytes(),
            HeaderFieldName::CONTENT_LANGUAGE => "content-language".as_bytes(),
            HeaderFieldName::CONTENT_LENGTH => "content-length".as_bytes(),
            HeaderFieldName::CONTENT_LOCATION => "content-location".as_bytes(),
            HeaderFieldName::CONTENT_RANGE => "content-range".as_bytes(),
            HeaderFieldName::CONTENT_SCRIPT_TYPE => "content-script-type".as_bytes(),
            HeaderFieldName::CONTENT_STYLE_TYPE => "content-style-type".as_bytes(),
            HeaderFieldName::CONTENT_TRANSFER_ENCODING => "content-transfer-encoding".as_bytes(),
            HeaderFieldName::CONTENT_TYPE => "content-type".as_bytes(),
            HeaderFieldName::CONTENT_VERSION => "content-version".as_bytes(),
            HeaderFieldName::COOKIE => "cookie".as_bytes(),
            HeaderFieldName::COST => "cost".as_bytes(),
            HeaderFieldName::CROSS_ORIGIN_RESOURCE_POLICY => "cross-origin-resource-policy".as_bytes(),
            HeaderFieldName::DASL => "dasl".as_bytes(),
            HeaderFieldName::DATE => "date".as_bytes(),
            HeaderFieldName::DAV => "dav".as_bytes(),
            HeaderFieldName::DEFAULT_STYLE => "default-style".as_bytes(),
            HeaderFieldName::DELTA_BASE => "delta-base".as_bytes(),
            HeaderFieldName::DEPTH => "depth".as_bytes(),
            HeaderFieldName::DERIVED_FROM => "derived-from".as_bytes(),
            HeaderFieldName::DESTINATION => "destination".as_bytes(),
            HeaderFieldName::DIFFERENTIAL_ID => "differential-id".as_bytes(),
            HeaderFieldName::DIGEST => "digest".as_bytes(),
            HeaderFieldName::EARLY_DATA => "early-data".as_bytes(),
            HeaderFieldName::EDIINT_FEATURES => "ediint-features".as_bytes(),
            HeaderFieldName::ETAG => "etag".as_bytes(),
            HeaderFieldName::EXPECT => "expect".as_bytes(),
            HeaderFieldName::EXPIRES => "expires".as_bytes(),
            HeaderFieldName::EXT => "ext".as_bytes(),
            HeaderFieldName::FORWARDED => "forwarded".as_bytes(),
            HeaderFieldName::FROM => "from".as_bytes(),
            HeaderFieldName::GETPROFILE => "getprofile".as_bytes(),
            HeaderFieldName::HOBAREG => "hobareg".as_bytes(),
            HeaderFieldName::HOST => "host".as_bytes(),
            HeaderFieldName::HTTP2_SETTINGS => "http2-settings".as_bytes(),
            HeaderFieldName::IF => "if".as_bytes(),
            HeaderFieldName::IF_MATCH => "if-match".as_bytes(),
            HeaderFieldName::IF_MODIFIED_SINCE => "if-modified-since".as_bytes(),
            HeaderFieldName::IF_NONE_MATCH => "if-none-match".as_bytes(),
            HeaderFieldName::IF_RANGE => "if-range".as_bytes(),
            HeaderFieldName::IF_SCHEDULE_TAG_MATCH => "if-schedule-tag-match".as_bytes(),
            HeaderFieldName::IF_UNMODIFIED_SINCE => "if-unmodified-since".as_bytes(),
            HeaderFieldName::IM => "im".as_bytes(),
            HeaderFieldName::INCLUDE_REFERRED_TOKEN_BINDING_ID => "include-referred-token-binding-id".as_bytes(),
            HeaderFieldName::KEEP_ALICE => "keep-alive".as_bytes(),
            HeaderFieldName::LABEL => "label".as_bytes(),
            HeaderFieldName::LAST_MODIFIED => "last-modified".as_bytes(),
            HeaderFieldName::LINK => "link".as_bytes(),
            HeaderFieldName::LOCATION => "location".as_bytes(),
            HeaderFieldName::LOCK_TOKEN => "lock-token".as_bytes(),
            HeaderFieldName::MAN => "man".as_bytes(),
            HeaderFieldName::MAX_FORWARDS => "max-forwards".as_bytes(),
            HeaderFieldName::MEMENTO_DATETIME => "memento-datetime".as_bytes(),
            HeaderFieldName::MESSAGE_ID => "message-id".as_bytes(),
            HeaderFieldName::METER => "meter".as_bytes(),
            HeaderFieldName::MIME_VERSION => "mime-version".as_bytes(),
            HeaderFieldName::NEGOTIATE => "negotiate".as_bytes(),
            HeaderFieldName::NON_COMPLIANCE => "non-compliance".as_bytes(),
            HeaderFieldName::OPT => "opt".as_bytes(),
            HeaderFieldName::OPTIONAL => "optional".as_bytes(),
            HeaderFieldName::OPTIONAL_WWW_AUTHENTICATE => "optional-www-authenticate".as_bytes(),
            HeaderFieldName::ORDERING_TYPE => "ordering-type".as_bytes(),
            HeaderFieldName::ORIGIN => "origin".as_bytes(),
            HeaderFieldName::OSCOR => "oscor".as_bytes(),
            HeaderFieldName::OVERWRITE => "overwrite".as_bytes(),
            HeaderFieldName::P3P => "p3p".as_bytes(),
            HeaderFieldName::PEP => "pep".as_bytes(),
            HeaderFieldName::PEP_INFO => "pep-info".as_bytes(),
            HeaderFieldName::PICS_LABEL => "pics-label".as_bytes(),
            HeaderFieldName::POSITION => "position".as_bytes(),
            HeaderFieldName::PRAGME => "pragma".as_bytes(),
            HeaderFieldName::PREFER => "prefer".as_bytes(),
            HeaderFieldName::PREFERENCE_APPLIED => "preference-applied".as_bytes(),
            HeaderFieldName::PROFILEOBJECT => "profileobject".as_bytes(),
            HeaderFieldName::PROTOCOL => "protocol".as_bytes(),
            HeaderFieldName::PROTOCOL_REQUEST => "protocol-request".as_bytes(),
            HeaderFieldName::PROXY_AUTHENTICATE => "proxy-authenticate".as_bytes(),
            HeaderFieldName::PROXY_AUTHORIZATION => "proxy-authorization".as_bytes(),
            HeaderFieldName::PROXY_FEATURES => "proxy-features".as_bytes(),
            HeaderFieldName::PROXY_INSTRUCTION => "proxy-instruction".as_bytes(),
            HeaderFieldName::PUBLIC => "public".as_bytes(),
            HeaderFieldName::PUBLIC_KEY_PINS => "public-key-pins".as_bytes(),
            HeaderFieldName::PUBLIC_KEY_PINS_REPORT_ONLY => "public-key-pins-report-only".as_bytes(),
            HeaderFieldName::RANGE => "range".as_bytes(),
            HeaderFieldName::REDIRECT_REF => "redirect-ref".as_bytes(),
            HeaderFieldName::REFERER => "referer".as_bytes(),
            HeaderFieldName::REPLAY_NONCE => "replay-nonce".as_bytes(),
            HeaderFieldName::RESOLUTION_HINT => "resolution-hint".as_bytes(),
            HeaderFieldName::RESOLVER_LOCATION => "resolution-location".as_bytes(),
            HeaderFieldName::RETRY_AFTER => "retry-after".as_bytes(),
            HeaderFieldName::SAFE => "safe".as_bytes(),
            HeaderFieldName::SCHEDULE_REPLAY => "schedule-replay".as_bytes(),
            HeaderFieldName::SCHEDULE_TAG => "schedule-tag".as_bytes(),
            HeaderFieldName::SEC_TOKEN_BINDING => "sec-token-binding".as_bytes(),
            HeaderFieldName::SEC_WEBSOCKET_ACCEPT => "sec-websocket-accept".as_bytes(),
            HeaderFieldName::SEC_WEBSOCKET_EXTENSIONS => "sec-websocket-extensions".as_bytes(),
            HeaderFieldName::SEC_WEBSOCKET_KEY => "sec-websocket-key".as_bytes(),
            HeaderFieldName::SEC_WEBSOCKET_PROTOCOL => "sec-websocket-protocol".as_bytes(),
            HeaderFieldName::SEC_WEBSOCKET_VERSION => "sec-websocket-version".as_bytes(),
            HeaderFieldName::SECURITY_SCHEME => "security-scheme".as_bytes(),
            HeaderFieldName::SERVER => "server".as_bytes(),
            HeaderFieldName::SET_COOKIE => "set-cookie".as_bytes(),
            HeaderFieldName::SETPROFILE => "setprofile".as_bytes(),
            HeaderFieldName::SLUG => "slug".as_bytes(),
            HeaderFieldName::SOAPACTION => "soapaction".as_bytes(),
            HeaderFieldName::STATUS_URI => "status-uri".as_bytes(),
            HeaderFieldName::STRICT_TRANSPORT_SECURITY => "strict-transport-security".as_bytes(),
            HeaderFieldName::SUBOK => "subok".as_bytes(),
            HeaderFieldName::SUBST => "subst".as_bytes(),
            HeaderFieldName::SUNSET => "sunset".as_bytes(),
            HeaderFieldName::SURROGATE_CAPABILITY => "surrogate-capability".as_bytes(),
            HeaderFieldName::SURROGATE_CONTROL => "surrogate-control".as_bytes(),
            HeaderFieldName::TCN => "tcn".as_bytes(),
            HeaderFieldName::TE => "te".as_bytes(),
            HeaderFieldName::TIMEOUT => "timeout".as_bytes(),
            HeaderFieldName::TITLE => "title".as_bytes(),
            HeaderFieldName::TOPIC => "topic".as_bytes(),
            HeaderFieldName::TRAILER => "trailer".as_bytes(),
            HeaderFieldName::TRANSFER_ENCODING => "transfer-encoding".as_bytes(),
            HeaderFieldName::TTL => "ttl".as_bytes(),
            HeaderFieldName::UA_COLOR => "ua-color".as_bytes(),
            HeaderFieldName::UA_MEDIA => "ua-media".as_bytes(),
            HeaderFieldName::UA_PIXELS => "ua-pixels".as_bytes(),
            HeaderFieldName::UA_RESOLUTION => "ua-resolution".as_bytes(),
            HeaderFieldName::UA_WINDOWPIXELS => "ua-windowpixels".as_bytes(),
            HeaderFieldName::UPGRADE => "upgrade".as_bytes(),
            HeaderFieldName::URGENCY => "urgency".as_bytes(),
            HeaderFieldName::URI => "uri".as_bytes(),
            HeaderFieldName::USER_AGENT => "user-agent".as_bytes(),
            HeaderFieldName::VARY_VARIANT => "vary-variant".as_bytes(),
            HeaderFieldName::VARY => "vary".as_bytes(),
            HeaderFieldName::VERSION => "version".as_bytes(),
            HeaderFieldName::VIA => "via".as_bytes(),
            HeaderFieldName::WANT_DIGEST => "want-digest".as_bytes(),
            HeaderFieldName::WARNING => "warning".as_bytes(),
            HeaderFieldName::WWW_AUTHENTICATE => "www-authenticate".as_bytes(),
            HeaderFieldName::X_CONTENT_TYPE_OPTIONS => "x-content-type-options".as_bytes(),
            HeaderFieldName::X_FRAME_OPTIONS => "x-frame-options".as_bytes(),
            HeaderFieldName::Custom(t) => t.as_slice(),
        }
    }
}

} // verus!
