//! Strict parsers for the parts of an HTTP request: the request line (method, target URI and
//! protocol version), the header section, and the components of a URI (scheme, authority,
//! host, port, path, query and fragment), each checked against its ABNF grammar
//! (RFC 3986, RFC 7230, RFC 7231) in one left-to-right pass.
pub mod abnf;
pub mod authority;
pub mod header;
pub mod header_name;
pub mod ip;
pub mod method;
pub mod path;
pub mod query;
pub mod request;
pub mod scheme;
pub mod status_code;
pub mod uri;
pub mod utils;
pub mod version;

pub use authority::{Authority, Host, IpAddress, UserInfo};
pub use header::{HeaderFieldValue, HeaderMap};
pub use header_name::HeaderFieldName;
pub use method::Method;
pub use path::Path;
pub use query::{Fragment, Query};
pub use request::RequestLine;
pub use scheme::Scheme;
pub use status_code::{InvalidStatusCode, StatusCode};
pub use uri::Uri;
pub use version::Version;
