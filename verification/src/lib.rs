//! Media-type classification, vendor media-type parsing and cookie
//! middleware configuration for a REST-like API framework.

pub mod cookie;
pub mod media;
pub mod request;
pub mod vendor;

pub use cookie::{new, CookieDecodeMiddleware, CookieEncodeMiddleware};
pub use media::{is_form_data, is_json, is_urlencoded, Format, Media, MediaType, SubLevel, TopLevel};
pub use request::{is_form_data_body, is_json_body, is_urlencoded_body};
pub use vendor::{media_captures, VendorCaptures};
