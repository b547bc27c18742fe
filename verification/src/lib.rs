//! Client library for the ip-api.com geolocation service.
//!
//! The service answers an HTTP GET on `/json/{target}` with a JSON envelope:
//! `status` is `"success"` together with fourteen data fields, or `"fail"`
//! together with a `message` naming the reason. This crate builds the request
//! URL, interprets the envelope, and exposes the located record through
//! accessors that treat empty strings as unknown values.
//!
//! The HTTP exchange itself is left to the caller: hand the response body to
//! [`interpret_response`] and it returns the typed record or a categorized
//! error.

pub mod client;
pub mod error;
pub mod json;
pub mod record;
pub mod strutil;
pub mod url;

pub use client::classify_failure;
pub use client::interpret_response;
pub use error::IpApiError;
pub use error::unexpected_json;
pub use record::GeoIp;
pub use record::RawFields;
pub use record::build_record;
pub use url::build_url;
