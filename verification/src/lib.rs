//! A client library for the Namecheap API: the request parameters of each
//! supported command, the classification of Namecheap's XML response
//! envelope, and the account and domain data types.
//!
//! Every request is authenticated with the API user, API key and account
//! username, and must come from a whitelisted IP address that is also sent
//! as the `ClientIp` parameter (see [`ClientConfig`]).
pub mod client;
pub mod contents;
pub mod domains;
pub mod error;
pub mod params;
pub mod properties;
pub mod response;
pub mod text;
pub mod users;

pub use client::{ClientConfig, Environment};
pub use domains::{
    Contact, DomainCreateRequest, EmailType, HostRecord, RecordType, SetHostsRequest,
    SetHostsResult,
};
pub use error::{ApiError, ApiErrorEntry, Error, Result};
pub use users::{
    PricingRequest, PricingResult, ProductCategoryPricing, ProductPricing, ProductTypePricing,
};
