//! A client that resolves password-database entries through a remote
//! identity service, with the decisions of each lookup verified.
pub mod json_text;
pub mod nss_dns_resolver;
pub mod sysauth_client;
