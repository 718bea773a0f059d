//! Core of an intercepting HTTP(S) proxy: the root authority and the cache of
//! the leaf certificates it issues, the two interceptors, the state machine of
//! a client connection and the rules of the forwarding pipeline.

pub mod certificates;
pub mod intercept;
pub mod proxy;
pub mod ui;
pub mod utils;

pub use crate::certificates::ca::CertificateAuthority;
pub use crate::intercept::request::RequestInterceptor;
pub use crate::intercept::response::ResponseInterceptor;
pub use crate::proxy::server::ProxyServer;
