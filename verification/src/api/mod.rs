//! The API that operators, proxies and sidecars call.
pub mod certificate_watch;
pub mod certificates;
pub mod laws;
pub mod pb;
pub mod proxy;
pub mod proxy_laws;
pub mod route_events;
pub mod server;
pub mod sidecar;
pub mod status;
pub mod template;
pub mod template_laws;

pub use proxy::PROXY_SERVICE_NAME;
pub use server::{OperatorApiPlaceholder, OPERATOR_SERVICE_NAME, OPERATOR_UNARY_METHODS};
pub use sidecar::SIDECAR_SERVICE_NAME;
