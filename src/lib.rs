//! Packaging of script and web-service projects into container images and charts.
pub mod error;
pub mod kinds;
pub mod manifest;
pub mod pipeline;
pub mod request;
pub mod smoke;
pub mod staging;
pub mod template;
pub mod text;
