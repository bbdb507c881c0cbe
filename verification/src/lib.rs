//! Verified core of an xDS control plane: canonical resource models for
//! clusters and route configurations, wire-format conversions, versioned
//! repositories, the Platform-to-Native lowering, an OpenAPI importer, and
//! the HTTP error mapping that surrounds them.

pub mod cluster_handlers;
pub mod cluster_model;
pub mod errors;
pub mod json;
pub mod platform_api_definitions;
pub mod platform_api_handlers;
pub mod platform_openapi_handlers;
pub mod platform_service_handlers;
pub mod platform_transformers;
pub mod repository;
pub mod route_handlers;
pub mod route_model;
pub mod route_validate;
pub mod scoped_config;
pub mod text;
pub mod token_validate;
pub mod xds_route;
pub mod xds_state;

pub use errors::{map_auth_error, validation_error, ApiError, AuthError};

