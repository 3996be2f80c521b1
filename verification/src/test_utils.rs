//! Builders of sample records, for exercising the services.
pub mod factory;
