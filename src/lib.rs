//! Animal facts: a registry of upstream fact providers, keyed by animal, and
//! the pipeline that turns a provider's raw payload into one uniform fact.

pub mod animal;
pub mod config;
pub mod fact;
pub mod json;
pub mod resource_info;
pub mod util;
