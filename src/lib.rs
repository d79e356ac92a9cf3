//! A minimal time service: one RPC that reports the seconds since the Unix
//! epoch, registered beside a health-check facade and a reflection facade.
//! The library holds the decisions (request handling, method dispatch, the
//! health registry and the startup sequence); the transport runs around it.
pub mod clock;
pub mod health;
pub mod reflection;
pub mod service;
pub mod startup;

pub use clock::{ClockError, TimeService};
pub use health::{HealthRegistry, ServingStatus};
pub use reflection::{descriptor_sources, reflected_service_names, DescriptorSource};
pub use service::{
    business_service_name, Method, ServiceError, SomethingUnimplementedRequest,
    SomethingUnimplementedResponse, TimeServiceGRPCV1Alpha1, WhatTimeIsItRequest,
    WhatTimeIsItResponse,
};
pub use startup::{Phase, ServerError, Startup, StartupAction, StartupEvent};
