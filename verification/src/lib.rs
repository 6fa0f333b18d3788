//! Registration rules of an authentication microservice: request validation,
//! the error message that a refused request is answered with, the gRPC status
//! chosen for an error, and the service configuration.
#![allow(non_snake_case)]

pub mod validation;
pub mod messages;
pub mod chars;
pub mod domain;
pub mod adapters;
pub mod config;
