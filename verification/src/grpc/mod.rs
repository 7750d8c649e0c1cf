//! The gRPC service.

pub mod service;

pub use service::StayinAliveService;
