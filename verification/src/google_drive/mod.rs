//! The remote drive: models, query texts, upload rules and the request limiter.
pub mod models;
pub mod query;
pub mod rate_limiter;
pub mod upload;

pub use rate_limiter::DriveRateLimiter;
