//! Data model: check definitions, probe outcomes, and configuration.

pub mod check;
pub mod config;
pub mod health;

pub use check::Check;
pub use check::CheckResult;
pub use check::CheckType;
pub use check::Status;
pub use config::check_type_from_str;
pub use config::Config;
pub use config::Environment;
pub use health::HealthCheck;
pub use health::HealthResponse;
