//! Reporting on the health of a system: single check results, the health
//! status they add up to, and the rules by which a periodic checker moves
//! from one status to the other.

pub mod check;
pub mod config;
pub mod reporter;
pub mod span;
pub mod state;
pub mod status;

pub use check::Check;
pub use config::Config;
pub use reporter::Reporter;
pub use span::Span;
pub use state::{Level, Report, State};
pub use status::Status;
