//! Verified core of the Oracle field-solver application: request and status
//! types, the static-asset path rules of the HTTP bridge, hypothesis naming and
//! ordering, Yee-grid index arithmetic, and the solve pipeline's plan.

pub mod types;
pub mod text;
pub mod gruve;
pub mod hypothesis;
pub mod grid;
pub mod solve_plan;
pub mod solver_client;
pub mod coil_paths;
