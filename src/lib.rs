//! Identity and tenancy provisioning: validated identity values, the role-scope
//! builder with its two row versions, the per-user key store lifecycle and the
//! signup orchestration, all as verified, I/O-free logic.

pub mod dates;
pub mod errors;
pub mod field_type;
pub mod ids;
pub mod key_store;
pub mod recovery;
pub mod roles;
pub mod signup;
pub mod signup_flow;
pub mod user;
pub mod text;
pub mod values;
