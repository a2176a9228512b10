//! Verified core of the Hamplard course platform: course lifecycle,
//! enrollment payments and revenue splits, certificates and refunds.
pub mod table;
pub mod model;
pub mod fees;
pub mod text;
pub mod state;
pub mod courses;
pub mod enrollment;
pub mod certificates;
pub mod refunds;
pub mod admin;
pub mod pricing;
pub mod waitlist;
pub mod queries;
pub mod laws;
