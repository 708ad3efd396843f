//! Actor-visible scripted-agent policy, its experiment bookkeeping, and the
//! behavioral measures computed over its decisions.

pub mod lane;
pub mod text;
pub mod codec;
pub mod profile;
pub mod policy;
pub mod operational;
pub mod batch;
pub mod replay;
pub mod sample;
pub mod semantic;
pub mod empirical;
pub mod measures;
pub mod comparison;
pub mod fixture;
pub mod metrics;
pub mod communication;
pub mod simultaneous;
pub mod leadership;
pub mod attribution;
pub mod debrief;
pub mod parametric;
pub mod multi_model;
