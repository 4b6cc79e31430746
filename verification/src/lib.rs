//! Verified core of a benchmark harness for post-quantum signature schemes:
//! canonical transaction byte accounting, the signing preimage, calendar and
//! timestamp formatting, and summary statistics over raw timing samples.
#![allow(unused_imports)]

pub mod calendar;
pub mod ed25519;
pub mod ecdsa;
pub mod env;
pub mod falcon;
pub mod guest;
pub mod ml_dsa;
pub mod probe;
pub mod text;
pub mod report;
pub mod risc0_host;
pub mod schemes;
pub mod slh_dsa;
pub mod sp1_host;
pub mod stats;
pub mod strings;
pub mod time;
pub mod tx_format;
pub mod zkvm;
pub mod zkvm_run;
