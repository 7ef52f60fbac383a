//! Verified core of the Snout face and eye tracking library.

pub mod calibration;
pub mod cancel;
pub mod capture;
pub mod cli;
pub mod config;
pub mod control;
pub mod error;
pub mod osc;
pub mod output;
pub mod pipeline;
pub mod remote;
pub mod text;
pub mod track;
