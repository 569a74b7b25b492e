//! Verified core of the server-side statistics and congestion-control
//! bookkeeping of a VR streaming server.
#![allow(non_snake_case)]

pub mod inter_arrival;
pub mod rate_control;
pub mod bitrate_estimator;
pub mod statistics;
pub mod trendline;
