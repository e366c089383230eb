//! Real-time market data connection engine: wire command grammars, the
//! subscription planner, the session state machine and the event normaliser.

pub mod adapter;
pub mod bitfinex;
pub mod common_traits;
pub mod frames;
pub mod ftx;
pub mod json;
pub mod model;
pub mod mxc;
pub mod normalizer;
pub mod orchestrator;
pub mod planner;
pub mod session;
