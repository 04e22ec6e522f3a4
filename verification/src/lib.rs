//! Verified core of an automated trading bot: fixed-point money arithmetic,
//! a trading-window scheduler, the position lifecycle state machine, and the
//! reconciliation rules that compare local belief against broker truth.

pub mod broker;
pub mod clock;
pub mod commands;
pub mod lifecycle;
pub mod money;
pub mod numfmt;
pub mod reconcile;
pub mod scalp;
pub mod schedule;
pub mod stats;
pub mod strategy;

pub use money::Quotation;
