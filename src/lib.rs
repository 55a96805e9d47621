//! Protocol state machine of a micro-lending pool for gig-economy workers:
//! credit scoring, risk-tiered interest rates, liquidity accounting and loan
//! origination, each with a verified contract.

pub mod contract;
pub mod laws;
pub mod rates;
pub mod scoring;
pub mod types;
