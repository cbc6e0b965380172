//! PulsarTrack contract logic: the state machines of the advertising
//! platform's on-chain contracts, each a plain value that the host
//! environment loads, drives and stores.

pub mod common;
pub mod admin;
pub mod analytics;
pub mod budget;
pub mod governance;
pub mod identity;
pub mod kyc;
pub mod multisig;
pub mod payment;
pub mod privacy;
pub mod reputation;
pub mod refund;
pub mod revenue;
