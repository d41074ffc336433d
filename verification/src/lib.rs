//! Durable workspace admission and membership convergence: the admission
//! attempt record and its protocol transitions, the message framing that binds
//! them, and the scheduling rules of the membership gossip.
pub mod bytes;
pub mod error;
pub mod message;
pub mod rejection;
pub mod attempt;
pub mod step;
pub mod sponsor;
pub mod sponsor_finish;
pub mod sponsor_withdraw;
pub mod joiner;
pub mod candidate;
pub mod joiner_reject;
pub mod joiner_apply;
pub mod joiner_prepare;
pub mod sponsor_offer;
pub mod recovery;
pub mod keys;
pub mod local_join;
pub mod discovery;
pub mod runtime;
pub mod group_delivery;
pub mod payload;
pub mod candidate_check;
pub mod relationships;
pub mod frames;
pub mod laws;
