//! Turns an AWS GuardDuty finding into a chat notification payload.
//!
//! The library holds the three pieces of input-dependent logic: mapping a
//! severity score to a presentation tier, deriving a documentation link from
//! a finding type string, and composing the outbound notification payload.
//! Event decoding and webhook delivery live outside the library.

pub mod digits;
pub mod link;
pub mod payload;
pub mod severity;
