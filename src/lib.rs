//! Configuration-change messages (a single membership change and the joint
//! form), their binary wire format, the conversion between the two forms, and
//! a store of owned values whose handles are checked for liveness on every
//! access.
use vstd::prelude::*;

pub mod auth;
pub mod bridge;
pub mod change;
pub mod codec;
pub mod conf_change;
pub mod convert;
pub mod error;
pub mod format;
pub mod roundtrip;
pub mod varint;
pub mod wire;
