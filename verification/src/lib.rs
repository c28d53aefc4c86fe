//! Verified core of an observability backend for Lightning Network nodes.

use vstd::prelude::*;

pub mod cln;
pub mod common;
pub mod config;
pub mod crypto;
pub mod errors;
pub mod events;
pub mod lnd;
pub mod models;
pub mod node;
pub mod notify;
pub mod num;
pub mod payments;
pub mod records;
pub mod services;
pub mod text;
pub mod tokens;
pub mod validation;

verus! {

} // verus!
