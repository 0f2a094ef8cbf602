//! Exact-fraction stock keeping for consumable medication: a rational number
//! type, the ledger records built on it, the projections shown to the user and
//! the commands that change a ledger.

pub mod command;
pub mod digits;
pub mod filters;
pub mod fraction;
pub mod images;
pub mod model;
pub mod notation;
pub mod rational;
pub mod request;
pub mod service;
pub mod text;
pub mod transaction;
pub mod util;
