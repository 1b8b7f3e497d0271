//! A timed token sale: registration, participation and settlement, as a
//! state machine whose every transition is verified.
//!
//! The sale is a value of type [`Sale`]. Requests reach it through
//! [`handle`], and the replies of the ledgers that it works with through
//! [`resume`]; both say what the host is to do next. The module `model`
//! holds the mathematical sale that the contracts speak of, and the module
//! `laws` what is proved of every sale.

pub mod actor;
pub mod actor_map;
pub mod dispatch;
pub mod error;
pub mod io;
pub mod laws;
pub mod ledger;
pub mod model;
pub mod price;
pub mod round;
pub mod sale;

pub use crate::actor::ActorId;
pub use crate::actor_map::ActorMap;
pub use crate::dispatch::{handle, resume, Env, Pending, Step};
pub use crate::error::SaleError;
pub use crate::io::{
    Participate, SaleAction, SaleEvent, SaleInitialConfiguration, SaleParameters, SaleReply,
    SaleState,
};
pub use crate::ledger::{transfer_tokens, CallReply, LedgerCall};
pub use crate::price::tokens_for_payment;
pub use crate::round::{RegistrationRound, SaleRound};
pub use crate::sale::{init, meta_state, Sale};
