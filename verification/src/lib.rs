//! Registration of paras for long-term and short-term slots.
//!
//! The registry decides who may register a para for which kind of slot, and
//! keeps the two lists of registered paras together with the events that
//! announce each registration. The host supplies what only it can know: who
//! is calling, which lifecycle state the para is in, and who manages it.

pub mod config;
pub mod laws;
pub mod pallet;
pub mod rules;
pub mod store;
pub mod types;

pub use config::Config;
pub use pallet::Pallet;
pub use store::Store;
pub use types::{Error, Event, Origin, ParaId, ParaLifeCycle, SlotType};
