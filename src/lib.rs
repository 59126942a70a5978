//! A toggle service: one boolean flag, the identity of the last party that
//! flipped it, and a per-identity count of the operations each party made.

pub mod account;
pub mod counter_store;
pub mod flipper;
pub mod lemmas;

pub use account::AccountId;
pub use counter_store::CounterStore;
pub use flipper::{flip_step, Flipped, Flipper, IFlipper, MutationError};
