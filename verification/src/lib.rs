//! An in-memory registry of user records.
//!
//! Records are kept in the order of their creation and numbered from one
//! as they are created. The executable types live in [`user`] and
//! [`store`], the service's greeting in [`greeting`]. Their contracts are
//! stated over the mathematical model in [`model`], and the general facts
//! about that model are proved in [`laws`].

pub mod greeting;
pub mod laws;
pub mod model;
pub mod store;
pub mod user;

pub use greeting::hello;
pub use store::{LookupError, UserStore};
pub use user::{CreateUser, User};
