//! The data contracts between the Kapitalist backend and its clients: what a client
//! sends to create or update a user, a wallet, a category or a transaction, and what
//! the backend answers.
//!
//! A contract is read from and written as a [`wire::Payload`], the members of a JSON
//! object as they came over the wire. An update says of each field whether it stays
//! or changes; of a field whose stored value may be empty it says one of three
//! things, see [`tristate::TriState`]. An update that changes nothing is invalid,
//! see [`update::is_valid`].

pub mod field;
pub mod request;
pub mod response;
pub mod timestamp;
pub mod tristate;
pub mod update;
pub mod wire;
