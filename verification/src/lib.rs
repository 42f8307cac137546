//! A process-local registry broker: components publish a message-delivery
//! endpoint under a logical identifier, and other components later resolve
//! the identifier to obtain the endpoint.
//!
//! The registry table itself, with its three operations (register,
//! unregister, find), is the verified core; each operation carries an exact
//! contract over the table's mathematical view. An identifier is a plain
//! 64-bit key — the broker needs nothing of an identifier beyond equality
//! and a stable hash, and a caller with richer names maps each onto such a
//! key — while the endpoint type is free, since the broker never inspects an
//! endpoint. Handle duplication and the serializing worker that owns a
//! shared table live outside this crate, as a thin layer over the verified
//! operations.

mod broker;
mod errors;
mod model;

pub use broker::Finder;
pub use broker::Registrar;
pub use broker::SendBroker;
pub use errors::BrokerError;
pub use errors::CallResult;
pub use errors::transport_outcome;
pub use model::Action;
pub use model::is_register_of;
pub use model::lemma_find_before_registration;
pub use model::lemma_last_write_wins;
pub use model::lemma_operations_track_registered_ids;
pub use model::lemma_register_then_find;
pub use model::lemma_serve_history_tracks_registered_ids;
pub use model::lemma_unregister_then_find;
pub use model::registered_ids;
pub use model::serve_action;
pub use model::serve_history;
