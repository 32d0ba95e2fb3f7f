//! Funder state of a credit network node: friends, relays, invoices,
//! transactions and payments, the mutations that move that state, and the
//! decisions of the funder's event loop.

pub mod ids;
pub mod key_map;
pub mod messages;
pub mod token_channel;
pub mod im_collections;
pub mod friend;
pub mod state;
pub mod funder;
pub mod text_encoding;
pub mod invoice;
pub mod laws;
