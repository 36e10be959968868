//! Index sets as packed bitfields, tagged by the kind of index they hold,
//! together with Ed25519 signing on byte buffers.
//!
//! * [`bitfield`] builds bitfields from one index or from a collection, and
//!   gives them their wire form; [`model`] says in mathematics what those
//!   constructions yield and proves the laws that relate them; [`wire`]
//!   describes the wire form.
//! * [`ed25519`] generates keypairs, signs and verifies, and reports every
//!   outcome as a status code.
//! * [`constants`] holds the sizes of key material and the context strings.
//!
//! Two modules draw the line to code that is believed rather than proved:
//! [`store`] keeps the bits in a `bitvec` vector and writes them with the
//! SCALE codec, and [`dalek`] hands keys and messages to `ed25519_dalek`.

pub mod bitfield;
pub mod constants;
pub mod dalek;
pub mod ed25519;
pub mod model;
pub mod store;
pub mod wire;
