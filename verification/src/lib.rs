//! LNP/BP protocol primitives: a collision-resistant, hiding commitment
//! scheme embedded in secp256k1 public keys, the BigSize variable-length
//! integer of Lightning TLV streams, and the parity queries used by the
//! presentation layer.

pub mod bigsize;
pub mod commit;
pub mod even_odd;
pub mod pubkey;
