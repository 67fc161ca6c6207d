//! Durable identity material for a peer-to-peer node: a private key and a
//! signed, versioned self-description record derived from it, with generic
//! text persistence for both.
pub mod disk;
pub mod endpoint;
pub mod enr_link;
pub mod hex_text;
pub mod node_record;
pub mod rlp_text;
pub mod secret;

pub use disk::DiskEntity;
pub use endpoint::NodeEndpoint;
pub use enr_link::NodeRecord;
pub use node_record::EnrManager;
pub use secret::Secret;
