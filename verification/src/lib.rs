//! A signer of a Tapyrus federation.
//!
//! The signers of a federation take turns at being the master of a round. The master proposes a
//! block, collects the signatures of the members on it, and has it completed once there are
//! enough of them; then the role passes to the next signer.
//!
//! A [`SignerNode`] decides all of this and performs none of it: it hands out one [`Action`] after
//! another and is told what came of each.
pub mod curve;
pub mod keys;
pub mod laws;
pub mod message;
pub mod node;
pub mod order;
pub mod parameters;
pub mod run;
pub mod signature_map;
pub mod steps;
pub mod work;

pub use crate::curve::Network;
pub use crate::keys::{sign, PrivateKey, PublicKey, Signature, SignerID};
pub use crate::message::{Block, Message, MessageType};
pub use crate::node::{SignerNode, ROUND_INTERVAL_DEFAULT_SECS};
pub use crate::order::sort_keys;
pub use crate::parameters::{sender_index, NodeParameters};
pub use crate::run::{Action, Phase, Slot};
pub use crate::signature_map::SignatureMap;
pub use crate::work::{Failure, NodeState, Outcome, Rejection, Reply, Task};
