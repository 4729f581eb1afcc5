//! Blocks, and the messages that signers exchange about them.
use vstd::prelude::*;

use crate::curve::parse_digest;
#[allow(unused_imports)]
use crate::curve::signable;
use crate::keys::{Signature, SignerID};

verus! {

/// A block as it travels: its serialised bytes, and the digest that signers sign, where the
/// bytes have one.
#[derive(Debug, PartialEq)]
pub struct Block {
    pub payload: Vec<u8>,
    pub hash: Option<[u8; 32]>,
}

/// The contents of a block.
#[verifier::ext_equal]
pub struct BlockView {
    pub payload: Seq<u8>,
    pub hash: Option<[u8; 32]>,
}

impl BlockView {
    /// The digest to sign, if the block has one that can be signed.
    pub open spec fn digest(self) -> Option<[u8; 32]> {
        match self.hash {
            Some(hash) => if signable(hash) {
                Some(hash)
            } else {
                None
            },
            None => None,
        }
    }
}

impl View for Block {
    type V = BlockView;

    open spec fn view(&self) -> BlockView {
        BlockView { payload: self.payload@, hash: self.hash }
    }
}

impl Clone for Block {
    fn clone(&self) -> (copy: Self)
        ensures
            copy@ == self@,
    {
        let payload = self.payload.clone();
        assert(payload@ =~= self.payload@);
        Block { payload, hash: self.hash }
    }
}

impl Block {
    /// The digest to sign, if the block has one that can be signed.
    pub fn digest(&self) -> (digest: Option<[u8; 32]>)
        ensures
            digest == self@.digest(),
            digest matches Some(d) ==> self.hash == Some(d) && signable(d),
            digest is None ==> (self.hash matches Some(hash) ==> !signable(hash)),
    {
        match self.hash {
            Some(hash) => match parse_digest(&hash) {
                Ok(_) => Some(hash),
                Err(_) => None,
            },
            None => None,
        }
    }
}

/// What a message says.
#[derive(Debug, PartialEq)]
pub enum MessageType {
    /// The master proposes a block.
    Candidateblock(Block),
    /// A member signs the block that was proposed.
    Signature(Signature),
    /// The master has completed the block.
    Completedblock(Block),
    /// The round has failed.
    Roundfailure,
}

/// The contents of a message type.
#[verifier::ext_equal]
pub enum MessageTypeView {
    Candidateblock(BlockView),
    Signature(Signature),
    Completedblock(BlockView),
    Roundfailure,
}

impl View for MessageType {
    type V = MessageTypeView;

    open spec fn view(&self) -> MessageTypeView {
        match *self {
            MessageType::Candidateblock(block) => MessageTypeView::Candidateblock(block@),
            MessageType::Signature(signature) => MessageTypeView::Signature(signature),
            MessageType::Completedblock(block) => MessageTypeView::Completedblock(block@),
            MessageType::Roundfailure => MessageTypeView::Roundfailure,
        }
    }
}

/// A message and who sent it.
#[derive(Debug, PartialEq)]
pub struct Message {
    pub message_type: MessageType,
    pub sender_id: SignerID,
}

/// The contents of a message.
#[verifier::ext_equal]
pub struct MessageView {
    pub message_type: MessageTypeView,
    pub sender_id: SignerID,
}

impl View for Message {
    type V = MessageView;

    open spec fn view(&self) -> MessageView {
        MessageView { message_type: self.message_type@, sender_id: self.sender_id }
    }
}

} // verus!
