//! The states of a node, and the work that it hands out and takes back.
//!
//! A node does no input or output of its own. Where it needs some, it returns a [`Task`]; whoever
//! drives the node performs it and hands the [`Reply`] back.
use vstd::prelude::*;

use crate::keys::{Signature, SignerID};
use crate::message::{Block, BlockView, Message, MessageView};
use crate::signature_map::SignatureMap;

verus! {

/// What a node is in the current round.
#[derive(Debug, PartialEq)]
pub enum NodeState {
    /// The node has not started yet.
    Joining,
    /// The node has proposed a block and collects signatures on it.
    Master { signature_map: SignatureMap, candidate_block: Block },
    /// The node signs what the master proposes.
    Member,
}

/// The contents of a node's state.
#[verifier::ext_equal]
pub enum NodeStateView {
    Joining,
    Master { signatures: Seq<(SignerID, Signature)>, candidate_block: BlockView },
    Member,
}

impl View for NodeState {
    type V = NodeStateView;

    open spec fn view(&self) -> NodeStateView {
        match *self {
            NodeState::Joining => NodeStateView::Joining,
            NodeState::Master { signature_map, candidate_block } => NodeStateView::Master {
                signatures: signature_map@,
                candidate_block: candidate_block@,
            },
            NodeState::Member => NodeStateView::Member,
        }
    }
}

impl Clone for NodeState {
    fn clone(&self) -> (copy: Self)
        ensures
            copy@ == self@,
    {
        match self {
            NodeState::Joining => NodeState::Joining,
            NodeState::Master { signature_map, candidate_block } => NodeState::Master {
                signature_map: signature_map.clone(),
                candidate_block: candidate_block.clone(),
            },
            NodeState::Member => NodeState::Member,
        }
    }
}

/// Why a signature is not taken.
#[derive(Clone, Copy, Debug, PartialEq, Eq, Structural)]
pub enum Rejection {
    /// The signer has signed already.
    DuplicatedMessage,
    /// The signature does not verify under the signer's key.
    InvalidSignature,
    /// The block has no digest that can be signed.
    UnsignableBlock,
}

/// What a node cannot go on after.
#[derive(Clone, Copy, Debug, PartialEq, Eq, Structural)]
pub enum Failure {
    /// The state of the block chain could not be asked for.
    BlockchainInfo,
    /// No new block was made.
    NewBlock,
    /// The signatures were not combined into a block.
    CombineBlockSigs,
    /// The completed block was not accepted.
    SubmitBlock,
    /// The round timer did not start.
    TimerStart,
    /// The round timer did not start again.
    TimerRestart,
    /// A block has no digest that can be signed.
    UnsignableBlock,
    /// The sender of a message is not in the federation.
    UnknownSender,
    /// Nothing is left that could give the stop signal.
    StopSignalLost,
    /// The connection to the other signers broke.
    Connection,
}

/// One piece of input or output that the handling of a round waits for.
#[derive(Debug, PartialEq)]
pub enum Task {
    /// Ask whether the block that `sender_id` proposes is valid.
    TestProposedBlock { sender_id: SignerID, block: Block },
    /// Broadcast the node's signature on the proposed block.
    SendSignature { signature: Signature },
    /// Start the round timer anew.
    RestartTimer,
    /// Ask for the block completed with these signatures.
    CombineBlockSigs { block: Block, signatures: Vec<Signature> },
    /// Submit the completed block.
    SubmitBlock { block: Block },
    /// Broadcast the completed block.
    SendCompletedBlock { block: Block },
    /// Wait for so many seconds, then ask for a new block that pays to `address`.
    GetNewBlock { wait_secs: u64, address: String },
    /// Broadcast the new block as the candidate of the round.
    SendCandidateBlock { block: Block },
}

/// The contents of a task.
#[verifier::ext_equal]
pub enum TaskView {
    TestProposedBlock { sender_id: SignerID, block: BlockView },
    SendSignature { signature: Signature },
    RestartTimer,
    CombineBlockSigs { block: BlockView, signatures: Seq<Signature> },
    SubmitBlock { block: BlockView },
    SendCompletedBlock { block: BlockView },
    GetNewBlock { wait_secs: u64, address: Seq<char> },
    SendCandidateBlock { block: BlockView },
}

impl View for Task {
    type V = TaskView;

    open spec fn view(&self) -> TaskView {
        match *self {
            Task::TestProposedBlock { sender_id, block } => TaskView::TestProposedBlock {
                sender_id,
                block: block@,
            },
            Task::SendSignature { signature } => TaskView::SendSignature { signature },
            Task::RestartTimer => TaskView::RestartTimer,
            Task::CombineBlockSigs { block, signatures } => TaskView::CombineBlockSigs {
                block: block@,
                signatures: signatures@,
            },
            Task::SubmitBlock { block } => TaskView::SubmitBlock { block: block@ },
            Task::SendCompletedBlock { block } => TaskView::SendCompletedBlock { block: block@ },
            Task::GetNewBlock { wait_secs, address } => TaskView::GetNewBlock {
                wait_secs,
                address: address@,
            },
            Task::SendCandidateBlock { block } => TaskView::SendCandidateBlock { block: block@ },
        }
    }
}

/// How far the handling of a message or of a round has come.
#[derive(Debug, PartialEq)]
pub enum Outcome {
    /// It is over, and this is the state that the node moves to.
    Next(NodeState),
    /// It waits for the reply to a task.
    Pending(Task),
    /// The node cannot go on.
    Abort(Failure),
}

/// The contents of an outcome.
#[verifier::ext_equal]
pub enum OutcomeView {
    Next(NodeStateView),
    Pending(TaskView),
    Abort(Failure),
}

impl View for Outcome {
    type V = OutcomeView;

    open spec fn view(&self) -> OutcomeView {
        match *self {
            Outcome::Next(state) => OutcomeView::Next(state@),
            Outcome::Pending(task) => OutcomeView::Pending(task@),
            Outcome::Abort(failure) => OutcomeView::Abort(failure),
        }
    }
}

/// What came of a piece of input or output.
#[derive(Debug, PartialEq)]
pub enum Reply {
    /// It was done, or what was looked for is there.
    Done,
    /// It failed.
    Failed,
    /// There was nothing.
    Nothing,
    /// A block came back.
    Block(Block),
    /// Whether the initial block download is still going on.
    BlockchainInfo { initialblockdownload: bool },
    /// A message was received.
    Message(Message),
}

/// The contents of a reply.
#[verifier::ext_equal]
pub enum ReplyView {
    Done,
    Failed,
    Nothing,
    Block(BlockView),
    BlockchainInfo { initialblockdownload: bool },
    Message(MessageView),
}

impl View for Reply {
    type V = ReplyView;

    open spec fn view(&self) -> ReplyView {
        match *self {
            Reply::Done => ReplyView::Done,
            Reply::Failed => ReplyView::Failed,
            Reply::Nothing => ReplyView::Nothing,
            Reply::Block(block) => ReplyView::Block(block@),
            Reply::BlockchainInfo { initialblockdownload } => ReplyView::BlockchainInfo {
                initialblockdownload,
            },
            Reply::Message(message) => ReplyView::Message(message@),
        }
    }
}

impl TaskView {
    /// The reply is one that the task can have.
    pub open spec fn answered_by(self, reply: ReplyView) -> bool {
        match self {
            TaskView::SendSignature { .. }
            | TaskView::SendCompletedBlock { .. }
            | TaskView::SendCandidateBlock { .. } => reply is Done,
            TaskView::TestProposedBlock { .. }
            | TaskView::RestartTimer
            | TaskView::SubmitBlock { .. } => reply is Done || reply is Failed,
            TaskView::CombineBlockSigs { .. }
            | TaskView::GetNewBlock { .. } => reply is Block || reply is Failed,
        }
    }
}

impl Task {
    /// Whether the reply is one that the task can have.
    pub fn accepts(&self, reply: &Reply) -> (fits: bool)
        ensures
            fits == self@.answered_by(reply@),
    {
        match self {
            Task::SendSignature { .. }
            | Task::SendCompletedBlock { .. }
            | Task::SendCandidateBlock { .. } => matches!(reply, Reply::Done),
            Task::TestProposedBlock { .. }
            | Task::RestartTimer
            | Task::SubmitBlock { .. } => matches!(reply, Reply::Done | Reply::Failed),
            Task::CombineBlockSigs { .. }
            | Task::GetNewBlock { .. } => matches!(reply, Reply::Block(_) | Reply::Failed),
        }
    }
}

} // verus!
