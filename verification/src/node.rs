//! A signer node, and how it handles messages and rounds.
use vstd::prelude::*;

use crate::keys::{sign, Signature, SignerID};
use crate::message::{Block, BlockView, Message, MessageType, MessageTypeView, MessageView};
#[allow(unused_imports)]
use crate::parameters::first_place;
use crate::parameters::{sender_index, NodeParameters, ParametersView};
use crate::run::{Phase, PhaseView};
use crate::signature_map::SignatureMap;
#[allow(unused_imports)]
use crate::signature_map::{has_signer, signatures_of, signers_distinct};
use crate::work::{
    Failure, NodeState, NodeStateView, Outcome, OutcomeView, Rejection, Reply, ReplyView, Task,
    TaskView,
};

verus! {

/// How long a round lasts by default, in seconds.
pub const ROUND_INTERVAL_DEFAULT_SECS: u64 = 60;

/// How much longer than a round the round timer runs, in seconds.
pub const ROUND_TIMELIMIT_DELTA: u64 = 5;

/// A node of the federation.
pub struct SignerNode {
    pub params: NodeParameters,
    pub current_state: NodeState,
    /// Whether something may give the node the stop signal.
    pub stop_signal: bool,
    /// Where the master of the round stands in the list of keys.
    pub master_index: usize,
    /// When the round timer runs out, in seconds.
    pub round_time_limit: u64,
    /// Whether the connection hands its errors to the node.
    pub error_handler: bool,
    pub phase: Phase,
}

/// The contents of a node.
#[verifier::ext_equal]
pub struct NodeView {
    pub params: ParametersView,
    pub current_state: NodeStateView,
    pub stop_signal: bool,
    pub master_index: int,
    pub round_time_limit: u64,
    pub error_handler: bool,
    pub phase: PhaseView,
}

impl View for SignerNode {
    type V = NodeView;

    open spec fn view(&self) -> NodeView {
        NodeView {
            params: self.params@,
            current_state: self.current_state@,
            stop_signal: self.stop_signal,
            master_index: self.master_index as int,
            round_time_limit: self.round_time_limit,
            error_handler: self.error_handler,
            phase: self.phase@,
        }
    }
}

/// Why the master does not take the signature of `sender_id` on `block`, if it does not.
pub open spec fn rejection(
    signatures: Seq<(SignerID, Signature)>,
    block: BlockView,
    signature: Signature,
    sender_id: SignerID,
) -> Option<Rejection> {
    if has_signer(signatures, sender_id) {
        Some(Rejection::DuplicatedMessage)
    } else {
        match block.digest() {
            None => Some(Rejection::UnsignableBlock),
            Some(digest) => if sender_id.pubkey.accepts(digest, signature) {
                None
            } else {
                Some(Rejection::InvalidSignature)
            },
        }
    }
}

/// So many signatures complete a block. The count is kept in eight bits.
pub open spec fn enough(count: nat, threshold: u8) -> bool {
    count % 256 >= threshold
}

impl NodeView {
    /// The master of the round is in the federation.
    pub open spec fn wf(self) -> bool {
        0 <= self.master_index < self.params.pubkey_list.len()
    }

    /// Where a signer stands in the list of keys.
    pub open spec fn index_of(self, id: SignerID) -> Option<int> {
        first_place(self.params.pubkey_list, id.pubkey)
    }

    /// The node with the signer at `index` as the master of the round.
    pub open spec fn led_by(self, index: int) -> NodeView {
        NodeView { master_index: index, ..self }
    }

    /// Where the master of the next round stands in the list of keys.
    pub open spec fn next_master(self) -> int {
        (self.master_index + 1) % self.params.pubkey_list.len() as int
    }

    /// The first task of a round with the node as its master.
    pub open spec fn new_round(self) -> OutcomeView {
        OutcomeView::Pending(
            TaskView::GetNewBlock {
                wait_secs: self.params.round_duration,
                address: self.params.address,
            },
        )
    }

    /// What comes of a round once its candidate is broadcast: the node is the master, with its
    /// own signature on the candidate.
    pub open spec fn round_opened(self, block: BlockView) -> OutcomeView {
        match block.digest() {
            None => OutcomeView::Abort(Failure::UnsignableBlock),
            Some(digest) => OutcomeView::Next(
                NodeStateView::Master {
                    signatures: seq![
                        (self.params.signer_id, self.params.private_key.signature_on(digest)),
                    ],
                    candidate_block: block,
                },
            ),
        }
    }

    /// The master's role passes to the next signer in the list. If that is the node itself it
    /// opens a round; otherwise it becomes a member.
    pub open spec fn rotated(self) -> (NodeView, OutcomeView) {
        let node = self.led_by(self.next_master());
        if self.params.self_node_index == self.next_master() {
            (node, node.new_round())
        } else {
            (node, OutcomeView::Next(NodeStateView::Member))
        }
    }

    /// A member has a candidate tested; any other node ignores it.
    pub open spec fn on_candidateblock(self, sender_id: SignerID, block: BlockView) -> OutcomeView {
        if self.current_state is Member {
            OutcomeView::Pending(TaskView::TestProposedBlock { sender_id, block })
        } else {
            OutcomeView::Next(self.current_state)
        }
    }

    /// Whoever proposed a valid candidate is the master of the round, and gets the node's
    /// signature on it. An invalid candidate is ignored.
    pub open spec fn on_candidate_tested(
        self,
        sender_id: SignerID,
        block: BlockView,
        valid: bool,
    ) -> (NodeView, OutcomeView) {
        if !valid {
            (self, OutcomeView::Next(self.current_state))
        } else {
            match self.index_of(sender_id) {
                None => (self, OutcomeView::Abort(Failure::UnknownSender)),
                Some(index) => (
                    self.led_by(index),
                    match block.digest() {
                        None => OutcomeView::Abort(Failure::UnsignableBlock),
                        Some(digest) => OutcomeView::Pending(
                            TaskView::SendSignature {
                                signature: self.params.private_key.signature_on(digest),
                            },
                        ),
                    },
                ),
            }
        }
    }

    /// The master takes a valid signature of a signer who has not signed yet. With enough of them
    /// it has the block completed. Any other signature is ignored, and so is every signature that
    /// reaches a node that is not the master.
    pub open spec fn on_signature(self, sender_id: SignerID, signature: Signature) -> OutcomeView {
        match self.current_state {
            NodeStateView::Master { signatures, candidate_block } => {
                match rejection(signatures, candidate_block, signature, sender_id) {
                    Some(Rejection::UnsignableBlock) => OutcomeView::Abort(
                        Failure::UnsignableBlock,
                    ),
                    Some(_) => OutcomeView::Next(self.current_state),
                    None => {
                        let collected = signatures.push((sender_id, signature));
                        if enough(collected.len(), self.params.threshold) {
                            OutcomeView::Pending(
                                TaskView::CombineBlockSigs {
                                    block: candidate_block,
                                    signatures: signatures_of(collected),
                                },
                            )
                        } else {
                            OutcomeView::Next(
                                NodeStateView::Master { signatures: collected, candidate_block },
                            )
                        }
                    },
                }
            },
            _ => OutcomeView::Next(self.current_state),
        }
    }

    /// A block that the master of the round has completed ends the round; one from anybody else
    /// is ignored.
    pub open spec fn on_completedblock(self, sender_id: SignerID) -> (NodeView, OutcomeView) {
        match self.index_of(sender_id) {
            None => (self, OutcomeView::Abort(Failure::UnknownSender)),
            Some(index) => if index == self.master_index {
                self.rotated()
            } else {
                (self, OutcomeView::Next(self.current_state))
            },
        }
    }

    /// What a message does to the node. The failure of a round is ignored.
    pub open spec fn on_message(self, message: MessageView) -> (NodeView, OutcomeView) {
        let sender_id = message.sender_id;
        match message.message_type {
            MessageTypeView::Candidateblock(block) => (
                self,
                self.on_candidateblock(sender_id, block),
            ),
            MessageTypeView::Signature(signature) => (self, self.on_signature(sender_id, signature)),
            MessageTypeView::Completedblock(_) => self.on_completedblock(sender_id),
            MessageTypeView::Roundfailure => (self, OutcomeView::Next(self.current_state)),
        }
    }

    /// What the reply to a task does to the node.
    pub open spec fn on_reply(self, task: TaskView, reply: ReplyView) -> (NodeView, OutcomeView) {
        match task {
            TaskView::TestProposedBlock { sender_id, block } => self.on_candidate_tested(
                sender_id,
                block,
                reply is Done,
            ),
            TaskView::SendSignature { .. } => (self, OutcomeView::Pending(TaskView::RestartTimer)),
            TaskView::RestartTimer => (
                self,
                if reply is Done {
                    OutcomeView::Next(self.current_state)
                } else {
                    OutcomeView::Abort(Failure::TimerRestart)
                },
            ),
            TaskView::CombineBlockSigs { .. } => (
                self,
                match reply {
                    ReplyView::Block(block) => OutcomeView::Pending(
                        TaskView::SubmitBlock { block },
                    ),
                    _ => OutcomeView::Abort(Failure::CombineBlockSigs),
                },
            ),
            TaskView::SubmitBlock { block } => (
                self,
                if reply is Done {
                    OutcomeView::Pending(TaskView::SendCompletedBlock { block })
                } else {
                    OutcomeView::Abort(Failure::SubmitBlock)
                },
            ),
            TaskView::SendCompletedBlock { .. } => self.rotated(),
            TaskView::GetNewBlock { .. } => (
                self,
                match reply {
                    ReplyView::Block(block) => OutcomeView::Pending(
                        TaskView::SendCandidateBlock { block },
                    ),
                    _ => OutcomeView::Abort(Failure::NewBlock),
                },
            ),
            TaskView::SendCandidateBlock { block } => (self, self.round_opened(block)),
        }
    }
}

/// The signatures are all by different signers, and each verifies on the block under its signer's
/// key.
pub open spec fn well_signed(signatures: Seq<(SignerID, Signature)>, block: BlockView) -> bool {
    &&& signers_distinct(signatures)
    &&& block.digest() matches Some(digest) && forall|i: int|
        0 <= i < signatures.len() ==> (#[trigger] signatures[i]).0.pubkey.accepts(
            digest,
            signatures[i].1,
        )
}

impl NodeStateView {
    /// A master has its own signature on the candidate, first of all, and no signature that does
    /// not verify. It has no other signature yet, or fewer than the threshold.
    pub open spec fn sound(self, own: SignerID, threshold: u8) -> bool {
        match self {
            NodeStateView::Master { signatures, candidate_block } => {
                &&& well_signed(signatures, candidate_block)
                &&& signatures.len() > 0
                &&& signatures[0].0 == own
                &&& signatures.len() == 1 || signatures.len() < threshold
            },
            _ => true,
        }
    }
}

impl TaskView {
    /// A block is completed with as many signatures as the threshold, but with two at least: its
    /// master's and others, all of them by different signers and verified.
    pub open spec fn sound(self, own: SignerID, threshold: u8) -> bool {
        match self {
            TaskView::CombineBlockSigs { block, signatures } => {
                exists|collected: Seq<(SignerID, Signature)>|
                    {
                        &&& #[trigger] well_signed(collected, block)
                        &&& collected.len() == (if threshold < 2 {
                            2
                        } else {
                            threshold as int
                        })
                        &&& collected[0].0 == own
                        &&& signatures == signatures_of(collected)
                    }
            },
            _ => true,
        }
    }
}

impl OutcomeView {
    /// The state or the task of the outcome is sound.
    pub open spec fn sound(self, own: SignerID, threshold: u8) -> bool {
        match self {
            OutcomeView::Next(state) => state.sound(own, threshold),
            OutcomeView::Pending(task) => task.sound(own, threshold),
            OutcomeView::Abort(_) => true,
        }
    }
}

impl NodeView {
    /// The node is known by the public key of its private key, and its state and what it is
    /// working at are sound.
    pub open spec fn sound(self) -> bool {
        &&& self.params.signer_id.pubkey == self.params.private_key.public()
        &&& self.current_state.sound(self.params.signer_id, self.params.threshold)
        &&& self.phase matches PhaseView::Working { task, .. } ==> task.sound(
            self.params.signer_id,
            self.params.threshold,
        )
    }

    /// What the node itself signs on `block` verifies under its own key.
    pub open spec fn own_signature_verifies(self, block: BlockView) -> bool {
        block.digest() matches Some(digest) ==> self.params.private_key.public().accepts(
            digest,
            self.params.private_key.signature_on(digest),
        )
    }
}

proof fn lemma_message_keeps_sound(node: NodeView, message: MessageView)
    requires
        node.sound(),
    ensures
        node.on_message(message).0.sound(),
        node.on_message(message).1.sound(node.params.signer_id, node.params.threshold),
{
    if let MessageTypeView::Signature(signature) = message.message_type {
        if let NodeStateView::Master { signatures, candidate_block } = node.current_state {
            let sender_id = message.sender_id;
            if rejection(signatures, candidate_block, signature, sender_id) is None {
                let collected = signatures.push((sender_id, signature));
                assert forall|i: int, j: int| 0 <= i < j < collected.len() implies (
                #[trigger] collected[i]).0 != (#[trigger] collected[j]).0 by {
                    assert(signatures[i] == collected[i]);
                    if j < signatures.len() {
                        assert(signatures[j] == collected[j]);
                    }
                }
                assert forall|i: int| 0 <= i < collected.len() implies (
                #[trigger] collected[i]).0.pubkey.accepts(
                    candidate_block.digest()->0,
                    collected[i].1,
                ) by {
                    if i < signatures.len() {
                        assert(signatures[i] == collected[i]);
                    }
                }
                assert(well_signed(collected, candidate_block));
            }
        }
    }
}

proof fn lemma_reply_keeps_sound(node: NodeView, task: TaskView, reply: ReplyView)
    requires
        node.sound(),
        task matches TaskView::SendCandidateBlock { block } ==> node.own_signature_verifies(block),
    ensures
        node.on_reply(task, reply).0.sound(),
        node.on_reply(task, reply).1.sound(node.params.signer_id, node.params.threshold),
{
}

impl SignerNode {
    /// A node that has not started. Its timer runs a little longer than a round.
    pub fn new(params: NodeParameters) -> (node: SignerNode)
        requires
            params.round_duration + ROUND_TIMELIMIT_DELTA <= u64::MAX,
        ensures
            node.params@ == params@,
            node.current_state is Joining,
            !node.stop_signal,
            node.master_index == 0,
            node.round_time_limit == params.round_duration + 5,
            !node.error_handler,
            node.phase is Created,
            params.pubkey_list@.len() > 0 ==> node@.wf(),
            params@.wf() ==> node@.wf() && node@.sound(),
    {
        let round_time_limit: u64 = params.round_duration + ROUND_TIMELIMIT_DELTA;
        SignerNode {
            params,
            current_state: NodeState::Joining,
            stop_signal: false,
            master_index: 0,
            round_time_limit,
            error_handler: false,
            phase: Phase::Created,
        }
    }

    /// From now on the node looks out for the stop signal.
    pub fn stop_handler(&mut self)
        ensures
            final(self)@ == (NodeView { stop_signal: true, ..old(self)@ }),
            old(self)@.wf() ==> final(self)@.wf(),
            old(self)@.sound() ==> final(self)@.sound(),
    {
        self.stop_signal = true;
    }

    /// Opens a round with the node as its master: the node waits for the length of a round, then
    /// has a new block made that pays to its address.
    pub fn start_new_round(&self) -> (outcome: Outcome)
        ensures
            outcome@ == self@.new_round(),
    {
        Outcome::Pending(
            Task::GetNewBlock {
                wait_secs: self.params.round_duration,
                address: self.params.address.clone(),
            },
        )
    }

    /// The master's own signature on the candidate of its round, and the state that it enters.
    fn open_round(&self, block: Block) -> (outcome: Outcome)
        ensures
            outcome@ == self@.round_opened(block@),
            self@.own_signature_verifies(block@),
    {
        match block.digest() {
            None => Outcome::Abort(Failure::UnsignableBlock),
            Some(digest) => {
                let signature = sign(&self.params.private_key, &digest);
                let mut signature_map = SignatureMap::new();
                signature_map.insert(self.params.signer_id, signature);
                assert(signature_map@ =~= seq![(self.params.signer_id, signature)]);
                Outcome::Next(NodeState::Master { signature_map, candidate_block: block })
            },
        }
    }

    /// Handles a message.
    pub fn process_message(&mut self, message: Message) -> (outcome: Outcome)
        requires
            old(self)@.wf(),
        ensures
            (final(self)@, outcome@) == old(self)@.on_message(message@),
            final(self)@.wf(),
            old(self)@.sound() ==> final(self)@.sound() && outcome@.sound(
                final(self)@.params.signer_id,
                final(self)@.params.threshold,
            ),
    {
        proof {
            if self@.sound() {
                lemma_message_keeps_sound(self@, message@);
            }
        }
        let sender_id = message.sender_id;
        match message.message_type {
            MessageType::Candidateblock(block) => self.process_candidateblock(&sender_id, &block),
            MessageType::Signature(signature) => self.process_signature(&sender_id, &signature),
            MessageType::Completedblock(block) => self.process_completedblock(&sender_id, &block),
            MessageType::Roundfailure => self.process_roundfailure(&sender_id),
        }
    }

    /// Handles a candidate block: a member has it tested.
    pub fn process_candidateblock(&self, sender_id: &SignerID, block: &Block) -> (outcome: Outcome)
        ensures
            outcome@ == self@.on_candidateblock(*sender_id, block@),
    {
        match &self.current_state {
            NodeState::Member => Outcome::Pending(
                Task::TestProposedBlock { sender_id: *sender_id, block: block.clone() },
            ),
            state => Outcome::Next(state.clone()),
        }
    }

    /// Handles the verdict on a candidate block.
    fn candidate_tested(&mut self, sender_id: &SignerID, block: &Block, valid: bool) -> (outcome:
        Outcome)
        requires
            old(self)@.wf(),
        ensures
            (final(self)@, outcome@) == old(self)@.on_candidate_tested(*sender_id, block@, valid),
            final(self)@.wf(),
            outcome is Pending ==> old(self)@.own_signature_verifies(block@),
    {
        if !valid {
            return Outcome::Next(self.current_state.clone());
        }
        match sender_index(sender_id, &self.params.pubkey_list) {
            None => Outcome::Abort(Failure::UnknownSender),
            Some(index) => {
                self.master_index = index;
                match self.block2message(block) {
                    None => Outcome::Abort(Failure::UnsignableBlock),
                    Some(digest) => {
                        let signature = sign(&self.params.private_key, &digest);
                        Outcome::Pending(Task::SendSignature { signature })
                    },
                }
            },
        }
    }

    /// What a signer of the block signs, if the block has a digest that can be signed.
    pub fn block2message(&self, block: &Block) -> (digest: Option<[u8; 32]>)
        ensures
            digest == block@.digest(),
    {
        block.digest()
    }

    /// Whether the master takes the signature of `sender_id`, and if not, why.
    pub fn verify_signature(
        &self,
        signature_map: &SignatureMap,
        block: &Block,
        sig: &Signature,
        sender_id: &SignerID,
    ) -> (verdict: Result<(), Rejection>)
        ensures
            match verdict {
                Ok(_) => rejection(signature_map@, block@, *sig, *sender_id) == None::<Rejection>,
                Err(e) => rejection(signature_map@, block@, *sig, *sender_id) == Some(e),
            },
    {
        if signature_map.contains_key(sender_id) {
            Err(Rejection::DuplicatedMessage)
        } else {
            match self.block2message(block) {
                None => Err(Rejection::UnsignableBlock),
                Some(digest) => if sender_id.pubkey.verify(&digest, sig) {
                    Ok(())
                } else {
                    Err(Rejection::InvalidSignature)
                },
            }
        }
    }

    /// Handles a signature: the master collects it.
    pub fn process_signature(&self, sender_id: &SignerID, signature: &Signature) -> (outcome:
        Outcome)
        ensures
            outcome@ == self@.on_signature(*sender_id, *signature),
    {
        match &self.current_state {
            NodeState::Master { signature_map, candidate_block } => {
                match self.verify_signature(signature_map, candidate_block, signature, sender_id) {
                    Ok(_) => {
                        let mut collected = signature_map.clone();
                        collected.insert(*sender_id, *signature);
                        let count: usize = collected.len();
                        assert(count as u8 == count % 256) by (bit_vector);
                        if count as u8 >= self.params.threshold {
                            Outcome::Pending(
                                Task::CombineBlockSigs {
                                    block: candidate_block.clone(),
                                    signatures: collected.values(),
                                },
                            )
                        } else {
                            Outcome::Next(
                                NodeState::Master {
                                    signature_map: collected,
                                    candidate_block: candidate_block.clone(),
                                },
                            )
                        }
                    },
                    Err(Rejection::UnsignableBlock) => Outcome::Abort(Failure::UnsignableBlock),
                    Err(_) => Outcome::Next(self.current_state.clone()),
                }
            },
            state => Outcome::Next(state.clone()),
        }
    }

    /// Passes the master's role to the next signer in the list.
    pub fn round_robin_master(&mut self) -> (outcome: Outcome)
        requires
            old(self)@.wf(),
        ensures
            (final(self)@, outcome@) == old(self)@.rotated(),
            final(self)@.wf(),
    {
        let len: usize = self.params.pubkey_list.len();
        let next_index: usize = (self.master_index + 1) % len;
        self.master_index = next_index;
        if self.params.self_node_index == next_index {
            self.start_new_round()
        } else {
            Outcome::Next(NodeState::Member)
        }
    }

    /// Handles a completed block: the one of the master ends the round.
    pub fn process_completedblock(&mut self, sender_id: &SignerID, _block: &Block) -> (outcome:
        Outcome)
        requires
            old(self)@.wf(),
        ensures
            (final(self)@, outcome@) == old(self)@.on_completedblock(*sender_id),
            final(self)@.wf(),
    {
        match sender_index(sender_id, &self.params.pubkey_list) {
            None => Outcome::Abort(Failure::UnknownSender),
            Some(index) => if index == self.master_index {
                self.round_robin_master()
            } else {
                Outcome::Next(self.current_state.clone())
            },
        }
    }

    /// Handles the failure of a round, by doing nothing.
    pub fn process_roundfailure(&self, _sender_id: &SignerID) -> (outcome: Outcome)
        ensures
            outcome@ == OutcomeView::Next(self@.current_state),
    {
        Outcome::Next(self.current_state.clone())
    }

    /// Goes on with the handling of a message or a round after the reply to a task.
    pub fn resume(&mut self, task: Task, reply: Reply) -> (outcome: Outcome)
        requires
            old(self)@.wf(),
            task@.answered_by(reply@),
        ensures
            (final(self)@, outcome@) == old(self)@.on_reply(task@, reply@),
            final(self)@.wf(),
            old(self)@.sound() ==> final(self)@.sound() && outcome@.sound(
                final(self)@.params.signer_id,
                final(self)@.params.threshold,
            ),
            task@ matches TaskView::TestProposedBlock { block, .. } ==> (outcome is Pending
                ==> old(self)@.own_signature_verifies(block)),
    {
        let ghost before = self@;
        let outcome = self.take_up(task, reply);
        proof {
            if before.sound() {
                lemma_reply_keeps_sound(before, task@, reply@);
            }
        }
        outcome
    }

    fn take_up(&mut self, task: Task, reply: Reply) -> (outcome: Outcome)
        requires
            old(self)@.wf(),
            task@.answered_by(reply@),
        ensures
            (final(self)@, outcome@) == old(self)@.on_reply(task@, reply@),
            final(self)@.wf(),
            task@ matches TaskView::SendCandidateBlock { block }
                ==> old(self)@.own_signature_verifies(block),
            task@ matches TaskView::TestProposedBlock { block, .. } ==> (outcome is Pending
                ==> old(self)@.own_signature_verifies(block)),
    {
        match task {
            Task::TestProposedBlock { sender_id, block } => {
                let valid = matches!(reply, Reply::Done);
                self.candidate_tested(&sender_id, &block, valid)
            },
            Task::SendSignature { .. } => Outcome::Pending(Task::RestartTimer),
            Task::RestartTimer => match reply {
                Reply::Done => Outcome::Next(self.current_state.clone()),
                _ => Outcome::Abort(Failure::TimerRestart),
            },
            Task::CombineBlockSigs { .. } => match reply {
                Reply::Block(block) => Outcome::Pending(Task::SubmitBlock { block }),
                _ => Outcome::Abort(Failure::CombineBlockSigs),
            },
            Task::SubmitBlock { block } => match reply {
                Reply::Done => Outcome::Pending(Task::SendCompletedBlock { block }),
                _ => Outcome::Abort(Failure::SubmitBlock),
            },
            Task::SendCompletedBlock { .. } => self.round_robin_master(),
            Task::GetNewBlock { .. } => match reply {
                Reply::Block(block) => Outcome::Pending(Task::SendCandidateBlock { block }),
                _ => Outcome::Abort(Failure::NewBlock),
            },
            Task::SendCandidateBlock { block } => self.open_round(block),
        }
    }
}

} // verus!
