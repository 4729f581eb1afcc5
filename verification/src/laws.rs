//! What holds of nodes and federations as a whole.
use vstd::prelude::*;

use crate::curve::{ecdsa_signature, ecdsa_verifies, p2pkh_text, public_point, Network};
use crate::keys::{PrivateKey, PublicKey, Signature, SignerID};
use crate::message::{BlockView, MessageTypeView, MessageView};
use crate::node::{enough, rejection, well_signed, NodeView};
use crate::order::law_sorted_keys_are_unique;
use crate::parameters::{first_place, lemma_first_place, ParametersView};
use crate::run::{ActionView, PhaseView, Slot};
use crate::signature_map::{
    has_signer, lemma_with_signature, same_entries, signatures_of, with_signature,
};
use crate::work::{Failure, NodeStateView, OutcomeView, ReplyView, TaskView};

verus! {

/// What a node is configured with: the keys that were handed over, in order; the private key and
/// the choices as they were handed over; the public key of the private key as the node's identity,
/// its first place among the keys as the node's, and its P2PKH address on the private key's network
/// as the one that rewards go to.
pub proof fn law_configuration_is_as_asked(
    params: ParametersView,
    pubkey_list: Seq<PublicKey>,
    private_key: PrivateKey,
    threshold: u8,
    master_flag: bool,
    round_duration: u64,
    skip_waiting_ibd: bool,
)
    ensures
        params.made_of(
            pubkey_list,
            private_key,
            threshold,
            master_flag,
            round_duration,
            skip_waiting_ibd,
        ) <==> {
            let (x, y) = public_point(private_key.secret());
            let own = PublicKey { compressed: private_key.compressed(), x, y };
            let place = params.self_node_index as int;
            &&& forall|i: int, j: int|
                0 <= i < j < params.pubkey_list.len() ==> #[trigger] params.pubkey_list[i].precedes(
                    #[trigger] params.pubkey_list[j],
                )
            &&& params.pubkey_list.to_multiset() == pubkey_list.to_multiset()
            &&& params.private_key == private_key
            &&& params.threshold == threshold
            &&& params.master_flag == master_flag
            &&& params.round_duration == round_duration
            &&& params.skip_waiting_ibd == skip_waiting_ibd
            &&& params.signer_id == SignerID { pubkey: own }
            &&& place < params.pubkey_list.len()
            &&& params.pubkey_list[place] == own
            &&& forall|j: int| 0 <= j < place ==> params.pubkey_list[j] != own
            &&& params.address == p2pkh_text(own.compressed, x, y, private_key.network())
        },
{
}

/// What signers sign is the hash of the block, if it has one that is not all zeros.
pub proof fn law_digest_is_the_hash(block: BlockView, hash: [u8; 32])
    ensures
        block.digest() == Some(hash) <==> block.hash == Some(hash) && exists|i: int|
            0 <= i < 32 && #[trigger] hash@[i] != 0,
        block.digest() is None <==> block.hash is None || (forall|i: int|
            0 <= i < 32 ==> #[trigger] block.hash->0@[i] == 0),
{
}

/// A private key and its public key belong together: the public key is the point of the secret, in
/// the encoding that the private key asks for; what the secret signs is its signature; and what
/// verifies under the public key is what verifies under its point.
pub proof fn law_keys_belong_together(
    private_key: PrivateKey,
    public_key: PublicKey,
    digest: [u8; 32],
    signature: Signature,
    network: Network,
)
    ensures
        private_key.public() == public_key <==> public_key.compressed == private_key.compressed()
            && (public_key.x, public_key.y) == public_point(private_key.secret()),
        private_key.signature_on(digest) == signature <==> signature.compact == ecdsa_signature(
            private_key.secret(),
            digest,
        ),
        public_key.accepts(digest, signature) <==> ecdsa_verifies(
            digest,
            signature.compact,
            public_key.x,
            public_key.y,
        ),
        public_key.p2pkh_address(network) == p2pkh_text(
            public_key.compressed,
            public_key.x,
            public_key.y,
            network,
        ),
{
}

/// A sound node that is a master has its own signature first, no two of one signer, and none that
/// does not verify on the hash of its candidate under the key of its signer.
pub proof fn law_sound_master_has_verified_signatures(
    node: NodeView,
    signatures: Seq<(SignerID, Signature)>,
    candidate_block: BlockView,
)
    requires
        node.sound(),
        node.current_state == (NodeStateView::Master { signatures, candidate_block }),
    ensures
        signatures.len() > 0,
        signatures[0].0 == node.params.signer_id,
        candidate_block.hash is Some,
        forall|i: int, j: int|
            0 <= i < j < signatures.len() ==> (#[trigger] signatures[i]).0 != (
            #[trigger] signatures[j]).0,
        forall|i: int|
            0 <= i < signatures.len() ==> ecdsa_verifies(
                candidate_block.hash->0,
                (#[trigger] signatures[i]).1.compact,
                signatures[i].0.pubkey.x,
                signatures[i].0.pubkey.y,
            ),
{
    assert forall|i: int| 0 <= i < signatures.len() implies ecdsa_verifies(
        candidate_block.hash->0,
        (#[trigger] signatures[i]).1.compact,
        signatures[i].0.pubkey.x,
        signatures[i].0.pubkey.y,
    ) by {
        assert(signatures[i].0.pubkey.accepts(candidate_block.digest()->0, signatures[i].1));
    }
}

/// A sound node completes a block with as many signatures as the threshold, and with two at least,
/// by as many different signers, the node among them, and all of them verify on the block's hash.
pub proof fn law_sound_node_completes_verified_blocks(
    node: NodeView,
    slot: Slot,
    block: BlockView,
    signatures: Seq<Signature>,
) -> (signers: Seq<SignerID>)
    requires
        node.sound(),
        node.phase == (PhaseView::Working {
            slot,
            task: TaskView::CombineBlockSigs { block, signatures },
        }),
    ensures
        signatures.len() >= 2,
        signatures.len() >= node.params.threshold,
        signatures.len() == 2 || signatures.len() == node.params.threshold,
        signers.len() == signatures.len(),
        signers.no_duplicates(),
        signers[0] == node.params.signer_id,
        block.hash is Some,
        forall|i: int|
            0 <= i < signatures.len() ==> ecdsa_verifies(
                block.hash->0,
                (#[trigger] signatures[i]).compact,
                signers[i].pubkey.x,
                signers[i].pubkey.y,
            ),
{
    let threshold = node.params.threshold;
    let collected = choose|collected: Seq<(SignerID, Signature)>|
        {
            &&& #[trigger] well_signed(collected, block)
            &&& collected.len() == (if threshold < 2 {
                2
            } else {
                threshold as int
            })
            &&& collected[0].0 == node.params.signer_id
            &&& signatures == signatures_of(collected)
        };
    let signers = Seq::new(collected.len(), |i: int| collected[i].0);
    assert forall|i: int, j: int| 0 <= i < signers.len() && 0 <= j < signers.len() && i
        != j implies signers[i] != signers[j] by {
        assert(collected[i].0 == signers[i] && collected[j].0 == signers[j]);
    }
    assert forall|i: int| 0 <= i < signatures.len() implies ecdsa_verifies(
        block.hash->0,
        (#[trigger] signatures[i]).compact,
        signers[i].pubkey.x,
        signers[i].pubkey.y,
    ) by {
        assert(collected[i].0.pubkey.accepts(block.digest()->0, collected[i].1));
    }
    signers
}

/// Nodes that are configured with the same keys list them in the same order, however the keys
/// were handed to them, and each node has a place of its own.
pub proof fn law_federation_agrees(a: ParametersView, b: ParametersView)
    requires
        a.wf(),
        b.wf(),
        a.pubkey_list.to_multiset() == b.pubkey_list.to_multiset(),
    ensures
        a.pubkey_list == b.pubkey_list,
        forall|id: SignerID| #[trigger]
            first_place(a.pubkey_list, id.pubkey) == first_place(b.pubkey_list, id.pubkey),
        a.self_node_index == b.self_node_index <==> a.signer_id == b.signer_id,
{
    law_sorted_keys_are_unique(a.pubkey_list, b.pubkey_list);
}

/// The node after the master's role was passed on so many times.
pub open spec fn after_rotations(node: NodeView, count: nat) -> NodeView
    decreases count,
{
    if count == 0 {
        node
    } else {
        after_rotations(node, (count - 1) as nat).rotated().0
    }
}

/// The master's role goes round: it moves on by one place each time, and from the end of the list
/// to its beginning. Nothing else about the node changes.
pub proof fn law_master_goes_round(node: NodeView, count: nat)
    requires
        node.wf(),
    ensures
        after_rotations(node, count).wf(),
        after_rotations(node, count).master_index == (node.master_index + count)
            % node.params.pubkey_list.len() as int,
        after_rotations(node, count) == (NodeView {
            master_index: after_rotations(node, count).master_index,
            ..node
        }),
    decreases count,
{
    let len = node.params.pubkey_list.len() as int;
    if count == 0 {
        vstd::arithmetic::div_mod::lemma_small_mod(node.master_index as nat, len as nat);
    } else {
        law_master_goes_round(node, (count - 1) as nat);
        vstd::arithmetic::div_mod::lemma_add_mod_noop_right(1, node.master_index + count - 1, len);
    }
}

/// Every place in the list has the master's role exactly once in as many rotations as the list is
/// long.
pub proof fn law_every_signer_leads(node: NodeView, index: int)
    requires
        node.wf(),
        0 <= index < node.params.pubkey_list.len(),
    ensures
        exists|count: nat|
            1 <= count <= node.params.pubkey_list.len() && (#[trigger] after_rotations(
                node,
                count,
            )).master_index == index,
        forall|a: nat, b: nat|
            1 <= a <= node.params.pubkey_list.len() && 1 <= b <= node.params.pubkey_list.len() && (
            #[trigger] after_rotations(node, a)).master_index == index && (
            #[trigger] after_rotations(node, b)).master_index == index ==> a == b,
{
    let len = node.params.pubkey_list.len() as int;
    let count = if index > node.master_index {
        (index - node.master_index) as nat
    } else {
        (index - node.master_index + len) as nat
    };
    assert forall|c: nat| 1 <= c <= len implies (#[trigger] after_rotations(node, c)).master_index
        == (if node.master_index + c < len {
        node.master_index + c
    } else {
        node.master_index + c - len
    }) by {
        law_master_goes_round(node, c);
        if node.master_index + c < len {
            vstd::arithmetic::div_mod::lemma_small_mod((node.master_index + c) as nat, len as nat);
        } else {
            vstd::arithmetic::div_mod::lemma_small_mod(
                (node.master_index + c - len) as nat,
                len as nat,
            );
            vstd::arithmetic::div_mod::lemma_mod_add_multiples_vanish(
                node.master_index + c - len,
                len,
            );
        }
    }
    assert(after_rotations(node, count).master_index == index);
}

/// When the master's role passes on, the node whose key stands at the next place opens a round,
/// and every other node becomes a member. Nodes that know the same master never both open one.
pub proof fn law_one_master_at_a_time(a: NodeView, b: NodeView)
    requires
        a.params.wf(),
        b.params.wf(),
        a.params.pubkey_list == b.params.pubkey_list,
        a.wf(),
        b.wf(),
        a.master_index == b.master_index,
    ensures
        a.rotated().0.master_index == b.rotated().0.master_index,
        a.params.pubkey_list.no_duplicates() && a.params.pubkey_list[a.next_master()]
            == a.params.signer_id.pubkey ==> a.rotated().1
            == OutcomeView::Pending(
            TaskView::GetNewBlock {
                wait_secs: a.params.round_duration,
                address: a.params.address,
            },
        ),
        a.params.pubkey_list[a.next_master()] != a.params.signer_id.pubkey ==> a.rotated().1
            == OutcomeView::Next(NodeStateView::Member),
        a.params.signer_id != b.params.signer_id ==> !(a.rotated().1 is Pending
            && b.rotated().1 is Pending),
{
    vstd::arithmetic::div_mod::lemma_mod_bound(
        a.master_index + 1,
        a.params.pubkey_list.len() as int,
    );
}

/// Whoever proposes a valid candidate is the master from then on: its completed block ends the
/// round, and that of any other signer does not.
pub proof fn law_proposer_is_the_master(
    node: NodeView,
    proposer: SignerID,
    block: BlockView,
    other: SignerID,
)
    requires
        node.wf(),
        node.params.pubkey_list.contains(proposer.pubkey),
        node.params.pubkey_list.contains(other.pubkey),
        other != proposer,
    ensures
        ({
            let after = node.on_candidate_tested(proposer, block, true).0;
            &&& after.wf()
            &&& after.params.pubkey_list[after.master_index] == proposer.pubkey
            &&& after.on_completedblock(proposer) == after.rotated()
            &&& after.on_completedblock(other) == (after, OutcomeView::Next(node.current_state))
        }),
{
    lemma_first_place(node.params.pubkey_list, proposer.pubkey);
    lemma_first_place(node.params.pubkey_list, other.pubkey);
}

/// An invalid candidate changes nothing.
pub proof fn law_invalid_candidate_is_ignored(node: NodeView, sender_id: SignerID, block: BlockView)
    ensures
        node.on_candidate_tested(sender_id, block, false) == (
            node,
            OutcomeView::Next(node.current_state),
        ),
{
}

/// A message that does not concern a node in its state changes nothing: a candidate for a node
/// that is not a member, a signature for a node that is not the master, the failure of a round
/// for any node.
pub proof fn law_unfit_message_is_ignored(node: NodeView, message: MessageView)
    requires
        match message.message_type {
            MessageTypeView::Candidateblock(_) => !(node.current_state is Member),
            MessageTypeView::Signature(_) => !(node.current_state is Master),
            MessageTypeView::Completedblock(_) => false,
            MessageTypeView::Roundfailure => true,
        },
    ensures
        node.on_message(message) == (node, OutcomeView::Next(node.current_state)),
{
}

/// The master takes every signature that verifies on its candidate under the key of a signer who
/// has not signed. It keeps collecting as long as there are too few, and has the block completed
/// with all of them once there are as many as the threshold. Left out are only counts that outgrow
/// eight bits and so seem too small, which [`law_count_is_exact`] rules out for a sound master.
pub proof fn law_valid_signature_is_taken(
    node: NodeView,
    signatures: Seq<(SignerID, Signature)>,
    candidate_block: BlockView,
    sender_id: SignerID,
    signature: Signature,
)
    requires
        node.current_state == (NodeStateView::Master { signatures, candidate_block }),
        candidate_block.digest() is Some,
        sender_id.pubkey.accepts(candidate_block.digest()->0, signature),
        !has_signer(signatures, sender_id),
        signatures.len() < 255 || enough(signatures.len() + 1, node.params.threshold),
    ensures
        ({
            let collected = signatures.push((sender_id, signature));
            node.on_signature(sender_id, signature) == (if signatures.len() + 1
                < node.params.threshold {
                OutcomeView::Next(NodeStateView::Master { signatures: collected, candidate_block })
            } else {
                OutcomeView::Pending(
                    TaskView::CombineBlockSigs {
                        block: candidate_block,
                        signatures: signatures_of(collected),
                    },
                )
            })
        }),
{
    if signatures.len() < 255 {
        assert((signatures.len() + 1) % 256 == signatures.len() + 1);
    }
}

/// The count of signatures does not outgrow its eight bits. A master that is sound has fewer
/// signatures than the threshold, or its own alone, and so it has the block completed exactly when
/// one more makes as many as the threshold.
pub proof fn law_count_is_exact(
    node: NodeView,
    signatures: Seq<(SignerID, Signature)>,
    candidate_block: BlockView,
)
    requires
        node.sound(),
        node.current_state == (NodeStateView::Master { signatures, candidate_block }),
    ensures
        signatures.len() < 255,
        signatures.len() == 1 || signatures.len() < node.params.threshold,
        enough(signatures.len() + 1, node.params.threshold) <==> signatures.len() + 1
            >= node.params.threshold,
{
    assert((signatures.len() + 1) % 256 == signatures.len() + 1);
}

/// It does not matter in which order two signers sign: the same signatures are collected.
pub proof fn law_order_of_arrival_does_not_matter(
    signatures: Seq<(SignerID, Signature)>,
    a: (SignerID, Signature),
    b: (SignerID, Signature),
)
    requires
        a.0 != b.0,
    ensures
        same_entries(
            with_signature(with_signature(signatures, a.0, a.1), b.0, b.1),
            with_signature(with_signature(signatures, b.0, b.1), a.0, a.1),
        ),
{
    lemma_with_signature(signatures, a);
    lemma_with_signature(signatures, b);
    lemma_with_signature(with_signature(signatures, a.0, a.1), b);
    lemma_with_signature(with_signature(signatures, b.0, b.1), a);
}

/// What a member signs on the candidate of a master, the master takes, if the member has not
/// signed yet: the signature that [`crate::keys::sign`] puts on a block verifies under the
/// signer's own key.
pub proof fn law_members_signature_is_taken(
    member: NodeView,
    master: NodeView,
    signatures: Seq<(SignerID, Signature)>,
    block: BlockView,
)
    requires
        member.params.wf(),
        member.own_signature_verifies(block),
        block.digest() is Some,
        master.current_state == (NodeStateView::Master { signatures, candidate_block: block }),
        !has_signer(signatures, member.params.signer_id),
    ensures
        rejection(
            signatures,
            block,
            member.params.private_key.signature_on(block.digest()->0),
            member.params.signer_id,
        ) is None,
        master.on_signature(
            member.params.signer_id,
            member.params.private_key.signature_on(block.digest()->0),
        ) != OutcomeView::Next(master.current_state),
{
    let signature = member.params.private_key.signature_on(block.digest()->0);
    let collected = signatures.push((member.params.signer_id, signature));
    assert(collected.len() != signatures.len());
}

/// A signature that does not verify on the candidate is not taken, whoever sends it.
pub proof fn law_invalid_signature_is_ignored(
    node: NodeView,
    signatures: Seq<(SignerID, Signature)>,
    candidate_block: BlockView,
    sender_id: SignerID,
    signature: Signature,
)
    requires
        node.current_state == (NodeStateView::Master { signatures, candidate_block }),
        candidate_block.digest() is Some,
        !sender_id.pubkey.accepts(candidate_block.digest()->0, signature),
    ensures
        node.on_signature(sender_id, signature) == OutcomeView::Next(node.current_state),
{
}

/// A signer counts once: after the master has taken its signature, no other one of the same signer
/// changes anything.
pub proof fn law_second_signature_is_ignored(
    node: NodeView,
    sender_id: SignerID,
    first: Signature,
    second: Signature,
    state: NodeStateView,
)
    requires
        node.current_state is Master,
        node.on_signature(sender_id, first) == OutcomeView::Next(state),
        state != node.current_state,
    ensures
        ({
            let after = NodeView { current_state: state, ..node };
            after.on_signature(sender_id, second) == OutcomeView::Next(state)
        }),
{
    if let NodeStateView::Master { signatures, candidate_block } = node.current_state {
        let collected = signatures.push((sender_id, first));
        assert(collected[signatures.len() as int].0 == sender_id);
        assert(has_signer(collected, sender_id));
    }
}

/// With enough signatures the master has the block completed, submits what came back, broadcasts
/// it, and passes its role on, in this order.
pub proof fn law_round_is_completed_in_order(
    node: NodeView,
    block: BlockView,
    signatures: Seq<Signature>,
    completed: BlockView,
)
    requires
        node.wf(),
        node.phase == (PhaseView::Working {
            slot: Slot::Message,
            task: TaskView::CombineBlockSigs { block, signatures },
        }),
    ensures
        ({
            let (submitting, first) = node.advanced(ReplyView::Block(completed));
            let (sending, second) = submitting.advanced(ReplyView::Done);
            let (rotating, third) = sending.advanced(ReplyView::Done);
            &&& first == ActionView::SubmitBlock { block: completed }
            &&& second == (ActionView::Broadcast {
                message: MessageView {
                    message_type: MessageTypeView::Completedblock(completed),
                    sender_id: node.params.signer_id,
                },
            })
            &&& (rotating, third) == node.rotated().0.settled(Slot::Message, node.rotated().1)
            &&& rotating.master_index == (node.master_index + 1)
                % node.params.pubkey_list.len() as int
            &&& rotating.master_index == node.params.self_node_index ==> third == (
            ActionView::GetNewBlock {
                wait_secs: node.params.round_duration,
                address: node.params.address,
            })
            &&& rotating.master_index != node.params.self_node_index ==> third is PollTimer
                && rotating.current_state is Member
        }),
{
    let (submitting, first) = node.advanced(ReplyView::Block(completed));
    let (sending, second) = submitting.advanced(ReplyView::Done);
    assert(sending == (NodeView {
        phase: PhaseView::Working {
            slot: Slot::Message,
            task: TaskView::SendCompletedBlock { block: completed },
        },
        ..node
    }));
}

/// A master opens its round with a new block that it broadcasts and signs before anyone else.
pub proof fn law_master_signs_first(node: NodeView, slot: Slot, block: BlockView)
    requires
        node.phase == (PhaseView::Working {
            slot,
            task: TaskView::GetNewBlock {
                wait_secs: node.params.round_duration,
                address: node.params.address,
            },
        }),
        block.digest() is Some,
    ensures
        ({
            let (sending, first) = node.advanced(ReplyView::Block(block));
            let (opened, _) = sending.advanced(ReplyView::Done);
            &&& first == (ActionView::Broadcast {
                message: MessageView {
                    message_type: MessageTypeView::Candidateblock(block),
                    sender_id: node.params.signer_id,
                },
            })
            &&& opened.current_state == (NodeStateView::Master {
                signatures: seq![
                    (
                        node.params.signer_id,
                        node.params.private_key.signature_on(block.digest()->0),
                    ),
                ],
                candidate_block: block,
            })
            &&& opened.master_index == node.master_index
        }),
{
}

/// A member answers a valid candidate of a signer in the federation with its signature and
/// nothing else, starts the round timer anew and stays a member.
pub proof fn law_member_signs_valid_candidate(node: NodeView, sender_id: SignerID, block: BlockView)
    requires
        node.phase is PollingMessage,
        node.current_state is Member,
        node.params.pubkey_list.contains(sender_id.pubkey),
        block.digest() is Some,
    ensures
        ({
            let message = MessageView {
                message_type: MessageTypeView::Candidateblock(block),
                sender_id,
            };
            let (testing, first) = node.advanced(ReplyView::Message(message));
            let (signing, second) = testing.advanced(ReplyView::Done);
            let (restarting, third) = signing.advanced(ReplyView::Done);
            let (done, fourth) = restarting.advanced(ReplyView::Done);
            &&& first == ActionView::TestProposedBlock { block }
            &&& second == (ActionView::Broadcast {
                message: MessageView {
                    message_type: MessageTypeView::Signature(
                        node.params.private_key.signature_on(block.digest()->0),
                    ),
                    sender_id: node.params.signer_id,
                },
            })
            &&& third == ActionView::RestartTimer
            &&& fourth == ActionView::PollTimer
            &&& done.current_state is Member
            &&& node.index_of(sender_id) == Some(done.master_index)
        }),
{
    lemma_first_place(node.params.pubkey_list, sender_id.pubkey);
    let index = node.index_of(sender_id)->0;
    let message = MessageView { message_type: MessageTypeView::Candidateblock(block), sender_id };
    let (testing, first) = node.advanced(ReplyView::Message(message));
    let task = TaskView::TestProposedBlock { sender_id, block };
    assert(testing.phase == (PhaseView::Working { slot: Slot::Message, task }));
    let (signing, second) = testing.advanced(ReplyView::Done);
    let signature = node.params.private_key.signature_on(block.digest()->0);
    assert(signing.phase == (PhaseView::Working {
        slot: Slot::Message,
        task: TaskView::SendSignature { signature },
    }));
    assert(signing.master_index == index);
    let (restarting, third) = signing.advanced(ReplyView::Done);
    assert(restarting.phase == (PhaseView::Working {
        slot: Slot::Message,
        task: TaskView::RestartTimer,
    }));
}

proof fn lemma_settled_awaits(node: NodeView, slot: Slot, outcome: OutcomeView)
    ensures
        node.settled(slot, outcome).1 == node.settled(slot, outcome).0.awaited(),
{
}

/// What the node asks for is what it waits for: the action that it hands out is the one of the
/// phase that it is in.
pub proof fn law_action_is_of_the_phase(node: NodeView, reply: ReplyView)
    ensures
        node.started().1 == node.started().0.awaited(),
        node.phase.expects(reply) ==> node.advanced(reply).1 == node.advanced(reply).0.awaited(),
{
    match node.phase {
        PhaseView::Connecting => {
            lemma_settled_awaits(node, Slot::Start, node.new_round());
            lemma_settled_awaits(node, Slot::Start, OutcomeView::Next(NodeStateView::Member));
        },
        PhaseView::Working { slot, task } => {
            let (after, outcome) = node.on_reply(task, reply);
            lemma_settled_awaits(after, slot, outcome);
        },
        PhaseView::PollingMessage => {
            if let ReplyView::Message(message) = reply {
                let (after, outcome) = node.on_message(message);
                lemma_settled_awaits(after, Slot::Message, outcome);
            }
        },
        PhaseView::PollingTimer => {
            let (after, outcome) = node.rotated();
            lemma_settled_awaits(after, Slot::Timeout, outcome);
        },
        _ => {},
    }
}

/// Once a node has left the state in which it joins, it is a master or a member for good.
pub proof fn law_joining_is_left_for_good(node: NodeView, reply: ReplyView)
    requires
        !(node.current_state is Joining),
    ensures
        !(node.started().0.current_state is Joining),
        !(node.advanced(reply).0.current_state is Joining),
{
}

/// Only messages in the node's own name are broadcast.
pub proof fn law_broadcasts_are_own(node: NodeView, reply: ReplyView)
    ensures
        node.advanced(reply).1 matches ActionView::Broadcast { message } ==> message.sender_id
            == node.params.signer_id,
{
}

/// What a node is configured with stays as it is, and so does whether it can be stopped.
pub proof fn law_configuration_is_fixed(node: NodeView, reply: ReplyView)
    ensures
        node.started().0.params == node.params,
        node.started().0.round_time_limit == node.round_time_limit,
        node.started().0.stop_signal == node.stop_signal,
        node.advanced(reply).0.params == node.params,
        node.advanced(reply).0.round_time_limit == node.round_time_limit,
        node.advanced(reply).0.stop_signal == node.stop_signal,
{
}

/// When the round timer runs out the master's role passes on, whatever the node is. The node is a
/// member then, or it opens a round if its own turn has come; either way the timer starts anew
/// before the loop goes on.
pub proof fn law_timeout_passes_the_role_on(node: NodeView, block: BlockView)
    requires
        node.phase is PollingTimer,
        node.wf(),
        block.digest() is Some,
    ensures
        ({
            let (after, action) = node.advanced(ReplyView::Done);
            let (sending, candidate) = after.advanced(ReplyView::Block(block));
            let (opened, restart) = sending.advanced(ReplyView::Done);
            &&& after.master_index == node.next_master()
            &&& node.params.self_node_index != node.next_master() ==> {
                &&& after.current_state is Member
                &&& action == ActionView::RestartTimer
                &&& after.advanced(ReplyView::Done) == after.turn_end()
            }
            &&& node.params.self_node_index == node.next_master() ==> {
                &&& action == (ActionView::GetNewBlock {
                    wait_secs: node.params.round_duration,
                    address: node.params.address,
                })
                &&& candidate == (ActionView::Broadcast {
                    message: MessageView {
                        message_type: MessageTypeView::Candidateblock(block),
                        sender_id: node.params.signer_id,
                    },
                })
                &&& opened.current_state is Master
                &&& restart == ActionView::RestartTimer
                &&& opened.advanced(ReplyView::Done) == opened.turn_end()
            }
        }),
{
    let (after, action) = node.advanced(ReplyView::Done);
    if node.params.self_node_index == node.next_master() {
        let (sending, candidate) = after.advanced(ReplyView::Block(block));
        assert(sending.phase == (PhaseView::Working {
            slot: Slot::Timeout,
            task: TaskView::SendCandidateBlock { block },
        }));
        let (opened, restart) = sending.advanced(ReplyView::Done);
        assert(opened.phase is RestartingTimer);
    }
}

/// The stop signal ends the node: it stops the round timer and does nothing more.
pub proof fn law_stop_signal_ends_the_node(node: NodeView)
    requires
        node.phase is PollingStop,
    ensures
        ({
            let (stopping, first) = node.advanced(ReplyView::Done);
            let (stopped, second) = stopping.advanced(ReplyView::Done);
            &&& first == ActionView::StopTimer
            &&& second == ActionView::Stop
            &&& stopped == (NodeView { phase: PhaseView::Stopped, ..node })
            &&& forall|reply: ReplyView| !stopped.phase.expects(reply)
        }),
{
}

/// An error of the connection ends the node: it stops the round timer and fails.
pub proof fn law_connection_error_ends_the_node(node: NodeView)
    requires
        node.phase is PollingConnection,
    ensures
        ({
            let (failing, first) = node.advanced(ReplyView::Failed);
            let (failed, second) = failing.advanced(ReplyView::Done);
            &&& first == ActionView::StopTimer
            &&& second == ActionView::Abort { failure: Failure::Connection }
            &&& failed == (NodeView {
                phase: PhaseView::Aborted { failure: Failure::Connection },
                ..node
            })
        }),
{
}

/// A node that has failed does nothing more.
pub proof fn law_failure_is_final(node: NodeView, reply: ReplyView, failure: Failure)
    requires
        node.phase.expects(reply),
        node.advanced(reply).1 == (ActionView::Abort { failure }),
    ensures
        node.advanced(reply).0.phase == (PhaseView::Aborted { failure }),
        forall|next: ReplyView| !node.advanced(reply).0.phase.expects(next),
{
}

/// As long as the initial block download goes on, the node only pauses and asks again.
pub proof fn law_node_waits_for_download(node: NodeView)
    requires
        node.phase is AskingBlockchain,
    ensures
        ({
            let downloading = ReplyView::BlockchainInfo { initialblockdownload: true };
            let downloaded = ReplyView::BlockchainInfo { initialblockdownload: false };
            let (pausing, first) = node.advanced(downloading);
            &&& first is Sleep
            &&& pausing.advanced(ReplyView::Done) == (node, ActionView::GetBlockchainInfo)
            &&& node.advanced(downloaded).1 == ActionView::StartConnection
        }),
{
}

/// A turn of the loop in which nothing happens leaves the node as it was.
pub proof fn law_quiet_turn_changes_nothing(node: NodeView)
    requires
        node.phase is Resting,
    ensures
        ({
            let begun = node.advanced(ReplyView::Done).0;
            let unstopped = if node.stop_signal {
                begun.advanced(ReplyView::Nothing).0
            } else {
                begun
            };
            let ending = unstopped.advanced(ReplyView::Nothing).0.advanced(ReplyView::Nothing).0;
            let ended = if node.error_handler {
                ending.advanced(ReplyView::Nothing).0
            } else {
                ending
            };
            ended == node
        }),
{
}

} // verus!
