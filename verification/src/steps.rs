//! What a node does, step by step: what it makes of each message and of each reply, and what it
//! asks for next. Together these cover every step that a node can take.
use vstd::prelude::*;

use crate::curve::{ecdsa_signature, ecdsa_verifies};
use crate::keys::{Signature, SignerID};
use crate::message::{BlockView, Message, MessageType, MessageTypeView, MessageView};
use crate::node::{rejection, NodeView, SignerNode, ROUND_INTERVAL_DEFAULT_SECS};
use crate::parameters::{first_place, lemma_first_place, NodeParameters};
use crate::run::{Action, ActionView, PhaseView, Slot};
use crate::work::{
    Failure, NodeState, NodeStateView, Outcome, OutcomeView, Rejection, Reply, ReplyView, Task,
    TaskView,
};

verus! {

/// A round lasts a minute unless the node is configured otherwise, and the timer of a node, however
/// long its rounds, runs five seconds longer than a round.
pub proof fn law_round_lengths(params: NodeParameters, node: SignerNode)
    requires
        call_ensures(SignerNode::new, (params,), node),
    ensures
        node.round_time_limit == params.round_duration + 5,
        params.round_duration == ROUND_INTERVAL_DEFAULT_SECS ==> node.round_time_limit == 65,
        node.params@ == params@,
        node.current_state is Joining,
        node.master_index == 0,
        !node.stop_signal && !node.error_handler,
{
}

/// A node that waits for the initial block download asks for the state of the block chain first;
/// any other node connects at once. Nothing else about the node changes.
pub proof fn law_start(node: NodeView)
    ensures
        !node.params.skip_waiting_ibd ==> node.started() == (
            NodeView { phase: PhaseView::AskingBlockchain, ..node },
            ActionView::GetBlockchainInfo,
        ),
        node.params.skip_waiting_ibd ==> node.started() == (
            NodeView { phase: PhaseView::Connecting, ..node },
            ActionView::StartConnection,
        ),
{
}

/// As long as the initial block download goes on the node pauses for ten seconds and asks again;
/// once it is over the node connects. Without an answer the node fails.
pub proof fn law_download_is_awaited(node: NodeView, reply: ReplyView)
    ensures
        node.phase is AskingBlockchain && reply == (ReplyView::BlockchainInfo {
            initialblockdownload: true,
        }) ==> node.advanced(reply) == (
            NodeView { phase: PhaseView::AwaitingDownload, ..node },
            ActionView::Sleep { millis: 10_000 },
        ),
        node.phase is AskingBlockchain && reply == (ReplyView::BlockchainInfo {
            initialblockdownload: false,
        }) ==> node.advanced(reply) == (
            NodeView { phase: PhaseView::Connecting, ..node },
            ActionView::StartConnection,
        ),
        node.phase is AskingBlockchain && reply is Failed ==> node.advanced(reply) == (
            NodeView { phase: PhaseView::Aborted { failure: Failure::BlockchainInfo }, ..node },
            ActionView::Abort { failure: Failure::BlockchainInfo },
        ),
        node.phase is AwaitingDownload ==> node.advanced(reply) == (
            NodeView { phase: PhaseView::AskingBlockchain, ..node },
            ActionView::GetBlockchainInfo,
        ),
{
}

/// A node that is connected opens a round if it was made the first master, and becomes a member if
/// not, whether it has waited for the initial block download or not.
pub proof fn law_first_master_opens_a_round(node: NodeView)
    requires
        node.phase is Connecting,
    ensures
        node.params.master_flag ==> node.advanced(ReplyView::Done) == (
            NodeView {
                phase: PhaseView::Working {
                    slot: Slot::Start,
                    task: TaskView::GetNewBlock {
                        wait_secs: node.params.round_duration,
                        address: node.params.address,
                    },
                },
                ..node
            },
            ActionView::GetNewBlock {
                wait_secs: node.params.round_duration,
                address: node.params.address,
            },
        ),
        !node.params.master_flag ==> node.advanced(ReplyView::Done) == (
            NodeView {
                current_state: NodeStateView::Member,
                phase: PhaseView::StartingTimer,
                ..node
            },
            ActionView::StartTimer { limit_secs: node.round_time_limit },
        ),
{
}

/// When the timer runs the node takes the handler for errors of the connection; a timer that does
/// not start is a failure.
pub proof fn law_timer_is_started(node: NodeView)
    requires
        node.phase is StartingTimer,
    ensures
        node.advanced(ReplyView::Done) == (
            NodeView { phase: PhaseView::TakingErrorHandler, ..node },
            ActionView::TakeErrorHandler,
        ),
        node.advanced(ReplyView::Failed) == (
            NodeView { phase: PhaseView::Aborted { failure: Failure::TimerStart }, ..node },
            ActionView::Abort { failure: Failure::TimerStart },
        ),
{
}

/// The node remembers whether the connection hands out its errors, and begins its first turn: it
/// looks for the stop signal if it was told to, and for a message if not.
pub proof fn law_error_handler_is_taken(node: NodeView, reply: ReplyView)
    requires
        node.phase is TakingErrorHandler,
        reply is Done || reply is Nothing,
    ensures
        node.stop_signal ==> node.advanced(reply) == (
            NodeView { error_handler: reply is Done, phase: PhaseView::PollingStop, ..node },
            ActionView::PollStop,
        ),
        !node.stop_signal ==> node.advanced(reply) == (
            NodeView { error_handler: reply is Done, phase: PhaseView::PollingMessage, ..node },
            ActionView::PollMessage,
        ),
{
}

/// Each turn of the loop begins, after the pause, with the stop signal if the node was told to look
/// for it, and with a message if not.
pub proof fn law_turn_begins(node: NodeView, reply: ReplyView)
    requires
        node.phase is Resting,
    ensures
        node.stop_signal ==> node.advanced(reply) == (
            NodeView { phase: PhaseView::PollingStop, ..node },
            ActionView::PollStop,
        ),
        !node.stop_signal ==> node.advanced(reply) == (
            NodeView { phase: PhaseView::PollingMessage, ..node },
            ActionView::PollMessage,
        ),
{
}

/// The stop signal makes the node stop its timer; without it the node looks for a message; a signal
/// that cannot come any more is a failure.
pub proof fn law_stop_signal_is_polled(node: NodeView)
    requires
        node.phase is PollingStop,
    ensures
        node.advanced(ReplyView::Done) == (
            NodeView { phase: PhaseView::Stopping, ..node },
            ActionView::StopTimer,
        ),
        node.advanced(ReplyView::Nothing) == (
            NodeView { phase: PhaseView::PollingMessage, ..node },
            ActionView::PollMessage,
        ),
        node.advanced(ReplyView::Failed) == (
            NodeView { phase: PhaseView::Aborted { failure: Failure::StopSignalLost }, ..node },
            ActionView::Abort { failure: Failure::StopSignalLost },
        ),
{
}

/// Where there is no message the node looks at the round timer.
pub proof fn law_no_message_changes_nothing(node: NodeView)
    requires
        node.phase is PollingMessage,
    ensures
        node.advanced(ReplyView::Nothing) == (
            NodeView { phase: PhaseView::PollingTimer, ..node },
            ActionView::PollTimer,
        ),
{
}

/// A turn ends when the round timer has not run out, or has been started anew: the node looks for
/// errors of the connection where it hands them out, and pauses for 300 milliseconds where not.
pub proof fn law_turn_ends(node: NodeView, reply: ReplyView)
    requires
        (node.phase is PollingTimer && reply is Nothing) || (node.phase is RestartingTimer
            && reply is Done),
    ensures
        node.error_handler ==> node.advanced(reply) == (
            NodeView { phase: PhaseView::PollingConnection, ..node },
            ActionView::PollConnection,
        ),
        !node.error_handler ==> node.advanced(reply) == (
            NodeView { phase: PhaseView::Resting, ..node },
            ActionView::Sleep { millis: 300 },
        ),
{
}

/// A timer that does not start anew after it ran out is a failure.
pub proof fn law_restart_failure_ends_the_node(node: NodeView)
    requires
        node.phase is RestartingTimer,
    ensures
        node.advanced(ReplyView::Failed) == (
            NodeView { phase: PhaseView::Aborted { failure: Failure::TimerRestart }, ..node },
            ActionView::Abort { failure: Failure::TimerRestart },
        ),
{
}

/// An error of the connection makes the node stop its timer in order to fail; without one the node
/// pauses for 300 milliseconds.
pub proof fn law_connection_is_polled(node: NodeView)
    requires
        node.phase is PollingConnection,
    ensures
        node.advanced(ReplyView::Failed) == (
            NodeView { phase: PhaseView::Failing { failure: Failure::Connection }, ..node },
            ActionView::StopTimer,
        ),
        node.advanced(ReplyView::Nothing) == (
            NodeView { phase: PhaseView::Resting, ..node },
            ActionView::Sleep { millis: 300 },
        ),
{
}

/// Once the timer has stopped the node is at its end: it has stopped, or it has failed with what
/// it stopped the timer for.
pub proof fn law_end_comes_after_the_timer(node: NodeView, reply: ReplyView, failure: Failure)
    ensures
        node.phase is Stopping ==> node.advanced(reply) == (
            NodeView { phase: PhaseView::Stopped, ..node },
            ActionView::Stop,
        ),
        node.phase == (PhaseView::Failing { failure }) ==> node.advanced(reply) == (
            NodeView { phase: PhaseView::Aborted { failure }, ..node },
            ActionView::Abort { failure },
        ),
{
}

/// The replies that a node can get in each phase of its life.
pub proof fn law_expected_replies(phase: PhaseView, reply: ReplyView)
    ensures
        phase is AskingBlockchain ==> (phase.expects(reply) <==> reply is BlockchainInfo || reply
            is Failed),
        phase is AwaitingDownload || phase is Connecting || phase is Resting || phase is Stopping
            || phase is Failing ==> (phase.expects(reply) <==> reply is Done),
        phase is StartingTimer || phase is RestartingTimer ==> (phase.expects(reply) <==> reply
            is Done || reply is Failed),
        phase is TakingErrorHandler || phase is PollingTimer ==> (phase.expects(reply) <==> reply
            is Done || reply is Nothing),
        phase is PollingStop ==> (phase.expects(reply) <==> reply is Done || reply is Nothing
            || reply is Failed),
        phase is PollingMessage ==> (phase.expects(reply) <==> reply is Message || reply
            is Nothing),
        phase is PollingConnection ==> (phase.expects(reply) <==> reply is Failed || reply
            is Nothing),
        phase is Created || phase is Stopped || phase is Aborted ==> !phase.expects(reply),
{
}

/// The replies that a node can get to each task. It gets them in whatever phase of its life the
/// task came up.
pub proof fn law_expected_answers(slot: Slot, task: TaskView, reply: ReplyView)
    ensures
        (PhaseView::Working { slot, task }).expects(reply) <==> task.answered_by(reply),
        task is SendSignature || task is SendCompletedBlock || task is SendCandidateBlock ==> (
        task.answered_by(reply) <==> reply is Done),
        task is TestProposedBlock || task is RestartTimer || task is SubmitBlock ==> (
        task.answered_by(reply) <==> reply is Done || reply is Failed),
        task is CombineBlockSigs || task is GetNewBlock ==> (task.answered_by(reply) <==> reply
            is Block || reply is Failed),
{
}

/// The action for a task says all that the task does, and what is broadcast is broadcast in the
/// node's own name.
pub proof fn law_action_for_a_task(node: NodeView, task: TaskView)
    ensures
        task matches TaskView::TestProposedBlock { block, .. } ==> node.action_for(task) == (
        ActionView::TestProposedBlock { block }),
        task matches TaskView::SendSignature { signature } ==> node.action_for(task) == (
        ActionView::Broadcast {
            message: MessageView {
                message_type: MessageTypeView::Signature(signature),
                sender_id: node.params.signer_id,
            },
        }),
        task is RestartTimer ==> node.action_for(task) is RestartTimer,
        task matches TaskView::CombineBlockSigs { block, signatures } ==> node.action_for(task) == (
        ActionView::CombineBlockSigs { block, signatures }),
        task matches TaskView::SubmitBlock { block } ==> node.action_for(task) == (
        ActionView::SubmitBlock { block }),
        task matches TaskView::SendCompletedBlock { block } ==> node.action_for(task) == (
        ActionView::Broadcast {
            message: MessageView {
                message_type: MessageTypeView::Completedblock(block),
                sender_id: node.params.signer_id,
            },
        }),
        task matches TaskView::GetNewBlock { wait_secs, address } ==> node.action_for(task) == (
        ActionView::GetNewBlock { wait_secs, address }),
        task matches TaskView::SendCandidateBlock { block } ==> node.action_for(task) == (
        ActionView::Broadcast {
            message: MessageView {
                message_type: MessageTypeView::Candidateblock(block),
                sender_id: node.params.signer_id,
            },
        }),
{
}

/// A candidate is tested where it reaches a member. It changes nothing anywhere else.
pub proof fn law_candidate_is_tested(node: NodeView, sender_id: SignerID, block: BlockView)
    ensures
        ({
            let message = MessageView {
                message_type: MessageTypeView::Candidateblock(block),
                sender_id,
            };
            let task = TaskView::TestProposedBlock { sender_id, block };
            &&& node.current_state is Member ==> {
                &&& node.on_candidateblock(sender_id, block) == OutcomeView::Pending(task)
                &&& node.on_message(message) == (node, OutcomeView::Pending(task))
                &&& node.phase is PollingMessage ==> node.advanced(ReplyView::Message(message)) == (
                    NodeView { phase: PhaseView::Working { slot: Slot::Message, task }, ..node },
                    ActionView::TestProposedBlock { block },
                )
            }
            &&& !(node.current_state is Member) ==> {
                &&& node.on_candidateblock(sender_id, block) == OutcomeView::Next(
                    node.current_state,
                )
                &&& node.on_message(message) == (node, OutcomeView::Next(node.current_state))
                &&& node.phase is PollingMessage ==> node.advanced(ReplyView::Message(message)) == (
                    NodeView { phase: PhaseView::PollingTimer, ..node },
                    ActionView::PollTimer,
                )
            }
        }),
{
}

/// Why a signature on a block is not taken: its signer has signed already; or else the block has no
/// digest, or one that is all zeros; or else the signature does not verify under the signer's key.
/// In every other case it is taken.
pub proof fn law_rejections(
    signatures: Seq<(SignerID, Signature)>,
    block: BlockView,
    signature: Signature,
    sender_id: SignerID,
)
    ensures
        ({
            let signed = exists|i: int|
                0 <= i < signatures.len() && (#[trigger] signatures[i]).0 == sender_id;
            let signable = block.hash matches Some(digest) && exists|i: int|
                0 <= i < 32 && #[trigger] digest@[i] != 0;
            let verifies = block.hash matches Some(digest) && ecdsa_verifies(
                digest,
                signature.compact,
                sender_id.pubkey.x,
                sender_id.pubkey.y,
            );
            let reason = rejection(signatures, block, signature, sender_id);
            &&& reason == Some(Rejection::DuplicatedMessage) <==> signed
            &&& reason == Some(Rejection::UnsignableBlock) <==> !signed && !signable
            &&& reason == Some(Rejection::InvalidSignature) <==> !signed && signable && !verifies
            &&& reason is None <==> !signed && signable && verifies
        }),
{
}

/// A running master keeps each signature that verifies on its candidate and whose signer has not
/// signed yet: as long as there are fewer than the threshold it goes on collecting with all that
/// it had and this one, and nothing else about it changes. The count is kept in eight bits, which
/// [`crate::laws::law_count_is_exact`] shows to be enough for it.
pub proof fn law_signature_is_collected(
    node: NodeView,
    signatures: Seq<(SignerID, Signature)>,
    candidate_block: BlockView,
    digest: [u8; 32],
    sender_id: SignerID,
    signature: Signature,
)
    requires
        node.current_state == (NodeStateView::Master { signatures, candidate_block }),
        candidate_block.hash == Some(digest),
        exists|i: int| 0 <= i < 32 && #[trigger] digest@[i] != 0,
        ecdsa_verifies(digest, signature.compact, sender_id.pubkey.x, sender_id.pubkey.y),
        forall|i: int| 0 <= i < signatures.len() ==> (#[trigger] signatures[i]).0 != sender_id,
        (signatures.len() + 1) % 256 < node.params.threshold,
    ensures
        ({
            let message = MessageView {
                message_type: MessageTypeView::Signature(signature),
                sender_id,
            };
            let state = NodeStateView::Master {
                signatures: signatures.push((sender_id, signature)),
                candidate_block,
            };
            &&& node.on_signature(sender_id, signature) == OutcomeView::Next(state)
            &&& node.on_message(message) == (node, OutcomeView::Next(state))
            &&& node.phase is PollingMessage ==> node.advanced(ReplyView::Message(message)) == (
                NodeView { current_state: state, phase: PhaseView::PollingTimer, ..node },
                ActionView::PollTimer,
            )
        }),
{
}

/// Two members that sign in turns of the loop that follow one another are both among the
/// signatures, behind those that the master had: nothing is lost between the turns.
pub proof fn law_signatures_add_up(
    node: NodeView,
    signatures: Seq<(SignerID, Signature)>,
    candidate_block: BlockView,
    digest: [u8; 32],
    first: (SignerID, Signature),
    second: (SignerID, Signature),
)
    requires
        node.phase is PollingMessage,
        node.current_state == (NodeStateView::Master { signatures, candidate_block }),
        candidate_block.hash == Some(digest),
        exists|i: int| 0 <= i < 32 && #[trigger] digest@[i] != 0,
        ecdsa_verifies(digest, first.1.compact, first.0.pubkey.x, first.0.pubkey.y),
        ecdsa_verifies(digest, second.1.compact, second.0.pubkey.x, second.0.pubkey.y),
        forall|i: int|
            0 <= i < signatures.len() ==> (#[trigger] signatures[i]).0 != first.0
                && signatures[i].0 != second.0,
        first.0 != second.0,
        signatures.len() + 2 < node.params.threshold,
    ensures
        ({
            let one = node.advanced(
                ReplyView::Message(
                    MessageView {
                        message_type: MessageTypeView::Signature(first.1),
                        sender_id: first.0,
                    },
                ),
            ).0;
            let ending = one.advanced(ReplyView::Nothing).0;
            let resting = if node.error_handler {
                ending.advanced(ReplyView::Nothing).0
            } else {
                ending
            };
            let begun = resting.advanced(ReplyView::Done).0;
            let polling = if node.stop_signal {
                begun.advanced(ReplyView::Nothing).0
            } else {
                begun
            };
            let two = polling.advanced(
                ReplyView::Message(
                    MessageView {
                        message_type: MessageTypeView::Signature(second.1),
                        sender_id: second.0,
                    },
                ),
            ).0;
            two == (NodeView {
                current_state: NodeStateView::Master {
                    signatures: signatures + seq![first, second],
                    candidate_block,
                },
                phase: PhaseView::PollingTimer,
                ..node
            })
        }),
{
    law_signature_is_collected(node, signatures, candidate_block, digest, first.0, first.1);
    let one = NodeView {
        current_state: NodeStateView::Master {
            signatures: signatures.push(first),
            candidate_block,
        },
        phase: PhaseView::PollingMessage,
        ..node
    };
    law_signature_is_collected(
        one,
        signatures.push(first),
        candidate_block,
        digest,
        second.0,
        second.1,
    );
    assert(signatures.push(first).push(second) =~= signatures + seq![first, second]);
}

/// The signature with which a running master has as many as the threshold makes it ask for its
/// candidate completed with the signature of every signer that it has collected, in their order,
/// the new one last. It stays what it was until the block is completed.
pub proof fn law_threshold_completes_the_block(
    node: NodeView,
    signatures: Seq<(SignerID, Signature)>,
    candidate_block: BlockView,
    digest: [u8; 32],
    sender_id: SignerID,
    signature: Signature,
    collected: Seq<Signature>,
)
    requires
        node.current_state == (NodeStateView::Master { signatures, candidate_block }),
        candidate_block.hash == Some(digest),
        exists|i: int| 0 <= i < 32 && #[trigger] digest@[i] != 0,
        ecdsa_verifies(digest, signature.compact, sender_id.pubkey.x, sender_id.pubkey.y),
        forall|i: int| 0 <= i < signatures.len() ==> (#[trigger] signatures[i]).0 != sender_id,
        (signatures.len() + 1) % 256 >= node.params.threshold,
        collected.len() == signatures.len() + 1,
        forall|i: int| 0 <= i < signatures.len() ==> #[trigger] collected[i] == signatures[i].1,
        collected[signatures.len() as int] == signature,
    ensures
        ({
            let message = MessageView {
                message_type: MessageTypeView::Signature(signature),
                sender_id,
            };
            let task = TaskView::CombineBlockSigs {
                block: candidate_block,
                signatures: collected,
            };
            &&& node.on_signature(sender_id, signature) == OutcomeView::Pending(task)
            &&& node.on_message(message) == (node, OutcomeView::Pending(task))
            &&& node.phase is PollingMessage ==> node.advanced(ReplyView::Message(message)) == (
                NodeView { phase: PhaseView::Working { slot: Slot::Message, task }, ..node },
                ActionView::CombineBlockSigs { block: candidate_block, signatures: collected },
            )
        }),
{
    let entries = signatures.push((sender_id, signature));
    assert(collected =~= crate::signature_map::signatures_of(entries));
}

/// A signature changes nothing where it reaches a node that is not a master, and where its signer
/// has signed already or it does not verify on the candidate. A candidate that has no digest to
/// sign is a failure as soon as a signer that has not signed yet signs.
pub proof fn law_signature_is_not_taken(node: NodeView, sender_id: SignerID, signature: Signature)
    ensures
        ({
            let message = MessageView {
                message_type: MessageTypeView::Signature(signature),
                sender_id,
            };
            let reason = match node.current_state {
                NodeStateView::Master { signatures, candidate_block } => Some(
                    rejection(signatures, candidate_block, signature, sender_id),
                ),
                _ => None,
            };
            &&& reason is None || reason == Some(Some(Rejection::DuplicatedMessage)) || reason
                == Some(Some(Rejection::InvalidSignature)) ==> {
                &&& node.on_signature(sender_id, signature) == OutcomeView::Next(
                    node.current_state,
                )
                &&& node.on_message(message) == (node, OutcomeView::Next(node.current_state))
                &&& node.phase is PollingMessage ==> node.advanced(ReplyView::Message(message)) == (
                    NodeView { phase: PhaseView::PollingTimer, ..node },
                    ActionView::PollTimer,
                )
            }
            &&& reason == Some(Some(Rejection::UnsignableBlock)) ==> {
                let failure = Failure::UnsignableBlock;
                &&& node.on_signature(sender_id, signature) == OutcomeView::Abort(failure)
                &&& node.on_message(message) == (node, OutcomeView::Abort(failure))
                &&& node.phase is PollingMessage ==> node.advanced(ReplyView::Message(message)) == (
                    NodeView { phase: PhaseView::Aborted { failure }, ..node },
                    ActionView::Abort { failure },
                )
            }
        }),
{
}

/// The failure of a round changes nothing.
pub proof fn law_roundfailure_changes_nothing(node: NodeView, sender_id: SignerID)
    ensures
        ({
            let message = MessageView { message_type: MessageTypeView::Roundfailure, sender_id };
            &&& node.on_message(message) == (node, OutcomeView::Next(node.current_state))
            &&& node.phase is PollingMessage ==> node.advanced(ReplyView::Message(message)) == (
                NodeView { phase: PhaseView::PollingTimer, ..node },
                ActionView::PollTimer,
            )
        }),
{
}

/// A signer stands at the first place that holds its key, and at none if no place does.
pub proof fn law_place_of_a_signer(node: NodeView, id: SignerID, index: int)
    ensures
        node.index_of(id) == Some(index) <==> 0 <= index < node.params.pubkey_list.len()
            && node.params.pubkey_list[index] == id.pubkey && forall|j: int|
            0 <= j < index ==> node.params.pubkey_list[j] != id.pubkey,
        node.index_of(id) is None <==> !node.params.pubkey_list.contains(id.pubkey),
{
    lemma_first_place(node.params.pubkey_list, id.pubkey);
    if node.index_of(id) is Some {
        assert(node.params.pubkey_list.contains(
            node.params.pubkey_list[first_place(node.params.pubkey_list, id.pubkey)->0],
        ));
    }
}

proof fn lemma_next_master(node: NodeView)
    requires
        node.wf(),
    ensures
        node.next_master() == (if node.master_index + 1 == node.params.pubkey_list.len() {
            0
        } else {
            node.master_index + 1
        }),
{
    let len = node.params.pubkey_list.len();
    if node.master_index + 1 == len {
        vstd::arithmetic::div_mod::lemma_mod_self_0(len as int);
    } else {
        vstd::arithmetic::div_mod::lemma_small_mod((node.master_index + 1) as nat, len);
    }
}

/// The master's role passes to the signer at the next place, and from the last place to the first.
/// The node opens a round if this place is its own, and is a member if not. Nothing else about it
/// changes.
pub proof fn law_role_passes_on(node: NodeView, next: int)
    requires
        0 <= node.master_index < node.params.pubkey_list.len(),
        next == (if node.master_index + 1 == node.params.pubkey_list.len() {
            0
        } else {
            node.master_index + 1
        }),
    ensures
        node.params.self_node_index == next ==> node.rotated() == (
            NodeView { master_index: next, ..node },
            OutcomeView::Pending(
                TaskView::GetNewBlock {
                    wait_secs: node.params.round_duration,
                    address: node.params.address,
                },
            ),
        ),
        node.params.self_node_index != next ==> node.rotated() == (
            NodeView { master_index: next, ..node },
            OutcomeView::Next(NodeStateView::Member),
        ),
        node.new_round() == OutcomeView::Pending(
            TaskView::GetNewBlock {
                wait_secs: node.params.round_duration,
                address: node.params.address,
            },
        ),
{
    lemma_next_master(node);
}

/// The block that the master of the round has completed ends the round at every node, whatever the
/// node is: the master's role passes on. One of any other signer of the federation changes nothing,
/// and one of a stranger is a failure.
pub proof fn law_completed_block_ends_the_round(
    node: NodeView,
    sender_id: SignerID,
    block: BlockView,
)
    requires
        0 <= node.master_index < node.params.pubkey_list.len(),
    ensures
        ({
            let keys = node.params.pubkey_list;
            let leads = keys[node.master_index] == sender_id.pubkey && forall|j: int|
                0 <= j < node.master_index ==> keys[j] != sender_id.pubkey;
            let message = MessageView {
                message_type: MessageTypeView::Completedblock(block),
                sender_id,
            };
            let after = node.advanced(ReplyView::Message(message)).0;
            &&& leads ==> {
                &&& node.on_completedblock(sender_id) == node.rotated()
                &&& node.on_message(message) == node.rotated()
                &&& node.phase is PollingMessage ==> after.master_index == (node.master_index + 1)
                    % keys.len() as int
            }
            &&& !leads && keys.contains(sender_id.pubkey) ==> {
                &&& node.on_completedblock(sender_id) == (
                    node,
                    OutcomeView::Next(node.current_state),
                )
                &&& node.on_message(message) == (node, OutcomeView::Next(node.current_state))
                &&& node.phase is PollingMessage ==> node.advanced(ReplyView::Message(message)) == (
                    NodeView { phase: PhaseView::PollingTimer, ..node },
                    ActionView::PollTimer,
                )
            }
            &&& !keys.contains(sender_id.pubkey) ==> {
                let failure = Failure::UnknownSender;
                &&& node.on_completedblock(sender_id) == (node, OutcomeView::Abort(failure))
                &&& node.on_message(message) == (node, OutcomeView::Abort(failure))
                &&& node.phase is PollingMessage ==> node.advanced(ReplyView::Message(message)) == (
                    NodeView { phase: PhaseView::Aborted { failure }, ..node },
                    ActionView::Abort { failure },
                )
            }
        }),
{
    law_place_of_a_signer(node, sender_id, node.master_index);
    lemma_first_place(node.params.pubkey_list, sender_id.pubkey);
}

/// Three things end a round at a running node: its timer runs out, the master's completed block
/// arrives, or the node has broadcast the block that it completed itself. Each time the master's
/// role passes to the next place. The node whose place it is waits for the length of a round and
/// asks for a new block that pays to its address; every other node is a member and goes on: with
/// the start of the timer, with a look at it, or with its restart.
pub proof fn law_end_of_a_round(node: NodeView, slot: Slot, reply: ReplyView, next: int)
    requires
        0 <= node.master_index < node.params.pubkey_list.len(),
        next == (if node.master_index + 1 == node.params.pubkey_list.len() {
            0
        } else {
            node.master_index + 1
        }),
        ({
            let keys = node.params.pubkey_list;
            ||| slot is Timeout && node.phase is PollingTimer && reply is Done
            ||| slot is Message && node.phase is PollingMessage && (reply matches
                ReplyView::Message(message) && message.message_type is Completedblock
                && keys[node.master_index] == message.sender_id.pubkey && forall|j: int|
                0 <= j < node.master_index ==> keys[j] != message.sender_id.pubkey)
            ||| (node.phase matches PhaseView::Working { slot: working, task } && working == slot
                && task is SendCompletedBlock)
        }),
    ensures
        node.params.self_node_index == next ==> node.advanced(reply) == (
            NodeView {
                master_index: next,
                phase: PhaseView::Working {
                    slot,
                    task: TaskView::GetNewBlock {
                        wait_secs: node.params.round_duration,
                        address: node.params.address,
                    },
                },
                ..node
            },
            ActionView::GetNewBlock {
                wait_secs: node.params.round_duration,
                address: node.params.address,
            },
        ),
        node.params.self_node_index != next && slot is Start ==> node.advanced(reply) == (
            NodeView {
                current_state: NodeStateView::Member,
                master_index: next,
                phase: PhaseView::StartingTimer,
                ..node
            },
            ActionView::StartTimer { limit_secs: node.round_time_limit },
        ),
        node.params.self_node_index != next && slot is Message ==> node.advanced(reply) == (
            NodeView {
                current_state: NodeStateView::Member,
                master_index: next,
                phase: PhaseView::PollingTimer,
                ..node
            },
            ActionView::PollTimer,
        ),
        node.params.self_node_index != next && slot is Timeout ==> node.advanced(reply) == (
            NodeView {
                current_state: NodeStateView::Member,
                master_index: next,
                phase: PhaseView::RestartingTimer,
                ..node
            },
            ActionView::RestartTimer,
        ),
{
    lemma_next_master(node);
    if let ReplyView::Message(message) = reply {
        if node.phase is PollingMessage {
            law_place_of_a_signer(node, message.sender_id, node.master_index);
        }
    }
}

/// The master of a round broadcasts the new block as its candidate, in its own name; without a
/// block it fails.
pub proof fn law_new_block_is_proposed(
    node: NodeView,
    slot: Slot,
    wait_secs: u64,
    address: Seq<char>,
    block: BlockView,
)
    requires
        node.phase == (PhaseView::Working {
            slot,
            task: TaskView::GetNewBlock { wait_secs, address },
        }),
    ensures
        node.on_reply(
            TaskView::GetNewBlock { wait_secs, address },
            ReplyView::Block(block),
        ) == (node, OutcomeView::Pending(TaskView::SendCandidateBlock { block })),
        node.on_reply(TaskView::GetNewBlock { wait_secs, address }, ReplyView::Failed) == (
            node,
            OutcomeView::Abort(Failure::NewBlock),
        ),
        node.advanced(ReplyView::Block(block)) == (
            NodeView {
                phase: PhaseView::Working { slot, task: TaskView::SendCandidateBlock { block } },
                ..node
            },
            ActionView::Broadcast {
                message: MessageView {
                    message_type: MessageTypeView::Candidateblock(block),
                    sender_id: node.params.signer_id,
                },
            },
        ),
        node.advanced(ReplyView::Failed) == (
            NodeView { phase: PhaseView::Aborted { failure: Failure::NewBlock }, ..node },
            ActionView::Abort { failure: Failure::NewBlock },
        ),
{
}

/// Once its candidate is broadcast the node is the master of the round, with its own signature on
/// the candidate's digest and no other, and goes on: with the start of the timer, with a look at
/// it, or with its restart. A candidate without a digest to sign is a failure.
pub proof fn law_proposer_becomes_the_master(
    node: NodeView,
    slot: Slot,
    block: BlockView,
    reply: ReplyView,
)
    requires
        node.phase == (PhaseView::Working { slot, task: TaskView::SendCandidateBlock { block } }),
    ensures
        ({
            let signable = block.hash matches Some(digest) && exists|i: int|
                0 <= i < 32 && #[trigger] digest@[i] != 0;
            let own = Signature {
                compact: ecdsa_signature(node.params.private_key.secret(), block.hash->0),
            };
            let state = NodeStateView::Master {
                signatures: seq![(node.params.signer_id, own)],
                candidate_block: block,
            };
            let task = TaskView::SendCandidateBlock { block };
            let failure = Failure::UnsignableBlock;
            &&& signable ==> node.on_reply(task, reply) == (node, OutcomeView::Next(state))
            &&& !signable ==> node.on_reply(task, reply) == (node, OutcomeView::Abort(failure))
            &&& !signable ==> node.advanced(reply) == (
                NodeView { phase: PhaseView::Aborted { failure }, ..node },
                ActionView::Abort { failure },
            )
            &&& signable && slot is Start ==> node.advanced(reply) == (
                NodeView {
                    current_state: state,
                    phase: PhaseView::StartingTimer,
                    ..node
                },
                ActionView::StartTimer { limit_secs: node.round_time_limit },
            )
            &&& signable && slot is Message ==> node.advanced(reply) == (
                NodeView {
                    current_state: state,
                    phase: PhaseView::PollingTimer,
                    ..node
                },
                ActionView::PollTimer,
            )
            &&& signable && slot is Timeout ==> node.advanced(reply) == (
                NodeView {
                    current_state: state,
                    phase: PhaseView::RestartingTimer,
                    ..node
                },
                ActionView::RestartTimer,
            )
        }),
{
}

/// A member that gets a valid candidate takes its proposer for the master of the round, and
/// broadcasts its own signature on the candidate's digest, in its own name. A proposer that is not
/// in the federation is a failure, and so is a candidate without a digest to sign.
pub proof fn law_valid_candidate_is_signed(
    node: NodeView,
    slot: Slot,
    sender_id: SignerID,
    block: BlockView,
    index: int,
)
    requires
        node.phase == (PhaseView::Working {
            slot,
            task: TaskView::TestProposedBlock { sender_id, block },
        }),
    ensures
        ({
            let keys = node.params.pubkey_list;
            let known = 0 <= index < keys.len() && keys[index] == sender_id.pubkey && forall|j: int|
                0 <= j < index ==> keys[j] != sender_id.pubkey;
            let signable = block.hash matches Some(digest) && exists|i: int|
                0 <= i < 32 && #[trigger] digest@[i] != 0;
            let signature = Signature {
                compact: ecdsa_signature(node.params.private_key.secret(), block.hash->0),
            };
            let task = TaskView::TestProposedBlock { sender_id, block };
            let led = NodeView { master_index: index, ..node };
            &&& known && signable ==> {
                &&& node.on_reply(task, ReplyView::Done) == (
                    led,
                    OutcomeView::Pending(TaskView::SendSignature { signature }),
                )
                &&& node.advanced(ReplyView::Done) == (
                    NodeView {
                        phase: PhaseView::Working {
                            slot,
                            task: TaskView::SendSignature { signature },
                        },
                        ..led
                    },
                    ActionView::Broadcast {
                        message: MessageView {
                            message_type: MessageTypeView::Signature(signature),
                            sender_id: node.params.signer_id,
                        },
                    },
                )
            }
            &&& known && !signable ==> {
                let failure = Failure::UnsignableBlock;
                &&& node.on_reply(task, ReplyView::Done) == (led, OutcomeView::Abort(failure))
                &&& node.advanced(ReplyView::Done) == (
                    NodeView { phase: PhaseView::Aborted { failure }, ..led },
                    ActionView::Abort { failure },
                )
            }
            &&& !keys.contains(sender_id.pubkey) ==> {
                let failure = Failure::UnknownSender;
                &&& node.on_reply(task, ReplyView::Done) == (node, OutcomeView::Abort(failure))
                &&& node.advanced(ReplyView::Done) == (
                    NodeView { phase: PhaseView::Aborted { failure }, ..node },
                    ActionView::Abort { failure },
                )
            }
        }),
{
    law_place_of_a_signer(node, sender_id, index);
}

/// A candidate that is not valid changes nothing: the node goes on as it was.
pub proof fn law_invalid_candidate_changes_nothing(
    node: NodeView,
    slot: Slot,
    sender_id: SignerID,
    block: BlockView,
    reply: ReplyView,
)
    requires
        node.phase == (PhaseView::Working {
            slot,
            task: TaskView::TestProposedBlock { sender_id, block },
        }),
        reply is Failed,
    ensures
        node.on_reply(TaskView::TestProposedBlock { sender_id, block }, reply) == (
            node,
            OutcomeView::Next(node.current_state),
        ),
        slot is Start ==> node.advanced(reply) == (
            NodeView { phase: PhaseView::StartingTimer, ..node },
            ActionView::StartTimer { limit_secs: node.round_time_limit },
        ),
        slot is Message ==> node.advanced(reply) == (
            NodeView { phase: PhaseView::PollingTimer, ..node },
            ActionView::PollTimer,
        ),
        slot is Timeout ==> node.advanced(reply) == (
            NodeView { phase: PhaseView::RestartingTimer, ..node },
            ActionView::RestartTimer,
        ),
{
}

/// Once a member has broadcast its signature it starts the timer anew; it goes on as it was if the
/// timer runs, and fails if not.
pub proof fn law_timer_starts_anew_after_signing(
    node: NodeView,
    slot: Slot,
    signature: Signature,
    reply: ReplyView,
)
    ensures
        ({
            let task = TaskView::SendSignature { signature };
            &&& node.on_reply(task, reply) == (node, OutcomeView::Pending(TaskView::RestartTimer))
            &&& node.phase == (PhaseView::Working { slot, task }) ==> node.advanced(reply) == (
                NodeView {
                    phase: PhaseView::Working { slot, task: TaskView::RestartTimer },
                    ..node
                },
                ActionView::RestartTimer,
            )
        }),
        reply is Done ==> node.on_reply(TaskView::RestartTimer, reply) == (
            node,
            OutcomeView::Next(node.current_state),
        ),
        reply is Failed ==> node.on_reply(TaskView::RestartTimer, reply) == (
            node,
            OutcomeView::Abort(Failure::TimerRestart),
        ),
        node.phase == (PhaseView::Working { slot, task: TaskView::RestartTimer }) && reply is Failed
            ==> node.advanced(reply) == (
            NodeView { phase: PhaseView::Aborted { failure: Failure::TimerRestart }, ..node },
            ActionView::Abort { failure: Failure::TimerRestart },
        ),
        node.phase == (PhaseView::Working { slot, task: TaskView::RestartTimer }) && reply is Done
            && slot is Start ==> node.advanced(reply) == (
            NodeView { phase: PhaseView::StartingTimer, ..node },
            ActionView::StartTimer { limit_secs: node.round_time_limit },
        ),
        node.phase == (PhaseView::Working { slot, task: TaskView::RestartTimer }) && reply is Done
            && slot is Message ==> node.advanced(reply) == (
            NodeView { phase: PhaseView::PollingTimer, ..node },
            ActionView::PollTimer,
        ),
        node.phase == (PhaseView::Working { slot, task: TaskView::RestartTimer }) && reply is Done
            && slot is Timeout ==> node.advanced(reply) == (
            NodeView { phase: PhaseView::RestartingTimer, ..node },
            ActionView::RestartTimer,
        ),
{
}

/// The master submits the very block that came back completed, and broadcasts the very block that
/// it submitted, in its own name. It fails if either goes wrong.
pub proof fn law_completed_block_is_submitted_and_broadcast(
    node: NodeView,
    slot: Slot,
    candidate: BlockView,
    signatures: Seq<Signature>,
    block: BlockView,
)
    ensures
        ({
            let task = TaskView::CombineBlockSigs { block: candidate, signatures };
            let failure = Failure::CombineBlockSigs;
            &&& node.on_reply(task, ReplyView::Block(block)) == (
                node,
                OutcomeView::Pending(TaskView::SubmitBlock { block }),
            )
            &&& node.on_reply(task, ReplyView::Failed) == (node, OutcomeView::Abort(failure))
            &&& node.phase == (PhaseView::Working { slot, task }) ==> {
                &&& node.advanced(ReplyView::Block(block)) == (
                    NodeView {
                        phase: PhaseView::Working { slot, task: TaskView::SubmitBlock { block } },
                        ..node
                    },
                    ActionView::SubmitBlock { block },
                )
                &&& node.advanced(ReplyView::Failed) == (
                    NodeView { phase: PhaseView::Aborted { failure }, ..node },
                    ActionView::Abort { failure },
                )
            }
        }),
        ({
            let task = TaskView::SubmitBlock { block };
            let failure = Failure::SubmitBlock;
            &&& node.on_reply(task, ReplyView::Done) == (
                node,
                OutcomeView::Pending(TaskView::SendCompletedBlock { block }),
            )
            &&& node.on_reply(task, ReplyView::Failed) == (node, OutcomeView::Abort(failure))
            &&& node.phase == (PhaseView::Working { slot, task }) ==> {
                &&& node.advanced(ReplyView::Done) == (
                    NodeView {
                        phase: PhaseView::Working {
                            slot,
                            task: TaskView::SendCompletedBlock { block },
                        },
                        ..node
                    },
                    ActionView::Broadcast {
                        message: MessageView {
                            message_type: MessageTypeView::Completedblock(block),
                            sender_id: node.params.signer_id,
                        },
                    },
                )
                &&& node.advanced(ReplyView::Failed) == (
                    NodeView { phase: PhaseView::Aborted { failure }, ..node },
                    ActionView::Abort { failure },
                )
            }
        }),
        node.on_reply(TaskView::SendCompletedBlock { block }, ReplyView::Done) == node.rotated(),
{
}

/// What is said of an action is said of the action that is handed out, with all that it holds.
pub proof fn law_actions_are_seen_whole(action: Action)
    ensures
        action is GetBlockchainInfo <==> action@ is GetBlockchainInfo,
        action matches Action::Sleep { millis } ==> action@ == (ActionView::Sleep { millis }),
        action is StartConnection <==> action@ is StartConnection,
        action matches Action::StartTimer { limit_secs } ==> action@ == (ActionView::StartTimer {
            limit_secs,
        }),
        action is RestartTimer <==> action@ is RestartTimer,
        action is StopTimer <==> action@ is StopTimer,
        action is TakeErrorHandler <==> action@ is TakeErrorHandler,
        action is PollStop <==> action@ is PollStop,
        action is PollMessage <==> action@ is PollMessage,
        action is PollTimer <==> action@ is PollTimer,
        action is PollConnection <==> action@ is PollConnection,
        action matches Action::TestProposedBlock { block } ==> action@ == (
        ActionView::TestProposedBlock {
            block: BlockView { payload: block.payload@, hash: block.hash },
        }),
        action matches Action::CombineBlockSigs { block, signatures } ==> action@ == (
        ActionView::CombineBlockSigs {
            block: BlockView { payload: block.payload@, hash: block.hash },
            signatures: signatures@,
        }),
        action matches Action::SubmitBlock { block } ==> action@ == (ActionView::SubmitBlock {
            block: BlockView { payload: block.payload@, hash: block.hash },
        }),
        action matches Action::GetNewBlock { wait_secs, address } ==> action@ == (
        ActionView::GetNewBlock { wait_secs, address: address@ }),
        action matches Action::Broadcast { message } ==> action@ == (ActionView::Broadcast {
            message: message@,
        }),
        action is Stop <==> action@ is Stop,
        action matches Action::Abort { failure } ==> action@ == (ActionView::Abort { failure }),
{
}

/// What is said of a message is said of the message that is sent or received, and of its sender.
pub proof fn law_messages_are_seen_whole(message: Message)
    ensures
        message@.sender_id == message.sender_id,
        message.message_type matches MessageType::Candidateblock(block)
            ==> message@.message_type == MessageTypeView::Candidateblock(
            BlockView { payload: block.payload@, hash: block.hash },
        ),
        message.message_type matches MessageType::Signature(signature) ==> message@.message_type
            == MessageTypeView::Signature(signature),
        message.message_type matches MessageType::Completedblock(block)
            ==> message@.message_type == MessageTypeView::Completedblock(
            BlockView { payload: block.payload@, hash: block.hash },
        ),
        message.message_type is Roundfailure <==> message@.message_type is Roundfailure,
{
}

/// What is said of a reply is said of the reply that the node gets.
pub proof fn law_replies_are_seen_whole(reply: Reply)
    ensures
        reply is Done <==> reply@ is Done,
        reply is Failed <==> reply@ is Failed,
        reply is Nothing <==> reply@ is Nothing,
        reply matches Reply::Block(block) ==> reply@ == ReplyView::Block(
            BlockView { payload: block.payload@, hash: block.hash },
        ),
        reply matches Reply::BlockchainInfo { initialblockdownload } ==> reply@ == (
        ReplyView::BlockchainInfo { initialblockdownload }),
        reply matches Reply::Message(message) ==> reply@ == ReplyView::Message(message@),
{
}

/// What is said of an outcome is said of the state that the node moves to, or of the task that it
/// waits for, with all that it holds.
pub proof fn law_outcomes_are_seen_whole(outcome: Outcome, task: Task)
    ensures
        outcome matches Outcome::Next(state) ==> outcome@ == OutcomeView::Next(state@),
        outcome matches Outcome::Pending(t) ==> outcome@ == OutcomeView::Pending(t@),
        outcome matches Outcome::Abort(failure) ==> outcome@ == OutcomeView::Abort(failure),
        task matches Task::TestProposedBlock { sender_id, block } ==> task@ == (
        TaskView::TestProposedBlock {
            sender_id,
            block: BlockView { payload: block.payload@, hash: block.hash },
        }),
        task matches Task::SendSignature { signature } ==> task@ == (TaskView::SendSignature {
            signature,
        }),
        task is RestartTimer <==> task@ is RestartTimer,
        task matches Task::CombineBlockSigs { block, signatures } ==> task@ == (
        TaskView::CombineBlockSigs {
            block: BlockView { payload: block.payload@, hash: block.hash },
            signatures: signatures@,
        }),
        task matches Task::SubmitBlock { block } ==> task@ == (TaskView::SubmitBlock {
            block: BlockView { payload: block.payload@, hash: block.hash },
        }),
        task matches Task::SendCompletedBlock { block } ==> task@ == (
        TaskView::SendCompletedBlock {
            block: BlockView { payload: block.payload@, hash: block.hash },
        }),
        task matches Task::GetNewBlock { wait_secs, address } ==> task@ == (TaskView::GetNewBlock {
            wait_secs,
            address: address@,
        }),
        task matches Task::SendCandidateBlock { block } ==> task@ == (
        TaskView::SendCandidateBlock {
            block: BlockView { payload: block.payload@, hash: block.hash },
        }),
{
}

/// What is said of a node is said of what it holds.
pub proof fn law_nodes_are_seen_whole(node: SignerNode)
    ensures
        node@.master_index == node.master_index,
        node@.round_time_limit == node.round_time_limit,
        node@.stop_signal == node.stop_signal,
        node@.error_handler == node.error_handler,
        node@.params.pubkey_list == node.params.pubkey_list@,
        node@.params.threshold == node.params.threshold,
        node@.params.private_key == node.params.private_key,
        node@.params.address == node.params.address@,
        node@.params.signer_id == node.params.signer_id,
        node@.params.master_flag == node.params.master_flag,
        node@.params.self_node_index == node.params.self_node_index,
        node@.params.round_duration == node.params.round_duration,
        node@.params.skip_waiting_ibd == node.params.skip_waiting_ibd,
        node.current_state is Joining <==> node@.current_state is Joining,
        node.current_state is Member <==> node@.current_state is Member,
        node.current_state matches NodeState::Master { signature_map, candidate_block }
            ==> node@.current_state == (NodeStateView::Master {
            signatures: signature_map@,
            candidate_block: BlockView {
                payload: candidate_block.payload@,
                hash: candidate_block.hash,
            },
        }),
        node.phase@ == node@.phase,
{
}

} // verus!
