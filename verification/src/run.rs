//! The life of a node, from its start to its end, one piece of input or output at a time.
//!
//! [`SignerNode::start`] returns the first [`Action`]. Whoever drives the node performs it and
//! hands what came of it to [`SignerNode::advance`], which returns the next one.
use vstd::prelude::*;

use crate::keys::Signature;
use crate::message::{Block, BlockView, Message, MessageType, MessageTypeView, MessageView};
use crate::node::{NodeView, SignerNode};
use crate::work::{
    Failure, NodeState, NodeStateView, Outcome, OutcomeView, Reply, ReplyView, Task, TaskView,
};

verus! {

/// Why a round is being handled: this decides what the node does when it is done.
#[derive(Clone, Copy, Debug, PartialEq, Eq, Structural)]
pub enum Slot {
    /// The node starts.
    Start,
    /// A message was received.
    Message,
    /// The round timer ran out.
    Timeout,
}

/// What the node is waiting for.
#[derive(Debug, PartialEq)]
pub enum Phase {
    /// To be started.
    Created,
    /// The state of the block chain.
    AskingBlockchain,
    /// The end of the pause before it asks for the state of the block chain again.
    AwaitingDownload,
    /// The connection to the other signers.
    Connecting,
    /// The reply to a task.
    Working { slot: Slot, task: Task },
    /// The start of the round timer.
    StartingTimer,
    /// The handler for errors of the connection.
    TakingErrorHandler,
    /// The stop signal.
    PollingStop,
    /// A message.
    PollingMessage,
    /// The end of the round timer.
    PollingTimer,
    /// The restart of the round timer after it ran out.
    RestartingTimer,
    /// An error of the connection.
    PollingConnection,
    /// The end of the pause between two turns of the loop.
    Resting,
    /// The end of the round timer, after the stop signal.
    Stopping,
    /// The end of the round timer, after a failure.
    Failing { failure: Failure },
    /// Nothing: the node was stopped.
    Stopped,
    /// Nothing: the node failed.
    Aborted { failure: Failure },
}

/// The contents of a phase.
#[verifier::ext_equal]
pub enum PhaseView {
    Created,
    AskingBlockchain,
    AwaitingDownload,
    Connecting,
    Working { slot: Slot, task: TaskView },
    StartingTimer,
    TakingErrorHandler,
    PollingStop,
    PollingMessage,
    PollingTimer,
    RestartingTimer,
    PollingConnection,
    Resting,
    Stopping,
    Failing { failure: Failure },
    Stopped,
    Aborted { failure: Failure },
}

impl View for Phase {
    type V = PhaseView;

    open spec fn view(&self) -> PhaseView {
        match *self {
            Phase::Created => PhaseView::Created,
            Phase::AskingBlockchain => PhaseView::AskingBlockchain,
            Phase::AwaitingDownload => PhaseView::AwaitingDownload,
            Phase::Connecting => PhaseView::Connecting,
            Phase::Working { slot, task } => PhaseView::Working { slot, task: task@ },
            Phase::StartingTimer => PhaseView::StartingTimer,
            Phase::TakingErrorHandler => PhaseView::TakingErrorHandler,
            Phase::PollingStop => PhaseView::PollingStop,
            Phase::PollingMessage => PhaseView::PollingMessage,
            Phase::PollingTimer => PhaseView::PollingTimer,
            Phase::RestartingTimer => PhaseView::RestartingTimer,
            Phase::PollingConnection => PhaseView::PollingConnection,
            Phase::Resting => PhaseView::Resting,
            Phase::Stopping => PhaseView::Stopping,
            Phase::Failing { failure } => PhaseView::Failing { failure },
            Phase::Stopped => PhaseView::Stopped,
            Phase::Aborted { failure } => PhaseView::Aborted { failure },
        }
    }
}

/// One piece of input or output.
#[derive(Debug, PartialEq)]
pub enum Action {
    /// Ask for the state of the block chain. Reply: `BlockchainInfo` or `Failed`.
    GetBlockchainInfo,
    /// Pause. Reply: `Done`.
    Sleep { millis: u64 },
    /// Connect to the other signers. Reply: `Done`.
    StartConnection,
    /// Start the round timer. Reply: `Done` or `Failed`.
    StartTimer { limit_secs: u64 },
    /// Start the round timer anew. Reply: `Done` or `Failed`.
    RestartTimer,
    /// Stop the round timer. Reply: `Done`.
    StopTimer,
    /// Take the handler for errors of the connection. Reply: `Done`, or `Nothing` if there is none.
    TakeErrorHandler,
    /// Look for the stop signal. Reply: `Done` if it was given, `Nothing` if it was not, `Failed`
    /// if it cannot come any more.
    PollStop,
    /// Look for a message. Reply: `Message` or `Nothing`.
    PollMessage,
    /// Look whether the round timer ran out. Reply: `Done` if so, else `Nothing`.
    PollTimer,
    /// Look for an error of the connection. Reply: `Failed` if there is one, else `Nothing`.
    PollConnection,
    /// Ask whether a block is valid. Reply: `Done` or `Failed`.
    TestProposedBlock { block: Block },
    /// Ask for a block completed with signatures. Reply: `Block` or `Failed`.
    CombineBlockSigs { block: Block, signatures: Vec<Signature> },
    /// Submit a block. Reply: `Done` or `Failed`.
    SubmitBlock { block: Block },
    /// Pause, then ask for a new block. Reply: `Block` or `Failed`.
    GetNewBlock { wait_secs: u64, address: String },
    /// Send a message to all signers. Reply: `Done`.
    Broadcast { message: Message },
    /// The node has stopped. No reply.
    Stop,
    /// The node has failed. No reply.
    Abort { failure: Failure },
}

/// The contents of an action.
#[verifier::ext_equal]
pub enum ActionView {
    GetBlockchainInfo,
    Sleep { millis: u64 },
    StartConnection,
    StartTimer { limit_secs: u64 },
    RestartTimer,
    StopTimer,
    TakeErrorHandler,
    PollStop,
    PollMessage,
    PollTimer,
    PollConnection,
    TestProposedBlock { block: BlockView },
    CombineBlockSigs { block: BlockView, signatures: Seq<Signature> },
    SubmitBlock { block: BlockView },
    GetNewBlock { wait_secs: u64, address: Seq<char> },
    Broadcast { message: MessageView },
    Stop,
    Abort { failure: Failure },
}

impl View for Action {
    type V = ActionView;

    open spec fn view(&self) -> ActionView {
        match *self {
            Action::GetBlockchainInfo => ActionView::GetBlockchainInfo,
            Action::Sleep { millis } => ActionView::Sleep { millis },
            Action::StartConnection => ActionView::StartConnection,
            Action::StartTimer { limit_secs } => ActionView::StartTimer { limit_secs },
            Action::RestartTimer => ActionView::RestartTimer,
            Action::StopTimer => ActionView::StopTimer,
            Action::TakeErrorHandler => ActionView::TakeErrorHandler,
            Action::PollStop => ActionView::PollStop,
            Action::PollMessage => ActionView::PollMessage,
            Action::PollTimer => ActionView::PollTimer,
            Action::PollConnection => ActionView::PollConnection,
            Action::TestProposedBlock { block } => ActionView::TestProposedBlock { block: block@ },
            Action::CombineBlockSigs { block, signatures } => ActionView::CombineBlockSigs {
                block: block@,
                signatures: signatures@,
            },
            Action::SubmitBlock { block } => ActionView::SubmitBlock { block: block@ },
            Action::GetNewBlock { wait_secs, address } => ActionView::GetNewBlock {
                wait_secs,
                address: address@,
            },
            Action::Broadcast { message } => ActionView::Broadcast { message: message@ },
            Action::Stop => ActionView::Stop,
            Action::Abort { failure } => ActionView::Abort { failure },
        }
    }
}

/// The pause before the node asks again whether the initial block download is over.
pub const IBD_POLL_MILLIS: u64 = 10_000;

/// The pause between two turns of the loop.
pub const LOOP_PAUSE_MILLIS: u64 = 300;

impl PhaseView {
    /// The reply is one that the node can get in this phase.
    pub open spec fn expects(self, reply: ReplyView) -> bool {
        match self {
            PhaseView::AskingBlockchain => reply is BlockchainInfo || reply is Failed,
            PhaseView::AwaitingDownload
            | PhaseView::Connecting
            | PhaseView::Resting
            | PhaseView::Stopping
            | PhaseView::Failing { .. } => reply is Done,
            PhaseView::Working { task, .. } => task.answered_by(reply),
            PhaseView::StartingTimer | PhaseView::RestartingTimer => {
                reply is Done || reply is Failed
            },
            PhaseView::TakingErrorHandler | PhaseView::PollingTimer => {
                reply is Done || reply is Nothing
            },
            PhaseView::PollingStop => reply is Done || reply is Nothing || reply is Failed,
            PhaseView::PollingMessage => reply is Message || reply is Nothing,
            PhaseView::PollingConnection => reply is Failed || reply is Nothing,
            PhaseView::Created | PhaseView::Stopped | PhaseView::Aborted { .. } => false,
        }
    }
}

impl NodeView {
    /// A message of the node's own.
    pub open spec fn own(self, message_type: MessageTypeView) -> ActionView {
        ActionView::Broadcast {
            message: MessageView { message_type, sender_id: self.params.signer_id },
        }
    }

    /// What is to be done for a task.
    pub open spec fn action_for(self, task: TaskView) -> ActionView {
        match task {
            TaskView::TestProposedBlock { block, .. } => ActionView::TestProposedBlock { block },
            TaskView::SendSignature { signature } => self.own(
                MessageTypeView::Signature(signature),
            ),
            TaskView::RestartTimer => ActionView::RestartTimer,
            TaskView::CombineBlockSigs { block, signatures } => ActionView::CombineBlockSigs {
                block,
                signatures,
            },
            TaskView::SubmitBlock { block } => ActionView::SubmitBlock { block },
            TaskView::SendCompletedBlock { block } => self.own(
                MessageTypeView::Completedblock(block),
            ),
            TaskView::GetNewBlock { wait_secs, address } => ActionView::GetNewBlock {
                wait_secs,
                address,
            },
            TaskView::SendCandidateBlock { block } => self.own(
                MessageTypeView::Candidateblock(block),
            ),
        }
    }

    /// What is to be done for the node to go on.
    pub open spec fn awaited(self) -> ActionView {
        match self.phase {
            PhaseView::AskingBlockchain => ActionView::GetBlockchainInfo,
            PhaseView::AwaitingDownload => ActionView::Sleep { millis: IBD_POLL_MILLIS },
            PhaseView::Connecting => ActionView::StartConnection,
            PhaseView::Working { task, .. } => self.action_for(task),
            PhaseView::StartingTimer => ActionView::StartTimer {
                limit_secs: self.round_time_limit,
            },
            PhaseView::TakingErrorHandler => ActionView::TakeErrorHandler,
            PhaseView::PollingStop => ActionView::PollStop,
            PhaseView::PollingMessage => ActionView::PollMessage,
            PhaseView::PollingTimer => ActionView::PollTimer,
            PhaseView::RestartingTimer => ActionView::RestartTimer,
            PhaseView::PollingConnection => ActionView::PollConnection,
            PhaseView::Resting => ActionView::Sleep { millis: LOOP_PAUSE_MILLIS },
            PhaseView::Stopping | PhaseView::Failing { .. } => ActionView::StopTimer,
            PhaseView::Created | PhaseView::Stopped => ActionView::Stop,
            PhaseView::Aborted { failure } => ActionView::Abort { failure },
        }
    }

    /// The node in another phase, and what it waits for there.
    pub open spec fn enter(self, phase: PhaseView, action: ActionView) -> (NodeView, ActionView) {
        (NodeView { phase, ..self }, action)
    }

    pub open spec fn aborted(self, failure: Failure) -> (NodeView, ActionView) {
        self.enter(PhaseView::Aborted { failure }, ActionView::Abort { failure })
    }

    /// The beginning of a turn of the loop: the stop signal, if any can come, then a message.
    pub open spec fn turn(self) -> (NodeView, ActionView) {
        if self.stop_signal {
            self.enter(PhaseView::PollingStop, ActionView::PollStop)
        } else {
            self.enter(PhaseView::PollingMessage, ActionView::PollMessage)
        }
    }

    /// The end of a turn of the loop: the errors of the connection, if it hands them out, then a
    /// pause.
    pub open spec fn turn_end(self) -> (NodeView, ActionView) {
        if self.error_handler {
            self.enter(PhaseView::PollingConnection, ActionView::PollConnection)
        } else {
            self.enter(PhaseView::Resting, ActionView::Sleep { millis: LOOP_PAUSE_MILLIS })
        }
    }

    /// What the node does once it has handled so much of a round.
    pub open spec fn settled(self, slot: Slot, outcome: OutcomeView) -> (NodeView, ActionView) {
        match outcome {
            OutcomeView::Pending(task) => self.enter(
                PhaseView::Working { slot, task },
                self.action_for(task),
            ),
            OutcomeView::Abort(failure) => self.aborted(failure),
            OutcomeView::Next(state) => {
                let node = NodeView { current_state: state, ..self };
                match slot {
                    Slot::Start => node.enter(
                        PhaseView::StartingTimer,
                        ActionView::StartTimer { limit_secs: self.round_time_limit },
                    ),
                    Slot::Message => node.enter(PhaseView::PollingTimer, ActionView::PollTimer),
                    Slot::Timeout => node.enter(
                        PhaseView::RestartingTimer,
                        ActionView::RestartTimer,
                    ),
                }
            },
        }
    }

    /// The first thing that the node does: it waits for the initial block download, unless it was
    /// told not to.
    pub open spec fn started(self) -> (NodeView, ActionView) {
        if self.params.skip_waiting_ibd {
            self.enter(PhaseView::Connecting, ActionView::StartConnection)
        } else {
            self.enter(PhaseView::AskingBlockchain, ActionView::GetBlockchainInfo)
        }
    }

    /// What the node does when it is connected: the first master opens a round, every other node
    /// becomes a member.
    pub open spec fn connected(self) -> (NodeView, ActionView) {
        if self.params.master_flag {
            self.settled(Slot::Start, self.new_round())
        } else {
            self.settled(Slot::Start, OutcomeView::Next(NodeStateView::Member))
        }
    }

    /// What the node does with the reply to a task.
    pub open spec fn worked(self, slot: Slot, task: TaskView, reply: ReplyView) -> (
        NodeView,
        ActionView,
    ) {
        let (node, outcome) = self.on_reply(task, reply);
        node.settled(slot, outcome)
    }

    /// What the node does with a message.
    pub open spec fn received(self, message: MessageView) -> (NodeView, ActionView) {
        let (node, outcome) = self.on_message(message);
        node.settled(Slot::Message, outcome)
    }

    /// What the node does when the round timer runs out.
    pub open spec fn timed_out(self) -> (NodeView, ActionView) {
        let (node, outcome) = self.rotated();
        node.settled(Slot::Timeout, outcome)
    }

    /// What the node does after a reply.
    pub open spec fn advanced(self, reply: ReplyView) -> (NodeView, ActionView) {
        match self.phase {
            PhaseView::AskingBlockchain => match reply {
                ReplyView::BlockchainInfo { initialblockdownload } => if initialblockdownload {
                    self.enter(
                        PhaseView::AwaitingDownload,
                        ActionView::Sleep { millis: IBD_POLL_MILLIS },
                    )
                } else {
                    self.enter(PhaseView::Connecting, ActionView::StartConnection)
                },
                _ => self.aborted(Failure::BlockchainInfo),
            },
            PhaseView::AwaitingDownload => self.enter(
                PhaseView::AskingBlockchain,
                ActionView::GetBlockchainInfo,
            ),
            PhaseView::Connecting => self.connected(),
            PhaseView::Working { slot, task } => self.worked(slot, task, reply),
            PhaseView::StartingTimer => if reply is Done {
                self.enter(PhaseView::TakingErrorHandler, ActionView::TakeErrorHandler)
            } else {
                self.aborted(Failure::TimerStart)
            },
            PhaseView::TakingErrorHandler => NodeView {
                error_handler: reply is Done,
                ..self
            }.turn(),
            PhaseView::PollingStop => match reply {
                ReplyView::Done => self.enter(PhaseView::Stopping, ActionView::StopTimer),
                ReplyView::Nothing => self.enter(
                    PhaseView::PollingMessage,
                    ActionView::PollMessage,
                ),
                _ => self.aborted(Failure::StopSignalLost),
            },
            PhaseView::PollingMessage => match reply {
                ReplyView::Message(message) => self.received(message),
                _ => self.enter(PhaseView::PollingTimer, ActionView::PollTimer),
            },
            PhaseView::PollingTimer => if reply is Done {
                self.timed_out()
            } else {
                self.turn_end()
            },
            PhaseView::RestartingTimer => if reply is Done {
                self.turn_end()
            } else {
                self.aborted(Failure::TimerRestart)
            },
            PhaseView::PollingConnection => if reply is Failed {
                self.enter(
                    PhaseView::Failing { failure: Failure::Connection },
                    ActionView::StopTimer,
                )
            } else {
                self.enter(PhaseView::Resting, ActionView::Sleep { millis: LOOP_PAUSE_MILLIS })
            },
            PhaseView::Resting => self.turn(),
            PhaseView::Stopping => self.enter(PhaseView::Stopped, ActionView::Stop),
            PhaseView::Failing { failure } => self.aborted(failure),
            PhaseView::Created | PhaseView::Stopped | PhaseView::Aborted { .. } => (
                self,
                ActionView::Stop,
            ),
        }
    }
}

/// The handling of messages and rounds does not look at the phase.
proof fn lemma_phase_is_not_read(node: NodeView, phase: PhaseView)
    ensures
        ({
            let other = NodeView { phase, ..node };
            &&& other.connected() == node.connected()
            &&& other.timed_out() == node.timed_out()
            &&& forall|message: MessageView| #[trigger]
                other.received(message) == node.received(message)
            &&& forall|slot: Slot, task: TaskView, reply: ReplyView| #[trigger]
                other.worked(slot, task, reply) == node.worked(slot, task, reply)
        }),
{
    let other = NodeView { phase, ..node };
    assert forall|message: MessageView| #[trigger]
        other.received(message) == node.received(message) by {
        assert(other.on_message(message).0 == (NodeView { phase, ..node.on_message(message).0 }));
        assert(other.on_message(message).1 == node.on_message(message).1);
    }
    assert forall|slot: Slot, task: TaskView, reply: ReplyView| #[trigger]
        other.worked(slot, task, reply) == node.worked(slot, task, reply) by {
        assert(other.on_reply(task, reply).0 == (NodeView {
            phase,
            ..node.on_reply(task, reply).0
        }));
        assert(other.on_reply(task, reply).1 == node.on_reply(task, reply).1);
    }
}

impl SignerNode {
    fn own_message(&self, message_type: MessageType) -> (action: Action)
        ensures
            action@ == self@.own(message_type@),
    {
        Action::Broadcast { message: Message { message_type, sender_id: self.params.signer_id } }
    }

    /// What is to be done for a task.
    pub fn action(&self, task: &Task) -> (action: Action)
        ensures
            action@ == self@.action_for(task@),
    {
        match task {
            Task::TestProposedBlock { block, .. } => Action::TestProposedBlock {
                block: block.clone(),
            },
            Task::SendSignature { signature } => self.own_message(
                MessageType::Signature(*signature),
            ),
            Task::RestartTimer => Action::RestartTimer,
            Task::CombineBlockSigs { block, signatures } => {
                let copies = signatures.clone();
                assert(copies@ =~= signatures@);
                Action::CombineBlockSigs { block: block.clone(), signatures: copies }
            },
            Task::SubmitBlock { block } => Action::SubmitBlock { block: block.clone() },
            Task::SendCompletedBlock { block } => self.own_message(
                MessageType::Completedblock(block.clone()),
            ),
            Task::GetNewBlock { wait_secs, address } => Action::GetNewBlock {
                wait_secs: *wait_secs,
                address: address.clone(),
            },
            Task::SendCandidateBlock { block } => self.own_message(
                MessageType::Candidateblock(block.clone()),
            ),
        }
    }

    fn enter(&mut self, phase: Phase, action: Action) -> (next: Action)
        ensures
            (final(self)@, next@) == old(self)@.enter(phase@, action@),
    {
        self.phase = phase;
        action
    }

    fn abort(&mut self, failure: Failure) -> (next: Action)
        ensures
            (final(self)@, next@) == old(self)@.aborted(failure),
    {
        self.enter(Phase::Aborted { failure }, Action::Abort { failure })
    }

    fn begin_turn(&mut self) -> (next: Action)
        ensures
            (final(self)@, next@) == old(self)@.turn(),
    {
        if self.stop_signal {
            self.enter(Phase::PollingStop, Action::PollStop)
        } else {
            self.enter(Phase::PollingMessage, Action::PollMessage)
        }
    }

    fn end_turn(&mut self) -> (next: Action)
        ensures
            (final(self)@, next@) == old(self)@.turn_end(),
    {
        if self.error_handler {
            self.enter(Phase::PollingConnection, Action::PollConnection)
        } else {
            self.enter(Phase::Resting, Action::Sleep { millis: LOOP_PAUSE_MILLIS })
        }
    }

    fn settle(&mut self, slot: Slot, outcome: Outcome) -> (next: Action)
        ensures
            (final(self)@, next@) == old(self)@.settled(slot, outcome@),
    {
        match outcome {
            Outcome::Pending(task) => {
                let action = self.action(&task);
                self.enter(Phase::Working { slot, task }, action)
            },
            Outcome::Abort(failure) => self.abort(failure),
            Outcome::Next(state) => {
                self.current_state = state;
                match slot {
                    Slot::Start => {
                        let limit_secs: u64 = self.round_time_limit;
                        self.enter(Phase::StartingTimer, Action::StartTimer { limit_secs })
                    },
                    Slot::Message => self.enter(Phase::PollingTimer, Action::PollTimer),
                    Slot::Timeout => self.enter(Phase::RestartingTimer, Action::RestartTimer),
                }
            },
        }
    }

    fn connect(&mut self) -> (next: Action)
        ensures
            (final(self)@, next@) == old(self)@.connected(),
    {
        let outcome = if self.params.master_flag {
            self.start_new_round()
        } else {
            Outcome::Next(NodeState::Member)
        };
        self.settle(Slot::Start, outcome)
    }

    fn work(&mut self, slot: Slot, task: Task, reply: Reply) -> (next: Action)
        requires
            old(self)@.wf(),
            task@.answered_by(reply@),
        ensures
            (final(self)@, next@) == old(self)@.worked(slot, task@, reply@),
            final(self)@.wf(),
            old(self)@.sound() ==> final(self)@.sound(),
    {
        let outcome = self.resume(task, reply);
        self.settle(slot, outcome)
    }

    fn receive(&mut self, message: Message) -> (next: Action)
        requires
            old(self)@.wf(),
        ensures
            (final(self)@, next@) == old(self)@.received(message@),
            final(self)@.wf(),
            old(self)@.sound() ==> final(self)@.sound(),
    {
        let outcome = self.process_message(message);
        self.settle(Slot::Message, outcome)
    }

    fn time_out(&mut self) -> (next: Action)
        requires
            old(self)@.wf(),
        ensures
            (final(self)@, next@) == old(self)@.timed_out(),
            final(self)@.wf(),
            old(self)@.sound() ==> final(self)@.sound(),
    {
        let outcome = self.round_robin_master();
        self.settle(Slot::Timeout, outcome)
    }

    /// Waits for the end of the initial block download: how long to pause before asking again
    /// whether it is over, or nothing if it is.
    pub fn wait_for_ibd_finish(&self, initialblockdownload: bool, interval_millis: u64) -> (pause:
        Option<u64>)
        ensures
            pause == (if initialblockdownload {
                Some(interval_millis)
            } else {
                None
            }),
    {
        if initialblockdownload {
            Some(interval_millis)
        } else {
            None
        }
    }

    /// Starts the node.
    pub fn start(&mut self) -> (next: Action)
        ensures
            (final(self)@, next@) == old(self)@.started(),
            old(self)@.wf() ==> final(self)@.wf(),
            old(self)@.sound() ==> final(self)@.sound(),
    {
        if self.params.skip_waiting_ibd {
            self.enter(Phase::Connecting, Action::StartConnection)
        } else {
            self.enter(Phase::AskingBlockchain, Action::GetBlockchainInfo)
        }
    }

    /// Whether the reply is one that the node can get now.
    pub fn expects(&self, reply: &Reply) -> (expected: bool)
        ensures
            expected == self@.phase.expects(reply@),
    {
        match &self.phase {
            Phase::AskingBlockchain => matches!(reply, Reply::BlockchainInfo { .. } | Reply::Failed),
            Phase::AwaitingDownload
            | Phase::Connecting
            | Phase::Resting
            | Phase::Stopping
            | Phase::Failing { .. } => matches!(reply, Reply::Done),
            Phase::Working { task, .. } => task.accepts(reply),
            Phase::StartingTimer | Phase::RestartingTimer => {
                matches!(reply, Reply::Done | Reply::Failed)
            },
            Phase::TakingErrorHandler | Phase::PollingTimer => {
                matches!(reply, Reply::Done | Reply::Nothing)
            },
            Phase::PollingStop => matches!(reply, Reply::Done | Reply::Nothing | Reply::Failed),
            Phase::PollingMessage => matches!(reply, Reply::Message(_) | Reply::Nothing),
            Phase::PollingConnection => matches!(reply, Reply::Failed | Reply::Nothing),
            Phase::Created | Phase::Stopped | Phase::Aborted { .. } => false,
        }
    }

    /// Goes on after a reply.
    pub fn advance(&mut self, reply: Reply) -> (next: Action)
        requires
            old(self)@.wf(),
            old(self)@.phase.expects(reply@),
        ensures
            (final(self)@, next@) == old(self)@.advanced(reply@),
            final(self)@.wf(),
            old(self)@.sound() ==> final(self)@.sound(),
    {
        let ghost before = self@;
        let mut phase = Phase::Created;
        std::mem::swap(&mut phase, &mut self.phase);
        proof {
            lemma_phase_is_not_read(before, PhaseView::Created);
        }
        match phase {
            Phase::AskingBlockchain => match reply {
                Reply::BlockchainInfo { initialblockdownload } => {
                    match self.wait_for_ibd_finish(initialblockdownload, IBD_POLL_MILLIS) {
                        Some(millis) => self.enter(
                            Phase::AwaitingDownload,
                            Action::Sleep { millis },
                        ),
                        None => self.enter(Phase::Connecting, Action::StartConnection),
                    }
                },
                _ => self.abort(Failure::BlockchainInfo),
            },
            Phase::AwaitingDownload => self.enter(
                Phase::AskingBlockchain,
                Action::GetBlockchainInfo,
            ),
            Phase::Connecting => self.connect(),
            Phase::Working { slot, task } => self.work(slot, task, reply),
            Phase::StartingTimer => match reply {
                Reply::Done => self.enter(Phase::TakingErrorHandler, Action::TakeErrorHandler),
                _ => self.abort(Failure::TimerStart),
            },
            Phase::TakingErrorHandler => {
                self.error_handler = matches!(reply, Reply::Done);
                self.begin_turn()
            },
            Phase::PollingStop => match reply {
                Reply::Done => self.enter(Phase::Stopping, Action::StopTimer),
                Reply::Nothing => self.enter(Phase::PollingMessage, Action::PollMessage),
                _ => self.abort(Failure::StopSignalLost),
            },
            Phase::PollingMessage => match reply {
                Reply::Message(message) => self.receive(message),
                _ => self.enter(Phase::PollingTimer, Action::PollTimer),
            },
            Phase::PollingTimer => match reply {
                Reply::Done => self.time_out(),
                _ => self.end_turn(),
            },
            Phase::RestartingTimer => match reply {
                Reply::Done => self.end_turn(),
                _ => self.abort(Failure::TimerRestart),
            },
            Phase::PollingConnection => match reply {
                Reply::Failed => self.enter(
                    Phase::Failing { failure: Failure::Connection },
                    Action::StopTimer,
                ),
                _ => self.enter(Phase::Resting, Action::Sleep { millis: LOOP_PAUSE_MILLIS }),
            },
            Phase::Resting => self.begin_turn(),
            Phase::Stopping => self.enter(Phase::Stopped, Action::Stop),
            Phase::Failing { failure } => self.abort(failure),
            Phase::Created | Phase::Stopped | Phase::Aborted { .. } => Action::Stop,
        }
    }
}

} // verus!
