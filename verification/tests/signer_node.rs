//! A node among the five signers of a federation, driven against a stand-in for the core node.
use std::collections::VecDeque;

use tapyrus_signer::{
    sign, Action, Block, Failure, Message, MessageType, Network, NodeParameters, NodeState, Outcome,
    Phase, PrivateKey, PublicKey, Rejection, Reply, Signature, SignatureMap, SignerID, SignerNode,
    Task,
};

fn test_key(index: usize) -> PrivateKey {
    let secret: [u8; 32] = match index {
        0 => [
            219, 185, 209, 150, 55, 1, 130, 103, 38, 141, 252, 44, 199, 174, 192, 126, 114, 23, 193,
            162, 214, 115, 62, 17, 132, 160, 144, 146, 115, 191, 7, 139,
        ],
        1 => [6; 32],
        2 => [3; 32],
        3 => [8; 32],
        _ => [4; 32],
    };
    PrivateKey::new(secret, true, Network::Testnet).unwrap()
}

fn test_keys() -> Vec<PrivateKey> {
    (0..5).map(test_key).collect()
}

fn pubkeys() -> Vec<PublicKey> {
    test_keys().iter().map(|key| key.public_key()).collect()
}

fn signer(index: usize) -> SignerID {
    SignerID { pubkey: pubkeys()[index] }
}

fn get_block(index: u8) -> Block {
    let payload = vec![
        0, 0, 0, 32, 237, 101, 140, 196, 6, 112, 204, 237, 162, 59, 176, 182, 20, 130, 31, 230, 212,
        138, 65, 209, 7, 209, 159, 63, 58, 86, 8, 173, 61, 72, 48, 146, 177, 81, 22, 10, 183, 17,
        51, 180, 40, 225, 246, 46, 174, 181, 152, 174, 133, 143, 246, 96, 23, 201, 150, 1, 242, 144,
        136, 183, 198, 74, 72, 29, 98, 132, 225, 69, 210, 155, 112, 191, 84, 57, 45, 41, 112, 16,
        49, 210, 175, 159, 237, 95, 155, 178, 31, 187, 40, 79, 167, 28, 235, 35, 143, 105, 166, 212,
        9, 93, 0, 1, 2, 0, 0, 0, 0, 1, 1, 0, 0, 0, 0, 0, 0, 0, 0, 0, 0, 0, 0, 0, 0, 0, 0, 0, 0, 0,
        0, 0, 0, 0, 0, 0, 0, 0, 0, 0, 0, 0, 0, 12, 0, 0, 0, 3, 92, 1, 1, 255, 255, 255, 255, 2, 0,
        242, 5, 42, 1, 0, 0, 0, 25, 118, 169, 20, 207, 18, 219, 192, 75, 176, 222, 111, 182, 168,
        122, 90, 235, 75, 46, 116, 201, 112, 6, 178, 136, 172, 0, 0, 0, 0, 0, 0, 0, 0, 38, 106, 36,
        170, 33, 169, 237, 226, 246, 28, 63, 113, 209, 222, 253, 63, 169, 153, 223, 163, 105, 83,
        117, 92, 105, 6, 137, 121, 153, 98, 180, 139, 235, 216, 54, 151, 78, 140, 249, 1, 32, 0, 0,
        0, 0, 0, 0, 0, 0, 0, 0, 0, 0, 0, 0, 0, 0, 0, 0, 0, 0, 0, 0, 0, 0, 0, 0, 0, 0, 0, 0, 0, 0, 0,
        0, 0, 0,
    ];
    let mut hash: [u8; 32] = [
        99, 238, 200, 254, 226, 242, 212, 133, 106, 193, 106, 149, 12, 205, 235, 218, 54, 95, 215,
        220, 28, 173, 154, 183, 66, 176, 6, 150, 125, 151, 155, 192,
    ];
    hash[0] = hash[0].wrapping_add(index);
    Block { payload, hash: Some(hash) }
}

/// Stands in for the core node, the timer and the other signers.
struct World {
    return_block: Result<Block, String>,
    broadcasts: Vec<Message>,
    performed: Vec<String>,
    messages: VecDeque<Message>,
    timeouts: u32,
    downloads: VecDeque<bool>,
    turns: u32,
    error_handler: bool,
    connection_errors: u32,
    stop_sender_gone: bool,
    timer_fails: bool,
}

impl World {
    fn new(return_block: Result<Block, String>) -> World {
        World {
            return_block,
            broadcasts: vec![],
            performed: vec![],
            messages: VecDeque::new(),
            timeouts: 0,
            downloads: VecDeque::new(),
            turns: 3,
            error_handler: false,
            connection_errors: 0,
            stop_sender_gone: false,
            timer_fails: false,
        }
    }

    fn block(&self) -> Reply {
        match &self.return_block {
            Ok(block) => Reply::Block(block.clone()),
            Err(_) => Reply::Failed,
        }
    }

    fn perform(&mut self, action: Action) -> Reply {
        let name = format!("{:?}", action);
        let end = name.find(' ').unwrap_or(name.len());
        self.performed.push(name[..end].to_string());
        match action {
            Action::GetBlockchainInfo => match self.downloads.pop_front() {
                Some(initialblockdownload) => Reply::BlockchainInfo { initialblockdownload },
                None => Reply::Failed,
            },
            Action::StartTimer { .. } | Action::RestartTimer => {
                if self.timer_fails { Reply::Failed } else { Reply::Done }
            }
            Action::Sleep { .. } | Action::StartConnection | Action::StopTimer => Reply::Done,
            Action::TakeErrorHandler => {
                if self.error_handler { Reply::Done } else { Reply::Nothing }
            }
            Action::PollStop => {
                if self.stop_sender_gone {
                    Reply::Failed
                } else if self.turns == 0 {
                    Reply::Done
                } else {
                    self.turns -= 1;
                    Reply::Nothing
                }
            }
            Action::PollMessage => match self.messages.pop_front() {
                Some(message) => Reply::Message(message),
                None => Reply::Nothing,
            },
            Action::PollTimer => {
                if self.timeouts > 0 {
                    self.timeouts -= 1;
                    Reply::Done
                } else {
                    Reply::Nothing
                }
            }
            Action::PollConnection => {
                if self.connection_errors > 0 { Reply::Failed } else { Reply::Nothing }
            }
            Action::TestProposedBlock { .. } => match &self.return_block {
                Ok(_) => Reply::Done,
                Err(_) => Reply::Failed,
            },
            Action::CombineBlockSigs { .. } | Action::GetNewBlock { .. } => self.block(),
            Action::SubmitBlock { .. } => Reply::Done,
            Action::Broadcast { message } => {
                self.broadcasts.push(message);
                Reply::Done
            }
            Action::Stop | Action::Abort { .. } => unreachable!(),
        }
    }

    /// Finishes the handling of a message or a round.
    fn finish(&mut self, node: &mut SignerNode, outcome: Outcome) -> Result<NodeState, Failure> {
        let mut outcome = outcome;
        loop {
            match outcome {
                Outcome::Next(state) => return Ok(state),
                Outcome::Abort(failure) => return Err(failure),
                Outcome::Pending(task) => {
                    let reply = self.perform(node.action(&task));
                    assert!(task.accepts(&reply));
                    outcome = node.resume(task, reply);
                }
            }
        }
    }

    /// Runs the node until it stops or fails.
    fn run(&mut self, node: &mut SignerNode) -> Action {
        let mut action = node.start();
        loop {
            match action {
                Action::Stop | Action::Abort { .. } => return action,
                action_to_perform => {
                    let reply = self.perform(action_to_perform);
                    assert!(node.expects(&reply));
                    action = node.advance(reply);
                }
            }
        }
    }
}

fn create_node(current_state: NodeState) -> SignerNode {
    let params = NodeParameters::new(pubkeys(), test_key(0), 3, true, 0, true);
    let mut node = SignerNode::new(params);
    node.current_state = current_state;
    node
}

/// The node that takes part from the start as a member, with the signal to stop at hand.
fn setup_node() -> SignerNode {
    let params = NodeParameters::new(pubkeys(), test_key(0), 2, false, 0, true);
    let mut node = SignerNode::new(params);
    node.stop_handler();
    node
}

fn get_initial_master_state() -> NodeState {
    let key = test_key(0);
    let block = get_block(0);
    let mut signature_map = SignatureMap::new();
    signature_map.insert(SignerID { pubkey: key.public_key() }, sign(&key, &block.hash.unwrap()));
    NodeState::Master { signature_map, candidate_block: block }
}

fn candidate_message() -> Message {
    Message { message_type: MessageType::Candidateblock(get_block(0)), sender_id: signer(0) }
}

#[test]
fn test_candidate_process() {
    let mut node = setup_node();
    let mut world = World::new(Ok(get_block(0)));
    world.messages.push_back(candidate_message());
    assert_eq!(world.run(&mut node), Action::Stop);

    assert_eq!(world.broadcasts.len(), 1);
    let actual = format!("{:?}", &world.broadcasts[0].message_type);
    assert!(actual.starts_with("Signature(Signature"));
    assert_eq!(world.broadcasts[0].sender_id, signer(0));
}

#[test]
fn test_candidate_process_invalid_block() {
    let mut node = setup_node();
    let mut world = World::new(Err("invalid block!".to_string()));
    world.messages.push_back(candidate_message());
    assert_eq!(world.run(&mut node), Action::Stop);

    if let Some(m) = world.broadcasts.first() {
        panic!("Should not broadcast Signature message: {:?}", m);
    }
    assert_eq!(node.current_state, NodeState::Member);
}

#[test]
fn test_modify_master_index() {
    let mut world = World::new(Ok(get_block(0)));
    let mut node = create_node(NodeState::Member);

    // The keys in order: 1, 4, 3, 2, 0.
    let sender_id = signer(1);
    assert_eq!(node.master_index, 0); // in begin, master_index is 0.
    let outcome = node.process_candidateblock(&sender_id, &get_block(0));
    let _next_state = world.finish(&mut node, outcome).unwrap();
    assert_eq!(node.master_index, 0);

    let sender_id = signer(0);
    let outcome = node.process_candidateblock(&sender_id, &get_block(0));
    let _next_state = world.finish(&mut node, outcome).unwrap();
    assert_eq!(node.master_index, 4);
}

#[test]
fn test_timeout_roundrobin() {
    let mut world = World::new(Ok(get_block(0)));
    let mut node = create_node(NodeState::Member);
    node.stop_handler();
    node.params.master_flag = false;

    assert_eq!(node.master_index, 0_usize);
    world.timeouts = 1;
    assert_eq!(world.run(&mut node), Action::Stop);

    assert_eq!(node.master_index, 1_usize);
}

/// 3 of 5 multisig
/// Round owner will collect signatures.
#[test]
fn process_signature_test() {
    let block = get_block(0);
    let mut world = World::new(Ok(get_block(0)));
    let mut node = create_node(get_initial_master_state());

    // sign node1
    {
        let sig = sign(&test_key(1), &get_block(0).hash.unwrap());
        let outcome = node.process_signature(&signer(1), &sig);
        let next_state = world.finish(&mut node, outcome).unwrap();

        match &next_state {
            NodeState::Master { signature_map, .. } => assert_eq!(signature_map.len(), 2),
            state => panic!("Should be Master node, but: {:?}", state),
        }
        node.current_state = next_state;
    }

    // sign node2
    // With the signature of node2 there are enough. The block is completed and the role passes on.
    {
        world.return_block = Ok(get_block(1));
        let sig = sign(&test_key(2), &block.hash.unwrap());
        let outcome = node.process_signature(&signer(2), &sig);
        let next_state = world.finish(&mut node, outcome).unwrap();

        match next_state {
            NodeState::Member => {}
            n => panic!("should be Member, but: {:?}", n),
        }
    }
    assert_eq!(world.performed, vec!["CombineBlockSigs", "SubmitBlock", "Broadcast"]);
    assert_eq!(
        world.broadcasts,
        vec![Message {
            message_type: MessageType::Completedblock(get_block(1)),
            sender_id: signer(0),
        }]
    );
}

#[test]
fn test_invalid_signature() {
    let mut world = World::new(Ok(get_block(0)));
    let mut node = create_node(get_initial_master_state());

    // The signature of node1 in the name of node0.
    let sig = sign(&test_key(1), &get_block(0).hash.unwrap());
    let outcome = node.process_signature(&signer(0), &sig);
    let next_state = world.finish(&mut node, outcome).unwrap();

    match &next_state {
        NodeState::Master { signature_map, .. } => assert_eq!(signature_map.len(), 1), // invalid signature do not include.
        state => panic!("{:?}", state),
    }
}

#[test]
fn test_ignore_duplicate_signature() {
    let mut world = World::new(Ok(get_block(0)));
    let mut node = create_node(get_initial_master_state());

    let sender_id = signer(1);
    let sig = sign(&test_key(1), &get_block(0).hash.unwrap());
    let outcome = node.process_signature(&sender_id, &sig);
    world.finish(&mut node, outcome).unwrap();
    // duplicate message
    let outcome = node.process_signature(&sender_id, &sig);
    let next_state = world.finish(&mut node, outcome).unwrap();

    match &next_state {
        NodeState::Master { signature_map, .. } => assert_eq!(signature_map.len(), 2), // ignore duplicate.
        state => panic!("{:?}", state),
    }
}

#[test]
fn test_process_completedblock() {
    let mut world = World::new(Ok(get_block(0)));
    let mut node = create_node(NodeState::Member);

    // The keys in order: 1, 4, 3, 2, 0.
    assert_eq!(node.master_index, 0); // in begin, master_index is 0.
    let outcome = node.process_completedblock(&signer(1), &get_block(0));
    let next_state = world.finish(&mut node, outcome).unwrap();
    assert_eq!(node.master_index, 1); // should incremented.
    match next_state {
        NodeState::Member => {}
        n => panic!("Should be Member, but state:{:?}", n),
    }

    node.master_index = 4;
    let outcome = node.process_completedblock(&signer(0), &get_block(0));
    let next_state = world.finish(&mut node, outcome).unwrap();
    assert_eq!(node.master_index, 0); // wrap back to 0.
    match next_state {
        NodeState::Member => {}
        n => panic!("Should be Member, but state:{:?}", n),
    }

    node.master_index = 3;
    let outcome = node.process_completedblock(&signer(2), &get_block(0));
    let next_state = world.finish(&mut node, outcome).unwrap();
    assert_eq!(node.master_index, 4);
    match next_state {
        NodeState::Master { signature_map, .. } => {
            assert_eq!(signature_map.len(), 1); // has self signature at start.
        }
        n => panic!("Should be Master, but state:{:?}", n),
    }
}

#[test]
fn test_process_completedblock_ignore_different_master() {
    let mut world = World::new(Ok(get_block(0)));
    let mut node = create_node(NodeState::Member);

    // The keys in order: 1, 4, 3, 2, 0.
    assert_eq!(node.master_index, 0); // in begin, master_index is 0.
    let outcome = node.process_completedblock(&signer(0), &get_block(0));
    let next_state = world.finish(&mut node, outcome).unwrap();
    assert_eq!(node.master_index, 0); // should not incremented if not recorded master.
    match next_state {
        NodeState::Member => {}
        n => panic!("Should be Member, but state:{:?}", n),
    }
}

#[test]
fn test_wait_for_ibd_finish() {
    let node = create_node(NodeState::Member);
    let results = [true, false];
    let mut call_count = 0;
    loop {
        let initialblockdownload = results[call_count];
        call_count += 1;
        match node.wait_for_ibd_finish(initialblockdownload, 1) {
            Some(pause) => assert_eq!(pause, 1),
            None => break,
        }
    }
    assert_eq!(call_count, 2);
}

#[test]
fn a_node_waits_for_the_download_before_it_connects() {
    let mut node = setup_node();
    node.params.skip_waiting_ibd = false;
    let mut world = World::new(Ok(get_block(0)));
    world.downloads.push_back(true);
    world.downloads.push_back(false);
    world.turns = 0;
    assert_eq!(world.run(&mut node), Action::Stop);
    assert_eq!(
        world.performed,
        vec![
            "GetBlockchainInfo",
            "Sleep",
            "GetBlockchainInfo",
            "StartConnection",
            "StartTimer",
            "TakeErrorHandler",
            "PollStop",
            "StopTimer",
        ]
    );
}

#[test]
fn a_node_without_blockchain_info_fails() {
    let mut node = setup_node();
    node.params.skip_waiting_ibd = false;
    let mut world = World::new(Ok(get_block(0)));
    assert_eq!(world.run(&mut node), Action::Abort { failure: Failure::BlockchainInfo });
}

#[test]
fn the_first_master_opens_a_round() {
    let params = NodeParameters::new(pubkeys(), test_key(0), 3, true, 60, true);
    let mut node = SignerNode::new(params);
    node.stop_handler();
    assert_eq!(node.round_time_limit, 65);
    assert_eq!(node.start(), Action::StartConnection);
    assert_eq!(
        node.advance(Reply::Done),
        Action::GetNewBlock { wait_secs: 60, address: test_key(0).address() }
    );
    assert_eq!(
        node.advance(Reply::Block(get_block(0))),
        Action::Broadcast { message: candidate_message() }
    );
    assert_eq!(node.current_state, NodeState::Joining);
    assert_eq!(node.advance(Reply::Done), Action::StartTimer { limit_secs: 65 });
    assert_eq!(node.current_state, get_initial_master_state());
}

#[test]
fn a_candidate_without_digest_fails_the_master() {
    for hash in [None, Some([0; 32])] {
        let mut world = World::new(Ok(Block { payload: vec![1], hash }));
        let mut node = create_node(NodeState::Member);
        let outcome = node.start_new_round();
        assert_eq!(world.finish(&mut node, outcome), Err(Failure::UnsignableBlock));
    }
}

#[test]
fn a_candidate_without_digest_fails_the_member() {
    let mut world = World::new(Ok(get_block(0)));
    let mut node = create_node(NodeState::Member);
    let block = Block { payload: vec![1], hash: None };
    let outcome = node.process_candidateblock(&signer(0), &block);
    assert_eq!(world.finish(&mut node, outcome), Err(Failure::UnsignableBlock));
    assert_eq!(node.master_index, 4);
}

#[test]
fn a_master_without_digest_fails_at_a_signature() {
    let block = Block { payload: vec![1], hash: None };
    let node = create_node(NodeState::Master {
        signature_map: SignatureMap::new(),
        candidate_block: block,
    });
    let sig = sign(&test_key(1), &[1; 32]);
    assert_eq!(node.process_signature(&signer(1), &sig), Outcome::Abort(Failure::UnsignableBlock));
}

#[test]
fn an_unknown_sender_fails_the_node() {
    let stranger = PrivateKey::new([7; 32], true, Network::Testnet).unwrap();
    let sender_id = SignerID { pubkey: stranger.public_key() };
    let mut world = World::new(Ok(get_block(0)));
    let mut node = create_node(NodeState::Member);
    let outcome = node.process_candidateblock(&sender_id, &get_block(0));
    assert_eq!(world.finish(&mut node, outcome), Err(Failure::UnknownSender));
    let outcome = node.process_completedblock(&sender_id, &get_block(0));
    assert_eq!(outcome, Outcome::Abort(Failure::UnknownSender));
}

#[test]
fn unfit_messages_are_ignored() {
    let sig = sign(&test_key(1), &get_block(0).hash.unwrap());
    let mut node = create_node(get_initial_master_state());
    assert_eq!(
        node.process_message(candidate_message()),
        Outcome::Next(get_initial_master_state())
    );
    let failure = Message { message_type: MessageType::Roundfailure, sender_id: signer(3) };
    assert_eq!(node.process_message(failure), Outcome::Next(get_initial_master_state()));
    let mut node = create_node(NodeState::Member);
    let signature = Message { message_type: MessageType::Signature(sig), sender_id: signer(1) };
    assert_eq!(node.process_message(signature), Outcome::Next(NodeState::Member));
}

#[test]
fn a_second_signature_changes_nothing() {
    let mut world = World::new(Ok(get_block(0)));
    let mut node = create_node(get_initial_master_state());
    let sig = sign(&test_key(1), &get_block(0).hash.unwrap());
    let outcome = node.process_signature(&signer(1), &sig);
    node.current_state = world.finish(&mut node, outcome).unwrap();
    let state = node.current_state.clone();
    assert_eq!(node.process_signature(&signer(1), &sig), Outcome::Next(state));
}

#[test]
fn failed_work_fails_the_node() {
    let mut node = create_node(NodeState::Member);
    let block = get_block(0);
    let signatures: Vec<Signature> = vec![];
    let cases = vec![
        (Task::RestartTimer, Failure::TimerRestart),
        (
            Task::CombineBlockSigs { block: block.clone(), signatures },
            Failure::CombineBlockSigs,
        ),
        (Task::SubmitBlock { block }, Failure::SubmitBlock),
        (Task::GetNewBlock { wait_secs: 0, address: String::new() }, Failure::NewBlock),
    ];
    for (task, failure) in cases {
        assert_eq!(node.resume(task, Reply::Failed), Outcome::Abort(failure));
    }
}

#[test]
fn a_timer_that_does_not_start_fails_the_node() {
    let mut node = setup_node();
    let mut world = World::new(Ok(get_block(0)));
    world.timer_fails = true;
    assert_eq!(world.run(&mut node), Action::Abort { failure: Failure::TimerStart });
}

#[test]
fn a_lost_stop_signal_fails_the_node() {
    let mut node = setup_node();
    let mut world = World::new(Ok(get_block(0)));
    world.stop_sender_gone = true;
    assert_eq!(world.run(&mut node), Action::Abort { failure: Failure::StopSignalLost });
}

#[test]
fn a_connection_error_stops_the_timer_and_fails_the_node() {
    let mut node = setup_node();
    let mut world = World::new(Ok(get_block(0)));
    world.error_handler = true;
    world.connection_errors = 1;
    assert_eq!(world.run(&mut node), Action::Abort { failure: Failure::Connection });
    assert_eq!(world.performed.last().unwrap(), "StopTimer");
    assert_eq!(node.phase, Phase::Aborted { failure: Failure::Connection });
    assert!(!node.expects(&Reply::Done));
}

#[test]
fn a_quiet_turn_asks_for_everything_once() {
    let mut node = setup_node();
    let mut world = World::new(Ok(get_block(0)));
    world.turns = 1;
    world.error_handler = true;
    assert_eq!(world.run(&mut node), Action::Stop);
    assert_eq!(
        world.performed,
        vec![
            "StartConnection",
            "StartTimer",
            "TakeErrorHandler",
            "PollStop",
            "PollMessage",
            "PollTimer",
            "PollConnection",
            "Sleep",
            "PollStop",
            "StopTimer",
        ]
    );
    assert_eq!(node.current_state, NodeState::Member);
    assert_eq!(node.master_index, 0);
}

#[test]
fn the_role_goes_round_the_federation() {
    let mut node = create_node(NodeState::Member);
    let mut indices = vec![];
    for _ in 0..5 {
        let opened = matches!(node.round_robin_master(), Outcome::Pending(_));
        assert_eq!(opened, node.master_index == 4);
        indices.push(node.master_index);
    }
    assert_eq!(indices, vec![1, 2, 3, 4, 0]);
}

#[test]
fn a_round_from_proposal_to_completion() {
    let mut master_world = World::new(Ok(get_block(0)));
    let mut master = create_node(NodeState::Member);
    let outcome = master.start_new_round();
    master.current_state = master_world.finish(&mut master, outcome).unwrap();
    assert_eq!(master.current_state, get_initial_master_state());

    for index in 1..3 {
        let params = NodeParameters::new(pubkeys(), test_key(index), 3, false, 0, true);
        let mut member = SignerNode::new(params);
        member.current_state = NodeState::Member;
        let mut world = World::new(Ok(get_block(0)));
        let outcome = member.process_message(candidate_message());
        world.finish(&mut member, outcome).unwrap();
        assert_eq!(member.master_index, 4);
        assert_eq!(world.broadcasts.len(), 1);

        let outcome = master.process_message(world.broadcasts.remove(0));
        master.current_state = master_world.finish(&mut master, outcome).unwrap();
    }
    assert_eq!(master.current_state, NodeState::Member);
    assert_eq!(
        master_world.performed,
        vec!["GetNewBlock", "Broadcast", "CombineBlockSigs", "SubmitBlock", "Broadcast"]
    );
}

#[test]
fn the_count_of_signatures_is_kept_in_eight_bits() {
    let block = get_block(0);
    let digest = block.hash.unwrap();
    let mut signature_map = SignatureMap::new();
    for index in 0..255_u32 {
        let mut secret = [9_u8; 32];
        secret[31] = index as u8;
        let key = PrivateKey::new(secret, true, Network::Testnet).unwrap();
        signature_map.insert(SignerID { pubkey: key.public_key() }, Signature { compact: [0; 64] });
    }
    assert_eq!(signature_map.len(), 255);
    let mut node = create_node(NodeState::Member);
    node.current_state = NodeState::Master { signature_map, candidate_block: block };
    match node.process_signature(&signer(1), &sign(&test_key(1), &digest)) {
        Outcome::Next(NodeState::Master { signature_map, .. }) => {
            assert_eq!(signature_map.len(), 256)
        }
        outcome => panic!("{:?}", outcome),
    }
}

#[test]
fn masters_with_the_same_signatures_are_equal() {
    let block = get_block(0);
    let digest = block.hash.unwrap();
    let own = signer(0);
    let taken = |order: &[usize]| {
        let mut node = create_node(NodeState::Member);
        let mut signature_map = SignatureMap::new();
        signature_map.insert(own, sign(&test_key(0), &digest));
        node.current_state = NodeState::Master { signature_map, candidate_block: block.clone() };
        node.params.threshold = 5;
        for index in order {
            let signature = sign(&test_key(*index), &digest);
            match node.process_signature(&signer(*index), &signature) {
                Outcome::Next(state) => node.current_state = state,
                outcome => panic!("{:?}", outcome),
            }
        }
        node.current_state
    };
    assert_eq!(taken(&[1, 2, 3]), taken(&[3, 1, 2]));
    assert_eq!(taken(&[1, 2, 2]), taken(&[2, 1, 1]));
    assert_ne!(taken(&[1, 2]), taken(&[1, 3]));
    assert_ne!(taken(&[1, 2]), taken(&[1, 2, 3]));
    assert_ne!(taken(&[1, 2, 3]), taken(&[1, 2]));
}

#[test]
fn a_block_is_completed_with_as_many_signatures_as_the_threshold() {
    for (threshold, expected) in [(0_u8, 2_usize), (1, 2), (2, 2), (3, 3), (5, 5)] {
        let block = get_block(0);
        let digest = block.hash.unwrap();
        let mut node = create_node(NodeState::Member);
        let mut signature_map = SignatureMap::new();
        signature_map.insert(signer(0), sign(&test_key(0), &digest));
        node.current_state = NodeState::Master { signature_map, candidate_block: block };
        node.params.threshold = threshold;
        let mut completed_with = 0;
        for index in 1..5 {
            match node.process_signature(&signer(index), &sign(&test_key(index), &digest)) {
                Outcome::Next(state) => node.current_state = state,
                Outcome::Pending(Task::CombineBlockSigs { signatures, .. }) => {
                    completed_with = signatures.len();
                    break;
                }
                outcome => panic!("{:?}", outcome),
            }
        }
        assert_eq!(completed_with, expected);
    }
}

#[test]
fn a_signature_is_refused_for_a_reason() {
    let node = create_node(NodeState::Member);
    let block = get_block(0);
    let sig = sign(&test_key(1), &block.hash.unwrap());
    let mut signature_map = SignatureMap::new();
    assert_eq!(node.block2message(&block), block.hash);
    assert_eq!(node.verify_signature(&signature_map, &block, &sig, &signer(1)), Ok(()));
    assert_eq!(
        node.verify_signature(&signature_map, &block, &sig, &signer(2)),
        Err(Rejection::InvalidSignature)
    );
    let unsignable = Block { payload: vec![], hash: Some([0; 32]) };
    assert_eq!(node.block2message(&unsignable), None);
    assert_eq!(
        node.verify_signature(&signature_map, &unsignable, &sig, &signer(1)),
        Err(Rejection::UnsignableBlock)
    );
    signature_map.insert(signer(1), sig);
    for block in [block, unsignable] {
        assert_eq!(
            node.verify_signature(&signature_map, &block, &sig, &signer(1)),
            Err(Rejection::DuplicatedMessage)
        );
    }
}

#[test]
fn a_timeout_makes_the_next_node_the_master() {
    let mut node = setup_node();
    node.master_index = 3;
    let mut world = World::new(Ok(get_block(0)));
    world.timeouts = 1;
    world.turns = 1;
    assert_eq!(world.run(&mut node), Action::Stop);
    assert_eq!(node.master_index, 4);
    assert_eq!(node.current_state, get_initial_master_state());
    assert_eq!(
        world.performed[5..],
        ["PollTimer", "GetNewBlock", "Broadcast", "RestartTimer", "Sleep", "PollStop", "StopTimer"]
    );
}

#[test]
fn a_master_that_gets_no_block_fails() {
    let mut node = setup_node();
    node.params.master_flag = true;
    let mut world = World::new(Err("no block".to_string()));
    assert_eq!(world.run(&mut node), Action::Abort { failure: Failure::NewBlock });
}
