//! What a node is configured with, and its place in the federation.
use vstd::prelude::*;

use crate::keys::{PrivateKey, PublicKey, SignerID};
#[allow(unused_imports)]
use crate::order::in_order;
use crate::order::sort_keys;

verus! {

/// The first place in the list that holds the key.
pub open spec fn first_place(keys: Seq<PublicKey>, key: PublicKey) -> Option<int>
    decreases keys.len(),
{
    if keys.len() == 0 {
        None
    } else if keys[0] == key {
        Some(0)
    } else {
        match first_place(keys.drop_first(), key) {
            Some(i) => Some(i + 1),
            None => None,
        }
    }
}

/// The first place holds the key and no earlier one does; there is none only if the key is not in
/// the list.
pub proof fn lemma_first_place(keys: Seq<PublicKey>, key: PublicKey)
    ensures
        match first_place(keys, key) {
            Some(i) => {
                &&& 0 <= i < keys.len()
                &&& keys[i] == key
                &&& forall|j: int| 0 <= j < i ==> keys[j] != key
            },
            None => !keys.contains(key),
        },
    decreases keys.len(),
{
    if keys.len() > 0 && keys[0] != key {
        let rest = keys.drop_first();
        lemma_first_place(rest, key);
        match first_place(rest, key) {
            Some(i) => {
                assert forall|j: int| 0 <= j < i + 1 implies keys[j] != key by {
                    if j > 0 {
                        assert(keys[j] == rest[j - 1]);
                    }
                }
            },
            None => {
                assert forall|j: int| 0 <= j < keys.len() implies keys[j] != key by {
                    if j > 0 {
                        assert(rest[j - 1] == keys[j]);
                        assert(rest.contains(rest[j - 1]));
                    }
                }
            },
        }
    }
}

/// Where the signer stands in the list of keys: the first place that holds its key, or nothing if
/// its key is not in the list.
pub fn sender_index(sender_id: &SignerID, pubkey_list: &Vec<PublicKey>) -> (index: Option<usize>)
    ensures
        match index {
            Some(i) => {
                &&& i < pubkey_list@.len()
                &&& pubkey_list@[i as int] == sender_id.pubkey
                &&& forall|j: int| 0 <= j < i ==> pubkey_list@[j] != sender_id.pubkey
                &&& first_place(pubkey_list@, sender_id.pubkey) == Some(i as int)
            },
            None => {
                &&& !pubkey_list@.contains(sender_id.pubkey)
                &&& first_place(pubkey_list@, sender_id.pubkey) == None::<int>
            },
        },
{
    proof {
        lemma_first_place(pubkey_list@, sender_id.pubkey);
    }
    let mut i: usize = 0;
    while i < pubkey_list.len()
        invariant
            i <= pubkey_list.len(),
            forall|j: int| 0 <= j < i ==> pubkey_list@[j] != sender_id.pubkey,
        decreases pubkey_list.len() - i,
    {
        if pubkey_list[i] == sender_id.pubkey {
            proof {
                lemma_first_place(pubkey_list@, sender_id.pubkey);
            }
            return Some(i);
        }
        i = i + 1;
    }
    None
}

/// The configuration of a node.
pub struct NodeParameters {
    /// The keys of the federation, in order.
    pub pubkey_list: Vec<PublicKey>,
    /// How many signatures complete a block.
    pub threshold: u8,
    pub private_key: PrivateKey,
    /// Where the reward of a new block goes.
    pub address: String,
    pub signer_id: SignerID,
    /// Whether the node starts out as the master.
    pub master_flag: bool,
    /// Where the node's own key stands in the list of keys.
    pub self_node_index: usize,
    /// How long the master waits before it proposes a block, in seconds.
    pub round_duration: u64,
    /// Whether the node starts without waiting for the initial block download.
    pub skip_waiting_ibd: bool,
}

/// The contents of the configuration.
#[verifier::ext_equal]
pub struct ParametersView {
    pub pubkey_list: Seq<PublicKey>,
    pub threshold: u8,
    pub private_key: PrivateKey,
    pub address: Seq<char>,
    pub signer_id: SignerID,
    pub master_flag: bool,
    pub self_node_index: usize,
    pub round_duration: u64,
    pub skip_waiting_ibd: bool,
}

impl View for NodeParameters {
    type V = ParametersView;

    open spec fn view(&self) -> ParametersView {
        ParametersView {
            pubkey_list: self.pubkey_list@,
            threshold: self.threshold,
            private_key: self.private_key,
            address: self.address@,
            signer_id: self.signer_id,
            master_flag: self.master_flag,
            self_node_index: self.self_node_index,
            round_duration: self.round_duration,
            skip_waiting_ibd: self.skip_waiting_ibd,
        }
    }
}

impl ParametersView {
    /// The keys stand in order, the node's identity is the public key of its private key, its
    /// place is the first that holds this key, and rewards go to the address of the key.
    pub open spec fn wf(self) -> bool {
        let own = self.private_key.public();
        &&& in_order(self.pubkey_list)
        &&& self.signer_id.pubkey == own
        &&& self.self_node_index < self.pubkey_list.len()
        &&& self.pubkey_list[self.self_node_index as int] == own
        &&& forall|j: int| 0 <= j < self.self_node_index ==> self.pubkey_list[j] != own
        &&& self.address == own.p2pkh_address(self.private_key.network())
    }

    /// The configuration that comes of these keys and choices.
    pub open spec fn made_of(
        self,
        pubkey_list: Seq<PublicKey>,
        private_key: PrivateKey,
        threshold: u8,
        master_flag: bool,
        round_duration: u64,
        skip_waiting_ibd: bool,
    ) -> bool {
        &&& self.wf()
        &&& self.pubkey_list.to_multiset() == pubkey_list.to_multiset()
        &&& self.private_key == private_key
        &&& self.threshold == threshold
        &&& self.master_flag == master_flag
        &&& self.round_duration == round_duration
        &&& self.skip_waiting_ibd == skip_waiting_ibd
    }
}

impl NodeParameters {
    /// The configuration of the node with `private_key` in the federation of `pubkey_list`, which
    /// must hold the key of the node.
    pub fn new(
        pubkey_list: Vec<PublicKey>,
        private_key: PrivateKey,
        threshold: u8,
        master_flag: bool,
        round_duration: u64,
        skip_waiting_ibd: bool,
    ) -> (params: NodeParameters)
        requires
            pubkey_list@.contains(private_key.public()),
        ensures
            params@.made_of(
                pubkey_list@,
                private_key,
                threshold,
                master_flag,
                round_duration,
                skip_waiting_ibd,
            ),
            params.threshold == threshold,
            params.private_key == private_key,
            params.master_flag == master_flag,
            params.round_duration == round_duration,
            params.skip_waiting_ibd == skip_waiting_ibd,
            params.pubkey_list@.to_multiset() == pubkey_list@.to_multiset(),
            params.signer_id.pubkey == private_key.public(),
            params.address@ == private_key.public().p2pkh_address(private_key.network()),
            params.self_node_index < params.pubkey_list@.len(),
            params.pubkey_list@[params.self_node_index as int] == private_key.public(),
    {
        let signer_id = SignerID { pubkey: private_key.public_key() };
        let address = private_key.address();
        let sorted = sort_keys(&pubkey_list);
        proof {
            broadcast use vstd::seq_lib::group_to_multiset_ensures;
            assert(pubkey_list@.to_multiset().count(signer_id.pubkey) > 0);
            assert(sorted@.contains(signer_id.pubkey));
        }
        let self_node_index: usize = sender_index(&signer_id, &sorted).unwrap();
        NodeParameters {
            pubkey_list: sorted,
            threshold,
            private_key,
            address,
            signer_id,
            master_flag,
            self_node_index,
            round_duration,
            skip_waiting_ibd,
        }
    }

    /// The configuration of the node with `private_key` in the federation of `pubkey_list`, or
    /// nothing if the key of the node is not in the list.
    pub fn checked_new(
        pubkey_list: Vec<PublicKey>,
        private_key: PrivateKey,
        threshold: u8,
        master_flag: bool,
        round_duration: u64,
        skip_waiting_ibd: bool,
    ) -> (params: Option<NodeParameters>)
        ensures
            params is Some <==> pubkey_list@.contains(private_key.public()),
            params matches Some(p) ==> p@.made_of(
                pubkey_list@,
                private_key,
                threshold,
                master_flag,
                round_duration,
                skip_waiting_ibd,
            ),
            params matches Some(p) ==> p.threshold == threshold && p.private_key == private_key
                && p.master_flag == master_flag && p.round_duration == round_duration
                && p.skip_waiting_ibd == skip_waiting_ibd,
    {
        let signer_id = SignerID { pubkey: private_key.public_key() };
        match sender_index(&signer_id, &pubkey_list) {
            Some(i) => {
                assert(pubkey_list@[i as int] == private_key.public());
                Some(
                    NodeParameters::new(
                        pubkey_list,
                        private_key,
                        threshold,
                        master_flag,
                        round_duration,
                        skip_waiting_ibd,
                    ),
                )
            },
            None => None,
        }
    }
}

} // verus!
