# tapyrus_signer

The signer of a Tapyrus federation, verified with Verus.

The signers of a federation take turns at being the master of a round. The master proposes a
block, collects the members' signatures on it, has it completed once there are enough of them, and
passes its role on.

- `src/` is the library. A `SignerNode` decides what to do and does no input or output: `start`
  and `advance` hand out one `Action` after another, and take the `Reply` to each.
  - `curve`, `keys`: keys and signatures, and the calls into `secp256k1` and `bitcoin`
  - `order`: the order in which a federation lists its keys
  - `parameters`: what a node is configured with
  - `message`, `signature_map`, `work`: what nodes exchange, collect and hand out
  - `node`: how messages and rounds are handled
  - `run`: the life of a node from its start to its end
  - `laws`: what holds of nodes and federations as a whole
- `app/` performs the actions: the core node, the connection to the other signers, the timer.
- `tests/` runs the library with the real `secp256k1` and `bitcoin`.
