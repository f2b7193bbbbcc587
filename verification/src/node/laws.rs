//! What holds of a node as a whole.

use vstd::prelude::*;
use vstd::utf8::encode_utf8_decode_utf8;

use crate::digest::{blake3_digest, hex_text};
use crate::node::identity::{identity_action, IdentityActionModel, PRIVATE_KEY_LEN};
use crate::node::publication::{
    publish_step, PublicationModel, PublishActionModel, PublishEvent,
};
use crate::node::startup::{
    identity_refused, start_failure, start_step, stored_bytes, MdnsMode, StartActionModel,
    StartEvent, StartupModel,
};
use crate::node::subscription::{
    fresh_delivery, relay_step, subscribe_step, Relay, RelayActionModel, RelayEvent,
    SubscribeActionModel, SubscribeEvent, SubscriptionModel,
};
use crate::node::{network_preimage, topic_id, topic_preimage, NodeFault};

pub mod answers;
pub mod steps;

verus! {

/// A start after some events: the node, how far the start has come, and what
/// was asked for after each event.
pub struct StartRun {
    pub node: Option<Seq<char>>,
    pub startup: StartupModel,
    pub actions: Seq<StartActionModel>,
}

/// The start of a node, with the identity that is kept in `data_dir`, after
/// `events`.
pub open spec fn run_start(
    node: Option<Seq<char>>,
    data_dir: Seq<char>,
    events: Seq<StartEvent>,
) -> StartRun
    decreases events.len(),
{
    if events.len() == 0 {
        StartRun { node, startup: StartupModel::Fresh { data_dir }, actions: seq![] }
    } else {
        let before = run_start(node, data_dir, events.drop_last());
        let after = start_step(before.node, before.startup, events.last());
        StartRun {
            node: after.node,
            startup: after.startup,
            actions: before.actions.push(after.action),
        }
    }
}

/// Whatever happens, a start changes the node only by ending in success: then
/// the node did not run before, and runs with the key that the start reported.
pub proof fn law_start_all_or_nothing(
    node: Option<Seq<char>>,
    data_dir: Seq<char>,
    events: Seq<StartEvent>,
)
    ensures
        ({
            let run = run_start(node, data_dir, events);
            run.node == node || {
                &&& node is None
                &&& run.node matches Some(key)
                &&& run.startup == StartupModel::Done
                &&& run.actions.contains(StartActionModel::Finish(Ok(key)))
            }
        }),
    decreases events.len(),
{
    lemma_running_node_never_starts(node, data_dir, events);
    if events.len() > 0 {
        law_start_all_or_nothing(node, data_dir, events.drop_last());
        let before = run_start(node, data_dir, events.drop_last());
        let run = run_start(node, data_dir, events);
        if before.node == node {
            if run.node != node {
                assert(run.actions.last() == StartActionModel::Finish(Ok(run.node->Some_0)));
            }
        } else {
            let key = before.node->Some_0;
            let k = choose|k: int|
                0 <= k < before.actions.len() && before.actions[k] == StartActionModel::Finish(
                    Ok(key),
                );
            assert(run.actions[k] == StartActionModel::Finish(Ok(key)));
        }
    }
}

/// A start of a running node is over as soon as it begins.
proof fn lemma_running_node_never_starts(
    node: Option<Seq<char>>,
    data_dir: Seq<char>,
    events: Seq<StartEvent>,
)
    ensures
        node is Some ==> {
            let run = run_start(node, data_dir, events);
            &&& run.node == node
            &&& run.startup is Fresh || run.startup == StartupModel::Done
            &&& forall|i: int|
                0 <= i < run.actions.len() ==> (#[trigger] run.actions[i]
                    == StartActionModel::OutOfTurn || run.actions[i] == StartActionModel::Finish(
                    Err(NodeFault::AlreadyRunning),
                ))
        },
    decreases events.len(),
{
    if events.len() > 0 {
        lemma_running_node_never_starts(node, data_dir, events.drop_last());
    }
}

/// A running node refuses to start: it keeps its key, and nothing is spawned,
/// read or stored.
pub proof fn law_running_node_refuses_start(
    key: Seq<char>,
    data_dir: Seq<char>,
    events: Seq<StartEvent>,
)
    ensures
        ({
            let run = run_start(Some(key), data_dir, events);
            &&& run.node == Some(key)
            &&& forall|i: int|
                0 <= i < run.actions.len() ==> (#[trigger] run.actions[i]
                    == StartActionModel::OutOfTurn || run.actions[i] == StartActionModel::Finish(
                    Err(NodeFault::AlreadyRunning),
                ))
        }),
        start_step(Some(key), StartupModel::Fresh { data_dir }, StartEvent::Begin).action
            == StartActionModel::Finish(Err(NodeFault::AlreadyRunning)),
{
    lemma_running_node_never_starts(Some(key), data_dir, events);
}

/// What a start does, in order: it spawns the parts of the network stack, the
/// endpoint under the private key that is stored in `data_dir`, or that is made
/// and stored there where none is.
pub open spec fn whole_start(
    data_dir: Seq<char>,
    made: bool,
    private_key: Seq<u8>,
) -> Seq<StartActionModel> {
    seq![StartActionModel::SpawnAddressBook, StartActionModel::ReadIdentity { data_dir }] + (
    if made {
        seq![
            StartActionModel::MakeIdentity,
            StartActionModel::StoreIdentity { data_dir, private_key },
        ]
    } else {
        seq![]
    }) + seq![
        StartActionModel::SpawnEndpoint {
            network_id: blake3_digest(network_preimage()),
            private_key,
        },
        StartActionModel::SpawnMdns(MdnsMode::Active),
        StartActionModel::SpawnDiscovery,
        StartActionModel::SpawnGossip,
    ]
}

/// A start of a node that does not run succeeds where a private key is stored and
/// every part of the network stack comes up: the node then runs with the key of
/// the endpoint.
pub proof fn law_start_succeeds(data_dir: Seq<char>, stored: Vec<u8>, node_id: [u8; 32])
    requires
        stored@.len() == PRIVATE_KEY_LEN,
    ensures
        ({
            let events = seq![
                StartEvent::Begin,
                StartEvent::Spawned,
                StartEvent::IdentityRead(Some(stored)),
                StartEvent::EndpointSpawned(node_id),
                StartEvent::Spawned,
                StartEvent::Spawned,
                StartEvent::Spawned,
            ];
            let run = run_start(None, data_dir, events);
            &&& run.node == Some(hex_text(node_id@))
            &&& run.startup == StartupModel::Done
            &&& run.actions == whole_start(data_dir, false, stored@).push(
                StartActionModel::Finish(Ok(hex_text(node_id@))),
            )
        }),
{
    let e1 = seq![StartEvent::Begin];
    let e2 = e1.push(StartEvent::Spawned);
    let e3 = e2.push(StartEvent::IdentityRead(Some(stored)));
    let e4 = e3.push(StartEvent::EndpointSpawned(node_id));
    let e5 = e4.push(StartEvent::Spawned);
    let e6 = e5.push(StartEvent::Spawned);
    let e7 = e6.push(StartEvent::Spawned);
    let events = seq![
        StartEvent::Begin,
        StartEvent::Spawned,
        StartEvent::IdentityRead(Some(stored)),
        StartEvent::EndpointSpawned(node_id),
        StartEvent::Spawned,
        StartEvent::Spawned,
        StartEvent::Spawned,
    ];
    assert(events =~= e7);
    assert(e7.drop_last() =~= e6);
    assert(e6.drop_last() =~= e5);
    assert(e5.drop_last() =~= e4);
    assert(e4.drop_last() =~= e3);
    assert(e3.drop_last() =~= e2);
    assert(e2.drop_last() =~= e1);
    assert(e1.drop_last() =~= Seq::<StartEvent>::empty());
    reveal_with_fuel(run_start, 8);
    assert(run_start(None, data_dir, events).actions =~= whole_start(data_dir, false, stored@).push(
        StartActionModel::Finish(Ok(hex_text(node_id@))),
    ));
}

/// Where nothing is stored, a start of a node that does not run makes a private
/// key and stores it, and then goes on with it in the same way.
pub proof fn law_first_start_succeeds(
    data_dir: Seq<char>,
    private_key: [u8; 32],
    node_id: [u8; 32],
)
    ensures
        ({
            let events = seq![
                StartEvent::Begin,
                StartEvent::Spawned,
                StartEvent::IdentityRead(None),
                StartEvent::IdentityMade(private_key),
                StartEvent::IdentityStored,
                StartEvent::EndpointSpawned(node_id),
                StartEvent::Spawned,
                StartEvent::Spawned,
                StartEvent::Spawned,
            ];
            let run = run_start(None, data_dir, events);
            &&& run.node == Some(hex_text(node_id@))
            &&& run.startup == StartupModel::Done
            &&& run.actions == whole_start(data_dir, true, private_key@).push(
                StartActionModel::Finish(Ok(hex_text(node_id@))),
            )
        }),
{
    let e1 = seq![StartEvent::Begin];
    let e2 = e1.push(StartEvent::Spawned);
    let e3 = e2.push(StartEvent::IdentityRead(None));
    let e4 = e3.push(StartEvent::IdentityMade(private_key));
    let e5 = e4.push(StartEvent::IdentityStored);
    let e6 = e5.push(StartEvent::EndpointSpawned(node_id));
    let e7 = e6.push(StartEvent::Spawned);
    let e8 = e7.push(StartEvent::Spawned);
    let e9 = e8.push(StartEvent::Spawned);
    let events = seq![
        StartEvent::Begin,
        StartEvent::Spawned,
        StartEvent::IdentityRead(None),
        StartEvent::IdentityMade(private_key),
        StartEvent::IdentityStored,
        StartEvent::EndpointSpawned(node_id),
        StartEvent::Spawned,
        StartEvent::Spawned,
        StartEvent::Spawned,
    ];
    assert(events =~= e9);
    assert(e9.drop_last() =~= e8);
    assert(e8.drop_last() =~= e7);
    assert(e7.drop_last() =~= e6);
    assert(e6.drop_last() =~= e5);
    assert(e5.drop_last() =~= e4);
    assert(e4.drop_last() =~= e3);
    assert(e3.drop_last() =~= e2);
    assert(e2.drop_last() =~= e1);
    assert(e1.drop_last() =~= Seq::<StartEvent>::empty());
    reveal_with_fuel(run_start, 10);
    assert(run_start(None, data_dir, events).actions =~= whole_start(
        data_dir,
        true,
        private_key@,
    ).push(StartActionModel::Finish(Ok(hex_text(node_id@)))));
}

/// Whether an action asks for something to be done.
pub open spec fn asks(action: StartActionModel) -> bool {
    !(action is Finish) && action != StartActionModel::OutOfTurn
}

/// What is asked for among `actions`.
pub open spec fn asked_for(actions: Seq<StartActionModel>) -> Seq<StartActionModel> {
    actions.filter(|action: StartActionModel| asks(action))
}

/// How many things were asked for by the time a start has come to `startup`.
spec fn asked_count(startup: StartupModel, made: bool) -> Option<int> {
    let identity: int = if made {
        4
    } else {
        2
    };
    match startup {
        StartupModel::Fresh { .. } => Some(0),
        StartupModel::AddressBook { .. } => Some(1),
        StartupModel::ReadingIdentity { .. } => Some(2),
        StartupModel::MakingIdentity { .. } => Some(3),
        StartupModel::StoringIdentity { .. } => Some(4),
        StartupModel::Endpoint => Some(identity + 1),
        StartupModel::Mdns(_) => Some(identity + 2),
        StartupModel::Discovery(_) => Some(identity + 3),
        StartupModel::Gossip(_) => Some(identity + 4),
        StartupModel::Done => None,
    }
}

/// Whatever happens, the parts of the network stack are spawned in order, each
/// at most once: there is one address book and one endpoint for all of them. The
/// endpoint comes after its private key was read, or made and stored.
pub proof fn law_start_in_order(
    node: Option<Seq<char>>,
    data_dir: Seq<char>,
    events: Seq<StartEvent>,
)
    ensures
        ({
            let run = run_start(node, data_dir, events);
            exists|made: bool, private_key: Seq<u8>, n: int|
                0 <= n <= whole_start(data_dir, made, private_key).len() && asked_for(run.actions)
                    == #[trigger] whole_start(data_dir, made, private_key).take(n)
        }),
{
    lemma_in_order(node, data_dir, events);
}

proof fn lemma_in_order(
    node: Option<Seq<char>>,
    data_dir: Seq<char>,
    events: Seq<StartEvent>,
) -> (so_far: (bool, Seq<u8>, int))
    ensures
        ({
            let (made, private_key, n) = so_far;
            let run = run_start(node, data_dir, events);
            &&& 0 <= n <= whole_start(data_dir, made, private_key).len()
            &&& asked_for(run.actions) == whole_start(data_dir, made, private_key).take(n)
            &&& asked_count(run.startup, made) matches Some(m) ==> m == n
            &&& match run.startup {
                StartupModel::Fresh { data_dir: dir } => dir == data_dir,
                StartupModel::AddressBook { data_dir: dir } => dir == data_dir,
                StartupModel::ReadingIdentity { data_dir: dir } => dir == data_dir,
                StartupModel::MakingIdentity { data_dir: dir } => dir == data_dir && made,
                StartupModel::StoringIdentity { private_key: key } => key == private_key && made,
                _ => true,
            }
        }),
    decreases events.len(),
{
    let run = run_start(node, data_dir, events);
    let asking = |action: StartActionModel| asks(action);
    if events.len() == 0 {
        assert(asked_for(run.actions) =~= whole_start(data_dir, false, seq![]).take(0)) by {
            reveal(Seq::filter);
        }
        (false, seq![], 0)
    } else {
        let (made, private_key, n) = lemma_in_order(node, data_dir, events.drop_last());
        let before = run_start(node, data_dir, events.drop_last());
        let action = run.actions.last();
        assert(run.actions.drop_last() =~= before.actions);
        assert(asked_for(run.actions) == if asking(action) {
            asked_for(before.actions).push(action)
        } else {
            asked_for(before.actions)
        }) by {
            reveal(Seq::filter);
        }
        let (now_made, key) = match action {
            StartActionModel::MakeIdentity => (true, private_key),
            StartActionModel::StoreIdentity { private_key: key, .. } => (true, key),
            StartActionModel::SpawnEndpoint { private_key: key, .. } => (
                before.startup is StoringIdentity,
                key,
            ),
            _ => (made, private_key),
        };
        let whole = whole_start(data_dir, now_made, key);
        if asking(action) {
            assert(whole[n] == action);
            assert(asked_for(run.actions) =~= whole.take(n + 1));
            (now_made, key, n + 1)
        } else {
            (made, private_key, n)
        }
    }
}

/// Where something fails, the start is over: the node is as it was, and the error
/// names what failed and the reason.
pub proof fn law_start_failure_reported(
    node: Option<Seq<char>>,
    data_dir: Seq<char>,
    events: Seq<StartEvent>,
    reason: String,
)
    requires
        !(run_start(node, data_dir, events).startup is Fresh),
        !(run_start(node, data_dir, events).startup is Done),
    ensures
        ({
            let before = run_start(node, data_dir, events);
            let run = run_start(node, data_dir, events.push(StartEvent::Failed(reason)));
            &&& run.node == node
            &&& run.startup == StartupModel::Done
            &&& start_failure(before.startup, reason@) matches Some(fault)
            &&& run.actions.last() == StartActionModel::Finish(Err(fault))
        }),
{
    law_start_all_or_nothing(node, data_dir, events);
    assert(events.push(StartEvent::Failed(reason)).drop_last() =~= events);
}

/// A start that is over stays over, whatever happens.
pub proof fn law_start_over_stays_over(node: Option<Seq<char>>, event: StartEvent)
    ensures
        start_step(node, StartupModel::Done, event).node == node,
        start_step(node, StartupModel::Done, event).startup == StartupModel::Done,
        start_step(node, StartupModel::Done, event).action == StartActionModel::OutOfTurn,
{
}

/// A start together with what is stored outside: for each directory, the bytes
/// that are stored there as an identity.
pub struct StartWorld {
    pub node: Option<Seq<char>>,
    pub startup: StartupModel,
    /// What was asked for last.
    pub asked: StartActionModel,
    pub stored: Map<Seq<char>, Seq<u8>>,
}

/// The bytes that are stored in a directory, if any.
pub open spec fn stored_in(stored: Map<Seq<char>, Seq<u8>>, data_dir: Seq<char>) -> Option<
    Seq<u8>,
> {
    if stored.contains_key(data_dir) {
        Some(stored[data_dir])
    } else {
        None
    }
}

/// What an event makes of a start and of what is stored: a private key is stored
/// where that was asked for and is reported done.
pub open spec fn world_step(world: StartWorld, event: StartEvent) -> StartWorld {
    let after = start_step(world.node, world.startup, event);
    StartWorld {
        node: after.node,
        startup: after.startup,
        asked: if after.action == StartActionModel::OutOfTurn {
            world.asked
        } else {
            after.action
        },
        stored: match (world.asked, event) {
            (
                StartActionModel::StoreIdentity { data_dir, private_key },
                StartEvent::IdentityStored,
            ) => world.stored.insert(data_dir, private_key),
            _ => world.stored,
        },
    }
}

/// Whether an event tells the truth: what is read is what is stored, and an
/// endpoint has the identifier `id_of` its private key.
pub open spec fn truthful(
    world: StartWorld,
    id_of: spec_fn(Seq<u8>) -> Seq<u8>,
    event: StartEvent,
) -> bool {
    match (world.asked, event) {
        (StartActionModel::ReadIdentity { data_dir }, StartEvent::IdentityRead(read)) => {
            stored_bytes(read) == stored_in(world.stored, data_dir)
        },
        (
            StartActionModel::SpawnEndpoint { network_id: _, private_key },
            StartEvent::EndpointSpawned(node_id),
        ) => node_id@ == id_of(private_key),
        _ => true,
    }
}

/// A start in `data_dir`, and what is stored, after `events`.
pub open spec fn run_world(
    node: Option<Seq<char>>,
    data_dir: Seq<char>,
    stored: Map<Seq<char>, Seq<u8>>,
    events: Seq<StartEvent>,
) -> StartWorld
    decreases events.len(),
{
    if events.len() == 0 {
        StartWorld {
            node,
            startup: StartupModel::Fresh { data_dir },
            asked: StartActionModel::OutOfTurn,
            stored,
        }
    } else {
        world_step(run_world(node, data_dir, stored, events.drop_last()), events.last())
    }
}

/// Whether all of `events` tell the truth.
pub open spec fn all_truthful(
    node: Option<Seq<char>>,
    data_dir: Seq<char>,
    stored: Map<Seq<char>, Seq<u8>>,
    id_of: spec_fn(Seq<u8>) -> Seq<u8>,
    events: Seq<StartEvent>,
) -> bool
    decreases events.len(),
{
    events.len() > 0 ==> {
        &&& all_truthful(node, data_dir, stored, id_of, events.drop_last())
        &&& truthful(
            run_world(node, data_dir, stored, events.drop_last()),
            id_of,
            events.last(),
        )
    }
}

/// Whatever happens, and whatever the identifier of a private key is: a start
/// stores nothing outside its directory, and nothing at all where an identity is
/// stored there already. The endpoint is spawned under the private key that is
/// stored, and a start that succeeds reports the identifier of that key.
pub proof fn law_identity_is_the_stored_one(
    node: Option<Seq<char>>,
    data_dir: Seq<char>,
    stored: Map<Seq<char>, Seq<u8>>,
    id_of: spec_fn(Seq<u8>) -> Seq<u8>,
    events: Seq<StartEvent>,
)
    requires
        all_truthful(node, data_dir, stored, id_of, events),
    ensures
        ({
            let world = run_world(node, data_dir, stored, events);
            &&& world.stored.remove(data_dir) == stored.remove(data_dir)
            &&& stored.contains_key(data_dir) ==> world.stored == stored
            &&& world.asked matches StartActionModel::SpawnEndpoint { network_id: _, private_key }
                ==> stored_in(world.stored, data_dir) == Some(private_key)
            &&& world.asked matches StartActionModel::Finish(Ok(key)) ==> {
                &&& stored_in(world.stored, data_dir) matches Some(private_key)
                &&& private_key.len() == PRIVATE_KEY_LEN
                &&& key == hex_text(id_of(private_key))
            }
        }),
{
    lemma_world(node, data_dir, stored, id_of, events);
}

/// The key of the endpoint is that of the stored private key.
spec fn key_of_stored(
    stored: Map<Seq<char>, Seq<u8>>,
    data_dir: Seq<char>,
    id_of: spec_fn(Seq<u8>) -> Seq<u8>,
    key: Seq<char>,
) -> bool {
    &&& stored_in(stored, data_dir) matches Some(private_key)
    &&& private_key.len() == PRIVATE_KEY_LEN
    &&& key == hex_text(id_of(private_key))
}

/// What is known of a start and of what is stored, however far the start has
/// come.
spec fn world_invariant(
    world: StartWorld,
    data_dir: Seq<char>,
    stored: Map<Seq<char>, Seq<u8>>,
    id_of: spec_fn(Seq<u8>) -> Seq<u8>,
) -> bool {
    &&& world.stored.remove(data_dir) == stored.remove(data_dir)
    &&& stored.contains_key(data_dir) ==> world.stored == stored
    &&& match world.startup {
        StartupModel::Fresh { data_dir: dir } => {
            &&& dir == data_dir
            &&& world.asked == StartActionModel::OutOfTurn
            &&& world.stored == stored
        },
        StartupModel::AddressBook { data_dir: dir } => {
            &&& dir == data_dir
            &&& world.asked == StartActionModel::SpawnAddressBook
            &&& world.stored == stored
        },
        StartupModel::ReadingIdentity { data_dir: dir } => {
            &&& dir == data_dir
            &&& world.asked == (StartActionModel::ReadIdentity { data_dir })
            &&& world.stored == stored
        },
        StartupModel::MakingIdentity { data_dir: dir } => {
            &&& dir == data_dir
            &&& world.asked == StartActionModel::MakeIdentity
            &&& !stored.contains_key(data_dir)
        },
        StartupModel::StoringIdentity { private_key } => {
            &&& private_key.len() == PRIVATE_KEY_LEN
            &&& world.asked == (StartActionModel::StoreIdentity { data_dir, private_key })
            &&& !stored.contains_key(data_dir)
        },
        StartupModel::Endpoint => {
            &&& world.asked matches StartActionModel::SpawnEndpoint { network_id: _, private_key }
            &&& private_key.len() == PRIVATE_KEY_LEN
            &&& stored_in(world.stored, data_dir) == Some(private_key)
        },
        StartupModel::Mdns(key) => {
            &&& key_of_stored(world.stored, data_dir, id_of, key)
            &&& world.asked is SpawnMdns
        },
        StartupModel::Discovery(key) => {
            &&& key_of_stored(world.stored, data_dir, id_of, key)
            &&& world.asked is SpawnDiscovery
        },
        StartupModel::Gossip(key) => {
            &&& key_of_stored(world.stored, data_dir, id_of, key)
            &&& world.asked is SpawnGossip
        },
        StartupModel::Done => match world.asked {
            StartActionModel::Finish(Ok(key)) => key_of_stored(
                world.stored,
                data_dir,
                id_of,
                key,
            ),
            StartActionModel::Finish(Err(_)) => true,
            _ => false,
        },
    }
}

proof fn lemma_world(
    node: Option<Seq<char>>,
    data_dir: Seq<char>,
    stored: Map<Seq<char>, Seq<u8>>,
    id_of: spec_fn(Seq<u8>) -> Seq<u8>,
    events: Seq<StartEvent>,
)
    requires
        all_truthful(node, data_dir, stored, id_of, events),
    ensures
        world_invariant(run_world(node, data_dir, stored, events), data_dir, stored, id_of),
    decreases events.len(),
{
    if events.len() > 0 {
        lemma_world(node, data_dir, stored, id_of, events.drop_last());
        let before = run_world(node, data_dir, stored, events.drop_last());
        let world = run_world(node, data_dir, stored, events);
        assert(world.stored.remove(data_dir) =~= before.stored.remove(data_dir));
    }
}

/// The identity is persistent: once a start succeeded, every later start that
/// succeeds in the same directory, left as it is there, reports the same key. What
/// the first start stored is a private key, and stays stored.
pub proof fn law_identity_persists(
    node: Option<Seq<char>>,
    later_node: Option<Seq<char>>,
    data_dir: Seq<char>,
    stored: Map<Seq<char>, Seq<u8>>,
    later_stored: Map<Seq<char>, Seq<u8>>,
    id_of: spec_fn(Seq<u8>) -> Seq<u8>,
    events: Seq<StartEvent>,
    later_events: Seq<StartEvent>,
)
    requires
        all_truthful(node, data_dir, stored, id_of, events),
        all_truthful(later_node, data_dir, later_stored, id_of, later_events),
        run_world(node, data_dir, stored, events).asked matches StartActionModel::Finish(Ok(_)),
        stored_in(later_stored, data_dir) == stored_in(
            run_world(node, data_dir, stored, events).stored,
            data_dir,
        ),
    ensures
        ({
            let first = run_world(node, data_dir, stored, events);
            let later = run_world(later_node, data_dir, later_stored, later_events);
            &&& identity_action(stored_in(later_stored, data_dir)) == IdentityActionModel::Use(
                first.stored[data_dir],
            )
            &&& later.stored == later_stored
            &&& later.asked != StartActionModel::MakeIdentity
            &&& later.asked matches StartActionModel::SpawnEndpoint { network_id: _, private_key }
                ==> private_key == first.stored[data_dir]
            &&& later.asked matches StartActionModel::Finish(Ok(_)) ==> later.asked == first.asked
        }),
{
    lemma_world(node, data_dir, stored, id_of, events);
    lemma_world(later_node, data_dir, later_stored, id_of, later_events);
}

/// What is stored and is not a private key is left as it is, and the start is
/// told so.
pub proof fn law_bad_identity_refused(
    node: Option<Seq<char>>,
    data_dir: Seq<char>,
    read: Vec<u8>,
)
    requires
        read@.len() != PRIVATE_KEY_LEN,
    ensures
        ({
            let after = start_step(
                node,
                StartupModel::ReadingIdentity { data_dir },
                StartEvent::IdentityRead(Some(read)),
            );
            &&& after.node == node
            &&& after.startup == StartupModel::Done
            &&& after.action == StartActionModel::Finish(Err(identity_refused()))
        }),
{
}

/// A node that does not run neither publishes nor subscribes.
pub proof fn law_stopped_node_refuses(topic_name: Seq<char>, message: Seq<u8>)
    ensures
        publish_step(
            None,
            PublicationModel::Fresh { topic_name, message },
            PublishEvent::Begin,
        ).1 == PublishActionModel::Finish(Err(NodeFault::NotRunning)),
        subscribe_step(None, SubscriptionModel::Fresh { topic_name }, SubscribeEvent::Begin).1
            == SubscribeActionModel::Finish(Err(NodeFault::NotRunning)),
{
}

/// What is published under a name goes where it is subscribed to under that
/// name.
pub proof fn law_one_topic_for_a_name(
    publisher: Seq<char>,
    subscriber: Seq<char>,
    topic_name: Seq<char>,
    message: Seq<u8>,
)
    ensures
        publish_step(
            Some(publisher),
            PublicationModel::Fresh { topic_name, message },
            PublishEvent::Begin,
        ).1 == PublishActionModel::OpenStream(topic_id(topic_name)),
        subscribe_step(
            Some(subscriber),
            SubscriptionModel::Fresh { topic_name },
            SubscribeEvent::Begin,
        ).1 == SubscribeActionModel::OpenStream(topic_id(topic_name)),
{
}

/// Topics with different names are derived from different bytes, and none is
/// derived from what the network identifier is derived from.
pub proof fn law_topics_apart(a: Seq<char>, b: Seq<char>)
    ensures
        topic_preimage(a) == topic_preimage(b) ==> a == b,
        topic_preimage(a) != network_preimage(),
{
    let prefix = "panda-playground/"@;
    encode_utf8_decode_utf8(prefix + a);
    encode_utf8_decode_utf8(prefix + b);
    encode_utf8_decode_utf8("panda-playground"@);
    if topic_preimage(a) == topic_preimage(b) {
        assert(prefix + a == prefix + b);
        assert(a =~= (prefix + a).skip(prefix.len() as int));
        assert(b =~= (prefix + b).skip(prefix.len() as int));
    }
    if topic_preimage(a) == network_preimage() {
        assert(prefix + a == "panda-playground"@);
        reveal_strlit("panda-playground/");
        reveal_strlit("panda-playground");
        assert((prefix + a).len() >= 17);
        assert(false);
    }
}

/// A running node publishes a message where the stream opens and takes it: the
/// stream is that of the topic, and the message goes out unchanged.
pub proof fn law_publish_succeeds(key: Seq<char>, topic_name: Seq<char>, message: Seq<u8>)
    ensures
        ({
            let fresh = PublicationModel::Fresh { topic_name, message };
            let (opening, open) = publish_step(Some(key), fresh, PublishEvent::Begin);
            let (sending, send) = publish_step(Some(key), opening, PublishEvent::StreamOpened);
            let (done, finish) = publish_step(Some(key), sending, PublishEvent::Sent);
            &&& open == PublishActionModel::OpenStream(topic_id(topic_name))
            &&& send == PublishActionModel::Send(message)
            &&& finish == PublishActionModel::Finish(Ok(()))
            &&& done == PublicationModel::Done
        }),
{
}

/// A running node subscribes to a topic where its stream opens, and then relays
/// what the stream brings.
pub proof fn law_subscribe_succeeds(key: Seq<char>, topic_name: Seq<char>)
    ensures
        ({
            let fresh = SubscriptionModel::Fresh { topic_name };
            let (opening, open) = subscribe_step(Some(key), fresh, SubscribeEvent::Begin);
            let (done, finish) = subscribe_step(Some(key), opening, SubscribeEvent::StreamOpened);
            &&& open == SubscribeActionModel::OpenStream(topic_id(topic_name))
            &&& finish == SubscribeActionModel::Finish(Ok(fresh_delivery()))
            &&& done == SubscriptionModel::Done
        }),
{
}

/// The publishing of a message after some events: how far it has come, and what
/// was asked for after each event.
pub struct PublishRun {
    pub publication: PublicationModel,
    pub actions: Seq<PublishActionModel>,
}

/// The publishing of a message after `events`, each with the node as it was then.
pub open spec fn run_publish(
    topic_name: Seq<char>,
    message: Seq<u8>,
    events: Seq<(Option<Seq<char>>, PublishEvent)>,
) -> PublishRun
    decreases events.len(),
{
    if events.len() == 0 {
        PublishRun {
            publication: PublicationModel::Fresh { topic_name, message },
            actions: seq![],
        }
    } else {
        let before = run_publish(topic_name, message, events.drop_last());
        let (publication, action) = publish_step(
            events.last().0,
            before.publication,
            events.last().1,
        );
        PublishRun { publication, actions: before.actions.push(action) }
    }
}

/// Whatever happens, nothing but the message is sent, at most once, and no
/// stream but that of its topic is opened, at most once.
pub proof fn law_publish_only_the_message(
    topic_name: Seq<char>,
    message: Seq<u8>,
    events: Seq<(Option<Seq<char>>, PublishEvent)>,
)
    ensures
        ({
            let actions = run_publish(topic_name, message, events).actions;
            &&& forall|i: int|
                0 <= i < actions.len() ==> (#[trigger] actions[i] matches PublishActionModel::Send(
                    sent,
                ) ==> sent == message)
            &&& forall|i: int|
                0 <= i < actions.len() ==> (
                #[trigger] actions[i] matches PublishActionModel::OpenStream(topic) ==> topic
                    == topic_id(topic_name))
            &&& forall|i: int, j: int|
                0 <= i < j < actions.len() ==> !(#[trigger] actions[i] is Send
                    && #[trigger] actions[j] is Send)
            &&& forall|i: int, j: int|
                0 <= i < j < actions.len() ==> !(#[trigger] actions[i] is OpenStream
                    && #[trigger] actions[j] is OpenStream)
        }),
{
    lemma_publish_only_the_message(topic_name, message, events);
}

proof fn lemma_publish_only_the_message(
    topic_name: Seq<char>,
    message: Seq<u8>,
    events: Seq<(Option<Seq<char>>, PublishEvent)>,
)
    ensures
        ({
            let run = run_publish(topic_name, message, events);
            let actions = run.actions;
            &&& match run.publication {
                PublicationModel::Fresh { topic_name: t, message: m } => t == topic_name && m
                    == message && forall|i: int|
                    0 <= i < actions.len() ==> !(#[trigger] actions[i] is Send)
                        && !(actions[i] is OpenStream),
                PublicationModel::Opening { message: m } => m == message && forall|i: int|
                    0 <= i < actions.len() ==> !(#[trigger] actions[i] is Send),
                _ => true,
            }
            &&& forall|i: int|
                0 <= i < actions.len() ==> (#[trigger] actions[i] matches PublishActionModel::Send(
                    sent,
                ) ==> sent == message)
            &&& forall|i: int|
                0 <= i < actions.len() ==> (
                #[trigger] actions[i] matches PublishActionModel::OpenStream(topic) ==> topic
                    == topic_id(topic_name))
            &&& forall|i: int, j: int|
                0 <= i < j < actions.len() ==> !(#[trigger] actions[i] is Send
                    && #[trigger] actions[j] is Send)
            &&& forall|i: int, j: int|
                0 <= i < j < actions.len() ==> !(#[trigger] actions[i] is OpenStream
                    && #[trigger] actions[j] is OpenStream)
        }),
    decreases events.len(),
{
    if events.len() > 0 {
        lemma_publish_only_the_message(topic_name, message, events.drop_last());
    }
}

/// What the stream of a topic brings.
pub enum StreamItem {
    /// A message.
    Message(Vec<u8>),
    /// Word that messages were left out.
    Lag,
}

/// The messages among `items`, in order.
pub open spec fn messages(items: Seq<StreamItem>) -> Seq<Seq<u8>>
    decreases items.len(),
{
    if items.len() == 0 {
        seq![]
    } else {
        let before = messages(items.drop_last());
        match items.last() {
            StreamItem::Message(message) => before.push(message@),
            StreamItem::Lag => before,
        }
    }
}

/// A relay that got `items`, one after the other, each message taken: where it
/// stands, and what it handed on.
pub open spec fn relayed(items: Seq<StreamItem>) -> (Relay, Seq<Seq<u8>>)
    decreases items.len(),
{
    if items.len() == 0 {
        (Relay::Receiving, seq![])
    } else {
        let (before, forwarded) = relayed(items.drop_last());
        match items.last() {
            StreamItem::Message(message) => {
                let (forwarding, action) = relay_step(before, RelayEvent::Received(message));
                let (after, _) = relay_step(forwarding, RelayEvent::Taken);
                match action {
                    RelayActionModel::Forward(bytes) => (after, forwarded.push(bytes)),
                    _ => (after, forwarded),
                }
            },
            StreamItem::Lag => (relay_step(before, RelayEvent::Lagged).0, forwarded),
        }
    }
}

/// A subscriber gets every message that the stream brings, unchanged and in
/// order, also after the stream left out messages.
pub proof fn law_relay_in_order(items: Seq<StreamItem>)
    ensures
        relayed(items).0 == Relay::Receiving,
        relayed(items).1 == messages(items),
    decreases items.len(),
{
    if items.len() > 0 {
        law_relay_in_order(items.drop_last());
    }
}

/// A relay after some events: where it stands, and what was asked for after each
/// event.
pub struct RelayRun {
    pub relay: Relay,
    pub actions: Seq<RelayActionModel>,
}

/// The relay after `events`.
pub open spec fn run_relay(events: Seq<RelayEvent>) -> RelayRun
    decreases events.len(),
{
    if events.len() == 0 {
        RelayRun { relay: Relay::Receiving, actions: seq![] }
    } else {
        let before = run_relay(events.drop_last());
        let (relay, action) = relay_step(before.relay, events.last());
        RelayRun { relay, actions: before.actions.push(action) }
    }
}

/// Whatever happens, what is handed on after an event is the message that this
/// event brought, so each message is handed on at most once, and in order.
pub proof fn law_relay_only_what_came(events: Seq<RelayEvent>)
    ensures
        run_relay(events).actions.len() == events.len(),
        forall|i: int|
            0 <= i < events.len() ==> (
            #[trigger] run_relay(events).actions[i] matches RelayActionModel::Forward(bytes) ==> {
                &&& events[i] matches RelayEvent::Received(message)
                &&& message@ == bytes
            }),
    decreases events.len(),
{
    if events.len() > 0 {
        let before = run_relay(events.drop_last());
        law_relay_only_what_came(events.drop_last());
        assert forall|i: int| 0 <= i < events.len() implies (
        #[trigger] run_relay(events).actions[i] matches RelayActionModel::Forward(bytes) ==> {
            &&& events[i] matches RelayEvent::Received(message)
            &&& message@ == bytes
        }) by {
            if i < events.len() - 1 {
                assert(run_relay(events).actions[i] == before.actions[i]);
                assert(events.drop_last()[i] == events[i]);
            }
        }
    }
}

/// Whatever happens, nothing is handed on after the relay stopped: where the
/// stream ended, or the subscriber is gone.
pub proof fn law_relay_stops_for_good(events: Seq<RelayEvent>, i: int, j: int)
    requires
        0 <= i < j < events.len(),
    ensures
        run_relay(events).actions[i] == RelayActionModel::Stop ==> run_relay(events).actions[j]
            == RelayActionModel::OutOfTurn,
{
    lemma_relay_stopped(events);
}

proof fn lemma_relay_stopped(events: Seq<RelayEvent>)
    ensures
        ({
            let run = run_relay(events);
            &&& run.actions.len() == events.len()
            &&& forall|i: int|
                0 <= i < run.actions.len() && #[trigger] run.actions[i] == RelayActionModel::Stop
                    ==> run.relay == Relay::Stopped
            &&& forall|i: int, j: int|
                0 <= i < j < run.actions.len() && #[trigger] run.actions[i]
                    == RelayActionModel::Stop ==> #[trigger] run.actions[j]
                    == RelayActionModel::OutOfTurn
        }),
    decreases events.len(),
{
    if events.len() > 0 {
        lemma_relay_stopped(events.drop_last());
    }
}

/// A relay stops where the stream ends, and where the subscriber does not take a
/// message because it is gone; a stream that fell behind does not stop it.
pub proof fn law_when_relay_stops(relay: Relay, event: RelayEvent)
    ensures
        relay_step(relay, event).1 == RelayActionModel::Stop <==> {
            ||| relay == Relay::Receiving && event == RelayEvent::Ended
            ||| relay == Relay::Forwarding && event == RelayEvent::SubscriberGone
        },
{
}

/// What can happen next between the stream of a topic and a subscriber.
pub enum ChannelStep {
    /// The relay turns to the stream.
    Poll,
    /// The channel takes the message that waits, where it has room.
    Accept,
    /// The subscriber reads the next message, where there is one.
    Read,
}

/// A relay between a stream and a subscriber, with the channel that holds what
/// the subscriber has yet to read.
pub struct ChannelState {
    /// Where the relay stands.
    pub relay: Relay,
    /// How much of the stream came in.
    pub polled: nat,
    /// The message that waits for room in the channel.
    pub waiting: Seq<Seq<u8>>,
    /// The messages in the channel, next one first.
    pub buffered: Seq<Seq<u8>>,
    /// The messages that the subscriber read, in order.
    pub read: Seq<Seq<u8>>,
}

/// What a step makes of a relay on `stream` with a channel that hands out first
/// what came in first and holds as many messages as a fresh delivery asks for. A
/// step that cannot happen changes nothing.
pub open spec fn channel_step(
    stream: Seq<StreamItem>,
    state: ChannelState,
    step: ChannelStep,
) -> ChannelState {
    match step {
        ChannelStep::Poll => if state.relay == Relay::Receiving && state.polled < stream.len() {
            let (relay, action) = relay_step(
                state.relay,
                match stream[state.polled as int] {
                    StreamItem::Message(message) => RelayEvent::Received(message),
                    StreamItem::Lag => RelayEvent::Lagged,
                },
            );
            ChannelState {
                relay,
                polled: state.polled + 1,
                waiting: match action {
                    RelayActionModel::Forward(message) => state.waiting.push(message),
                    _ => state.waiting,
                },
                ..state
            }
        } else {
            state
        },
        ChannelStep::Accept => if state.waiting.len() > 0 && state.buffered.len()
            < fresh_delivery().capacity {
            ChannelState {
                relay: relay_step(state.relay, RelayEvent::Taken).0,
                waiting: state.waiting.drop_first(),
                buffered: state.buffered.push(state.waiting.first()),
                ..state
            }
        } else {
            state
        },
        ChannelStep::Read => if state.buffered.len() > 0 {
            ChannelState {
                buffered: state.buffered.drop_first(),
                read: state.read.push(state.buffered.first()),
                ..state
            }
        } else {
            state
        },
    }
}

/// A relay on `stream` and its channel after `steps`.
pub open spec fn run_channel(stream: Seq<StreamItem>, steps: Seq<ChannelStep>) -> ChannelState
    decreases steps.len(),
{
    if steps.len() == 0 {
        ChannelState {
            relay: fresh_delivery().relay,
            polled: 0,
            waiting: seq![],
            buffered: seq![],
            read: seq![],
        }
    } else {
        channel_step(stream, run_channel(stream, steps.drop_last()), steps.last())
    }
}

/// However fast or slowly a subscriber reads: what it read, what is buffered for
/// it and the one message that waits for room are the messages that came in,
/// all of them, each once and in order. No more than 256 are buffered, and while
/// a message waits for room nothing else comes in.
pub proof fn law_slow_subscriber_loses_nothing(
    stream: Seq<StreamItem>,
    steps: Seq<ChannelStep>,
)
    ensures
        ({
            let state = run_channel(stream, steps);
            &&& state.polled <= stream.len()
            &&& state.read + state.buffered + state.waiting == messages(
                stream.take(state.polled as int),
            )
            &&& state.buffered.len() <= 256
            &&& state.waiting.len() <= 1
            &&& state.waiting.len() == 1 ==> channel_step(stream, state, ChannelStep::Poll) == state
        }),
{
    lemma_channel(stream, steps);
}

/// A message that waits because the channel is full gets in once the subscriber
/// has read one, behind those that came in before it, and the relay goes on with
/// the stream.
pub proof fn law_reading_makes_room(stream: Seq<StreamItem>, steps: Seq<ChannelStep>)
    requires
        run_channel(stream, steps).waiting.len() == 1,
        run_channel(stream, steps).buffered.len() == 256,
    ensures
        ({
            let full = run_channel(stream, steps);
            let read = channel_step(stream, full, ChannelStep::Read);
            let accepted = channel_step(stream, read, ChannelStep::Accept);
            &&& channel_step(stream, full, ChannelStep::Accept) == full
            &&& accepted == (ChannelState {
                relay: Relay::Receiving,
                waiting: seq![],
                buffered: full.buffered.drop_first().push(full.waiting[0]),
                read: full.read.push(full.buffered[0]),
                ..full
            })
        }),
{
    lemma_channel(stream, steps);
    let full = run_channel(stream, steps);
    assert(full.waiting.drop_first() =~= seq![]);
}

/// A subscriber that reads on gets every message of the stream: as long as it
/// has not, there is a step that can happen.
pub proof fn law_subscriber_never_stuck(stream: Seq<StreamItem>, steps: Seq<ChannelStep>)
    ensures
        ({
            let state = run_channel(stream, steps);
            ||| state.read == messages(stream)
            ||| exists|step: ChannelStep| #[trigger] channel_step(stream, state, step) != state
        }),
{
    lemma_channel(stream, steps);
    let state = run_channel(stream, steps);
    if state.waiting.len() == 1 && state.buffered.len() < fresh_delivery().capacity {
        let next = channel_step(stream, state, ChannelStep::Accept);
        assert(next.waiting.len() == 0);
    } else if state.buffered.len() > 0 {
        let next = channel_step(stream, state, ChannelStep::Read);
        assert(next.read.len() == state.read.len() + 1);
    } else if state.polled < stream.len() {
        let next = channel_step(stream, state, ChannelStep::Poll);
        assert(next.polled == state.polled + 1);
    } else {
        assert(stream.take(state.polled as int) =~= stream);
        assert(state.read + state.buffered + state.waiting =~= state.read);
    }
}

proof fn lemma_channel(stream: Seq<StreamItem>, steps: Seq<ChannelStep>)
    ensures
        ({
            let state = run_channel(stream, steps);
            &&& state.polled <= stream.len()
            &&& state.read + state.buffered + state.waiting == messages(
                stream.take(state.polled as int),
            )
            &&& state.buffered.len() <= fresh_delivery().capacity
            &&& state.relay == Relay::Receiving && state.waiting.len() == 0 || state.relay
                == Relay::Forwarding && state.waiting.len() == 1
        }),
    decreases steps.len(),
{
    let state = run_channel(stream, steps);
    let all = state.read + state.buffered + state.waiting;
    if steps.len() == 0 {
        assert(all =~= messages(stream.take(0)));
    } else {
        lemma_channel(stream, steps.drop_last());
        let before = run_channel(stream, steps.drop_last());
        let all_before = before.read + before.buffered + before.waiting;
        if state.polled > before.polled {
            let taken = stream.take(state.polled as int);
            assert(taken.drop_last() =~= stream.take(before.polled as int));
            match stream[before.polled as int] {
                StreamItem::Message(message) => {
                    assert(all =~= all_before.push(message@));
                },
                StreamItem::Lag => {},
            }
        } else {
            assert(all =~= all_before);
        }
    }
}

/// A relay that stopped hands on nothing more.
pub proof fn law_stopped_relay_stays_stopped(event: RelayEvent)
    ensures
        relay_step(Relay::Stopped, event) == (Relay::Stopped, RelayActionModel::OutOfTurn),
{
}

} // verus!
