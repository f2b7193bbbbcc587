use std::collections::HashMap;

use p2panda_core::PrivateKey;
use panda_playground::api::chat::{start_node, Api};
use panda_playground::node::identity::{identity, IdentityAction, PRIVATE_KEY_LEN};
use panda_playground::node::startup::{StartAction, StartEvent, Startup};
use panda_playground::node::Node;

const PRIVATE_KEY: [u8; 32] = [
    0x9d, 0x61, 0xb1, 0x9d, 0xef, 0xfd, 0x5a, 0x60, 0xba, 0x84, 0x4a, 0xf4, 0x92, 0xec, 0x2c, 0xc4,
    0x44, 0x49, 0xc5, 0x69, 0x7b, 0x32, 0x69, 0x19, 0x70, 0x3b, 0xac, 0x03, 0x1c, 0xae, 0x7f, 0x60,
];

const PUBLIC_KEY: &str = "d75a980182b10ab7d54bfed3c964073a0ee172f3daa62325af021a68f707511a";

/// What is stored in each directory.
type Disk = HashMap<String, Vec<u8>>;

/// Runs a start in `data_dir`, where a key that is made is `fresh`, and gives what
/// the caller is told.
fn start_in(disk: &mut Disk, data_dir: &str, fresh: [u8; 32]) -> Result<String, String> {
    let mut node = Node::new();
    let mut startup = Startup::new(data_dir);
    let mut event = StartEvent::Begin;
    loop {
        let (next, action) = node.start(startup, event);
        startup = next;
        event = match action {
            StartAction::ReadIdentity { data_dir } => {
                StartEvent::IdentityRead(disk.get(&data_dir).cloned())
            }
            StartAction::MakeIdentity => StartEvent::IdentityMade(fresh),
            StartAction::StoreIdentity {
                data_dir,
                private_key,
            } => {
                disk.insert(data_dir, private_key.to_vec());
                StartEvent::IdentityStored
            }
            StartAction::SpawnEndpoint { private_key, .. } => {
                let public_key = PrivateKey::from_bytes(&private_key).public_key();
                StartEvent::EndpointSpawned(*public_key.as_bytes())
            }
            StartAction::Finish(result) => {
                let reply = Some((node, result));
                return start_node(&mut Api::new(), reply).map_err(|error| error.message());
            }
            StartAction::OutOfTurn => panic!("an event out of turn"),
            _ => StartEvent::Spawned,
        };
    }
}

#[test]
fn stored_key_is_used() {
    match identity(Some(&PRIVATE_KEY)) {
        IdentityAction::Use(key) => assert_eq!(key, PRIVATE_KEY),
        _ => panic!("the stored key is not used"),
    }
    assert_eq!(PRIVATE_KEY_LEN, 32);
}

#[test]
fn key_is_made_where_none_is_stored() {
    assert!(matches!(identity(None), IdentityAction::MakeAndStore));
}

#[test]
fn other_lengths_are_refused() {
    for len in [0, 1, 31, 33, 64] {
        assert!(matches!(
            identity(Some(&vec![1; len])),
            IdentityAction::Refuse
        ));
    }
}

#[test]
fn first_start_stores_the_key_it_uses() {
    let mut disk = Disk::new();
    assert_eq!(
        start_in(&mut disk, "here", PRIVATE_KEY),
        Ok(PUBLIC_KEY[..8].to_string())
    );
    assert_eq!(disk.len(), 1);
    assert_eq!(disk["here"], PRIVATE_KEY);
}

#[test]
fn identity_is_the_same_after_a_restart() {
    let mut disk = Disk::new();
    let first = start_in(&mut disk, "here", PRIVATE_KEY);
    let elsewhere = start_in(&mut disk, "there", [5; 32]);
    assert_eq!(start_in(&mut disk, "here", [6; 32]), first);
    assert_eq!(start_in(&mut disk, "here", [7; 32]), first);
    assert_ne!(elsewhere, first);
    assert_eq!(disk["here"], PRIVATE_KEY);
    assert_eq!(disk["there"], [5; 32]);
}

#[test]
fn bad_identity_is_left_alone() {
    let mut disk = Disk::new();
    disk.insert("here".to_string(), vec![1; 31]);
    assert_eq!(
        start_in(&mut disk, "here", PRIVATE_KEY),
        Err(
            "node start failed: network error: identity: stored key is not 32 bytes long"
                .to_string()
        )
    );
    assert_eq!(disk["here"], vec![1; 31]);
}
