//! The node: its identity, its topics, and whether it is running.

use vstd::prelude::*;
use vstd::utf8::encode_utf8;

use crate::digest::{
    blake3_digest, check_public_key, decode_hex, digest, encode_hex, hex_text, id_of_text,
    is_key_text, is_public_key, lemma_hex_text_is_key_text, lemma_key_text_is_ascii,
};
use crate::text::join;

pub mod identity;
pub mod laws;
pub mod publication;
pub mod startup;
pub mod subscription;

verus! {

/// What a network identifier is derived from.
pub open spec fn network_preimage() -> Seq<u8> {
    encode_utf8("panda-playground"@)
}

/// Network identifier for Panda Playground.
pub fn network_id() -> (id: [u8; 32])
    ensures
        id@ == blake3_digest(network_preimage()),
{
    digest("panda-playground".as_bytes())
}

/// What the identifier of the topic called `name` is derived from.
pub open spec fn topic_preimage(name: Seq<char>) -> Seq<u8> {
    encode_utf8("panda-playground/"@ + name)
}

/// The identifier of the topic called `name`.
pub open spec fn topic_id(name: Seq<char>) -> Seq<u8> {
    blake3_digest(topic_preimage(name))
}

/// Derive a topic ID from a string name.
pub fn topic_from_name(name: &str) -> (topic: [u8; 32])
    ensures
        topic@ == topic_id(name@),
{
    let text = join("panda-playground/", name);
    digest(text.as_str().as_bytes())
}

/// Why a node refused or failed.
#[derive(Debug, PartialEq, Eq)]
pub enum NodeError {
    /// The network layer failed, with the reason.
    Network(String),
    /// The node runs already.
    AlreadyRunning,
    /// The node does not run.
    NotRunning,
}

/// What a `NodeError` says.
pub enum NodeFault {
    Network(Seq<char>),
    AlreadyRunning,
    NotRunning,
}

impl View for NodeError {
    type V = NodeFault;

    open spec fn view(&self) -> NodeFault {
        match *self {
            NodeError::Network(reason) => NodeFault::Network(reason@),
            NodeError::AlreadyRunning => NodeFault::AlreadyRunning,
            NodeError::NotRunning => NodeFault::NotRunning,
        }
    }
}

/// The message that a fault is shown with.
pub open spec fn node_fault_text(fault: NodeFault) -> Seq<char> {
    match fault {
        NodeFault::Network(reason) => "network error: "@ + reason,
        NodeFault::AlreadyRunning => "node already running"@,
        NodeFault::NotRunning => "node not running"@,
    }
}

impl NodeError {
    /// The message for display.
    pub fn message(&self) -> (text: String)
        ensures
            text@ == node_fault_text(self@),
    {
        match self {
            NodeError::Network(reason) => join("network error: ", reason.as_str()),
            NodeError::AlreadyRunning => "node already running".to_owned(),
            NodeError::NotRunning => "node not running".to_owned(),
        }
    }
}

/// The number of characters in the short form of a public key.
pub const SHORT_ID_LEN: usize = 8;

/// The short form of a public key, for display.
pub open spec fn short_form(key: Seq<char>) -> Seq<char> {
    key.take(SHORT_ID_LEN as int)
}

/// The public key of a node in lowercase hexadecimal.
#[derive(Debug)]
pub struct PublicKeyHex {
    text: String,
}

impl View for PublicKeyHex {
    type V = Seq<char>;

    closed spec fn view(&self) -> Seq<char> {
        self.text@
    }
}

impl Clone for PublicKeyHex {
    fn clone(&self) -> (copy: Self)
        ensures
            copy@ == self@,
    {
        proof {
            use_type_invariant(self);
        }
        PublicKeyHex { text: self.text.clone() }
    }
}

impl PublicKeyHex {
    #[verifier::type_invariant]
    spec fn is_key(&self) -> bool {
        is_key_text(self.text@)
    }

    /// The text of the key whose bytes are `node_id`.
    pub fn from_node_id(node_id: &[u8; 32]) -> (key: Self)
        ensures
            key@ == hex_text(node_id@),
            is_key_text(key@),
    {
        let text = encode_hex(node_id);
        proof {
            lemma_hex_text_is_key_text(node_id@);
        }
        PublicKeyHex { text }
    }

    /// The whole text.
    pub fn full(&self) -> (text: String)
        ensures
            text@ == self@,
            is_key_text(text@),
    {
        proof {
            use_type_invariant(self);
        }
        self.text.clone()
    }

    /// The short form.
    pub fn short(&self) -> (text: String)
        ensures
            text@ == short_form(self@),
            is_key_text(self@),
    {
        proof {
            use_type_invariant(self);
            lemma_key_text_is_ascii(self.text@);
        }
        let text = self.text.as_str().substring_ascii(0, SHORT_ID_LEN).to_owned();
        assert(text@ =~= short_form(self@));
        text
    }
}

/// The Panda Playground node: the public key of the network endpoint while the
/// node runs, and nothing while it does not.
#[derive(Debug)]
pub struct Node {
    inner: Option<PublicKeyHex>,
}

impl View for Node {
    type V = Option<Seq<char>>;

    closed spec fn view(&self) -> Option<Seq<char>> {
        match self.inner {
            Some(key) => Some(key@),
            None => None,
        }
    }
}

/// The public key that `text` writes in hexadecimal, if it does.
pub open spec fn key_of_text(text: Seq<char>) -> Option<Seq<u8>> {
    match id_of_text(text) {
        Some(id) => if is_public_key(id) {
            Some(id)
        } else {
            None
        },
        None => None,
    }
}

/// The peer that a node connects to for a public key, or why it connects to
/// none.
pub open spec fn peer_of(node: Option<Seq<char>>, key: Option<Seq<u8>>) -> Result<
    Seq<u8>,
    NodeFault,
> {
    match (node, key) {
        (None, _) => Err(NodeFault::NotRunning),
        (Some(_), None) => Err(NodeFault::Network("invalid node id"@)),
        (Some(_), Some(id)) => Ok(id),
    }
}

impl Node {
    /// A node that does not run.
    pub fn new() -> (node: Self)
        ensures
            node@ is None,
    {
        Node { inner: None }
    }

    /// Whether the node runs.
    pub fn is_running(&self) -> (running: bool)
        ensures
            running == (self@ is Some),
    {
        self.inner.is_some()
    }

    /// Get this node's public key (short form for display).
    pub fn short_id(&self) -> (id: Result<String, NodeError>)
        ensures
            match self@ {
                Some(key) => id matches Ok(text) && text@ == short_form(key) && is_key_text(key),
                None => id matches Err(error) && error@ == NodeFault::NotRunning,
            },
    {
        match &self.inner {
            Some(key) => Ok(key.short()),
            None => Err(NodeError::NotRunning),
        }
    }

    /// Get this node's whole public key, for sharing with peers.
    pub fn full_id(&self) -> (id: Result<String, NodeError>)
        ensures
            match self@ {
                Some(key) => id matches Ok(text) && text@ == key && is_key_text(key),
                None => id matches Err(error) && error@ == NodeFault::NotRunning,
            },
    {
        match &self.inner {
            Some(key) => Ok(key.full()),
            None => Err(NodeError::NotRunning),
        }
    }

    /// The identifier of the peer with this hex-encoded public key, for a
    /// running node to connect to.
    pub fn add_peer(&self, node_id: &str) -> (peer: Result<[u8; 32], NodeError>)
        ensures
            match peer_of(self@, key_of_text(node_id@)) {
                Ok(bytes) => peer matches Ok(id) && id@ == bytes,
                Err(fault) => peer matches Err(error) && error@ == fault,
            },
    {
        match decode_hex(node_id) {
            Some(id) => {
                let key = if check_public_key(&id) {
                    Some(id)
                } else {
                    None
                };
                self.connect_to(key)
            },
            None => self.connect_to(None),
        }
    }

    /// The peer to connect to for a public key; nothing stands for a text that
    /// is no public key.
    pub fn connect_to(&self, key: Option<[u8; 32]>) -> (peer: Result<[u8; 32], NodeError>)
        ensures
            match peer_of(
                self@,
                match key {
                    Some(id) => Some(id@),
                    None => None,
                },
            ) {
                Ok(bytes) => peer matches Ok(id) && id@ == bytes,
                Err(fault) => peer matches Err(error) && error@ == fault,
            },
    {
        if self.inner.is_none() {
            return Err(NodeError::NotRunning);
        }
        match key {
            Some(id) => Ok(id),
            None => Err(NodeError::Network("invalid node id".to_owned())),
        }
    }

    /// Shut down the node.
    pub fn shutdown(&mut self) -> (outcome: Result<(), NodeError>)
        ensures
            final(self)@ is None,
            match old(self)@ {
                Some(key) => outcome is Ok,
                None => outcome matches Err(error) && error@ == NodeFault::NotRunning,
            },
    {
        if self.inner.is_none() {
            return Err(NodeError::NotRunning);
        }
        self.inner = None;
        Ok(())
    }
}

} // verus!
