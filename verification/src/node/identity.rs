//! The identity of a node: the private key that is kept between starts.

use vstd::prelude::*;

verus! {

/// How many bytes a private key has.
pub const PRIVATE_KEY_LEN: usize = 32;

/// What to do for an identity.
///
/// There is no `Debug` here: a private key is not for printing.
pub enum IdentityAction {
    /// Use this private key, which is the stored one.
    Use([u8; 32]),
    /// Make a private key and store it: there is none yet.
    MakeAndStore,
    /// What is stored is not a private key. It is left alone.
    Refuse,
}

/// What an `IdentityAction` says.
pub enum IdentityActionModel {
    Use(Seq<u8>),
    MakeAndStore,
    Refuse,
}

impl View for IdentityAction {
    type V = IdentityActionModel;

    open spec fn view(&self) -> IdentityActionModel {
        match *self {
            IdentityAction::Use(key) => IdentityActionModel::Use(key@),
            IdentityAction::MakeAndStore => IdentityActionModel::MakeAndStore,
            IdentityAction::Refuse => IdentityActionModel::Refuse,
        }
    }
}

/// What to do for an identity where these bytes are stored.
pub open spec fn identity_action(stored: Option<Seq<u8>>) -> IdentityActionModel {
    match stored {
        None => IdentityActionModel::MakeAndStore,
        Some(bytes) => if bytes.len() == PRIVATE_KEY_LEN {
            IdentityActionModel::Use(bytes)
        } else {
            IdentityActionModel::Refuse
        },
    }
}

/// What to do for an identity where these bytes are stored: a key is made only
/// where nothing is.
pub fn identity(stored: Option<&[u8]>) -> (action: IdentityAction)
    ensures
        action@ == identity_action(
            match stored {
                Some(bytes) => Some(bytes@),
                None => None,
            },
        ),
{
    let bytes = match stored {
        Some(bytes) => bytes,
        None => return IdentityAction::MakeAndStore,
    };
    if bytes.len() != PRIVATE_KEY_LEN {
        return IdentityAction::Refuse;
    }
    let mut key: [u8; 32] = [0; 32];
    let mut i: usize = 0;
    while i < PRIVATE_KEY_LEN
        invariant
            i <= PRIVATE_KEY_LEN == bytes@.len(),
            forall|k: int| 0 <= k < i ==> key@[k] == bytes@[k],
        decreases PRIVATE_KEY_LEN - i,
    {
        key[i] = bytes[i];
        i = i + 1;
    }
    assert(key@ =~= bytes@);
    IdentityAction::Use(key)
}

} // verus!
