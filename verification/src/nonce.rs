//! The sequence number of the sending account's last confirmed transaction.

use vstd::prelude::*;

verus! {

/// Remembers the nonce of the last transaction that the chain confirmed for
/// the sending account. While it holds one, the next transaction uses its
/// successor; while it holds none, the chain has to be asked.
#[derive(Clone, Copy, Debug, PartialEq, Eq)]
pub struct NonceCache {
    pub last_used: Option<u64>,
}

impl NonceCache {
    /// The nonce that the cache prescribes for the next transaction, if it
    /// holds one.
    pub open spec fn successor(self) -> Option<int> {
        match self.last_used {
            Some(nonce) => Some(nonce + 1),
            None => None,
        }
    }

    /// A cache that has seen no transaction yet.
    pub fn new() -> (cache: NonceCache)
        ensures
            cache.last_used is None,
    {
        NonceCache { last_used: None }
    }

    /// The nonce after the remembered one; `None` while nothing is remembered.
    pub fn next(&self) -> (next: Option<u64>)
        requires
            self.last_used != Some(u64::MAX),
        ensures
            next is Some == self.last_used is Some,
            next matches Some(nonce) ==> self.successor() == Some(nonce as int),
    {
        match self.last_used {
            Some(nonce) => Some(nonce + 1),
            None => None,
        }
    }

    /// Remembers `nonce` as the one that the chain recorded last.
    pub fn record(&mut self, nonce: u64)
        ensures
            final(self).last_used == Some(nonce),
    {
        self.last_used = Some(nonce);
    }
}

} // verus!
