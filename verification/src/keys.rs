use vstd::prelude::*;

verus! {

/// A 32-byte account or asset identifier, held as four 64-bit words.
/// The host chain's key type is opaque; the ledger only ever compares keys
/// for equality, so any faithful 256-bit value works.
#[derive(Clone, Copy, Debug, PartialEq, Eq, Structural)]
pub struct Pubkey {
    pub w0: u64,
    pub w1: u64,
    pub w2: u64,
    pub w3: u64,
}

impl Pubkey {
    /// The key made of four given words.
    pub fn new(w0: u64, w1: u64, w2: u64, w3: u64) -> (r: Pubkey)
        ensures
            r == (Pubkey { w0, w1, w2, w3 }),
    {
        Pubkey { w0, w1, w2, w3 }
    }
}

} // verus!
