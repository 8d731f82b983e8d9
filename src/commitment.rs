//! Placeholder commitment types used by cross-chain state verification.
use vstd::prelude::*;

verus! {

/// The root of a commitment.
#[derive(Clone, Debug, PartialEq, Eq)]
pub struct CommitmentRoot;

/// A path inside a commitment.
#[derive(Clone, Debug, PartialEq, Eq)]
pub struct CommitmentPath;

impl CommitmentPath {
    /// Every path maps to the one placeholder commitment path.
    pub fn from_path<P>(_p: P) -> (r: Self)
        ensures
            r == (CommitmentPath {}),
    {
        CommitmentPath {}
    }
}

/// The prefix under which commitments are stored: raw bytes.
#[derive(Clone, Debug)]
pub struct CommitmentPrefix(pub Vec<u8>);

impl CommitmentPrefix {
    /// Wraps the bytes, unchanged.
    pub fn new(content: Vec<u8>) -> (r: Self)
        ensures
            r.0@ == content@,
    {
        Self { 0: content }
    }

    /// The prefix's bytes.
    pub fn as_bytes(&self) -> (r: &[u8])
        ensures
            r@ == self.0@,
    {
        self.0.as_slice()
    }
}

} // verus!
