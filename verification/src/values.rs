//! The plain values that policies are made of: addresses, digests and texts.

use vstd::prelude::*;

verus! {

/// Whether an address names a user account or a contract.
#[derive(Clone, Copy, Debug, PartialEq, Eq, Structural)]
pub enum AddressKind {
    Account,
    Contract,
}

/// An address on the chain: its kind and its 256-bit key.
#[derive(Clone, Copy, Debug, PartialEq, Eq, Structural)]
pub struct Address {
    pub kind: AddressKind,
    /// The first 16 bytes of the key, most significant byte first.
    pub high: u128,
    /// The last 16 bytes of the key, most significant byte first.
    pub low: u128,
}

impl View for Address {
    type V = Address;

    open spec fn view(&self) -> Address {
        *self
    }
}

/// A 256-bit digest.
#[derive(Clone, Copy, Debug, PartialEq, Eq, Structural)]
pub struct Digest {
    pub high: u128,
    pub low: u128,
}

/// A text: an identifier or the name of a spending category. Texts are
/// compared byte by byte and need not be valid UTF-8.
#[derive(Debug, PartialEq, Eq)]
pub struct Text {
    pub bytes: Vec<u8>,
}

impl View for Text {
    type V = Seq<u8>;

    open spec fn view(&self) -> Seq<u8> {
        self.bytes@
    }
}

impl Text {
    /// The text made of `bytes`.
    pub fn new(bytes: Vec<u8>) -> (text: Text)
        ensures
            text@ == bytes@,
    {
        Text { bytes }
    }

    /// Whether the text has no bytes.
    pub fn is_empty(&self) -> (empty: bool)
        ensures
            empty == (self@.len() == 0),
    {
        self.bytes.len() == 0
    }
}

impl Clone for Text {
    fn clone(&self) -> (copy: Text)
        ensures
            copy@ == self@,
    {
        let bytes = self.bytes.clone();
        assert(bytes@ =~= self.bytes@);
        Text { bytes }
    }
}

} // verus!
